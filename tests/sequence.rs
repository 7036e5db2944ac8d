use carbleurator::{
    drain_round, relay_step, sequence_signals, PeripheralRecord, RelayStep, Sequencer, Signal, Stage,
    Work,
};
use std::collections::VecDeque;

#[test]
fn successful_run_signals_in_order() {
    let r = sequence_signals(&vec![true; 7]);
    assert_eq!(
        r,
        vec![
            Signal::Progress,
            Signal::Progress,
            Signal::Progress,
            Signal::Progress,
            Signal::Progress,
            Signal::Success
        ]
    );
}

#[test]
fn any_single_failure_gives_one_failure_signal() {
    for k in 0..7 {
        let mut outcomes = vec![true; 7];
        outcomes[k] = false;
        let r = sequence_signals(&outcomes);
        assert_eq!(r.iter().filter(|s| **s == Signal::Failure).count(), 1);
        assert_eq!(r.iter().filter(|s| **s == Signal::Success).count(), 0);
        assert_eq!(*r.last().unwrap(), Signal::Failure);
    }
}

#[test]
fn failure_after_adapter_signals() {
    let r = sequence_signals(&vec![true, true, true, false, true, true, true]);
    assert_eq!(
        r,
        vec![Signal::Progress, Signal::Progress, Signal::Progress, Signal::Failure]
    );
}

#[test]
fn sequencer_walks_stages_in_order() {
    let (mut m, first) = Sequencer::start();
    assert_eq!(first, Signal::Progress);
    let works = [
        Work::InitGamepads,
        Work::CreateManager,
        Work::SelectAdapter,
        Work::StartScan,
        Work::WaitWindow,
        Work::Enumerate,
        Work::Finish,
    ];
    for w in works {
        assert_eq!(m.pending(), Some(w));
        m.advance(true);
    }
    assert_eq!(m.stage(), Stage::Success);
    assert_eq!(m.pending(), None);
    assert_eq!(m.advance(false), None);
    assert_eq!(m.stage(), Stage::Success);
}

#[test]
fn failed_stage_is_terminal() {
    let (mut m, _) = Sequencer::start();
    assert_eq!(m.advance(true), Some(Signal::Progress));
    assert_eq!(m.advance(true), None);
    assert_eq!(m.advance(false), Some(Signal::Failure));
    assert_eq!(m.stage(), Stage::Failed);
    assert_eq!(m.advance(true), None);
    assert_eq!(m.stage(), Stage::Failed);
}

#[test]
fn burst_is_drained_then_nothing() {
    let mut polls: VecDeque<Option<u32>> = VecDeque::new();
    polls.push_back(Some(1));
    polls.push_back(Some(2));
    polls.push_back(Some(3));
    polls.push_back(None);
    polls.push_back(None);
    let first = drain_round(&mut polls);
    assert_eq!(first, vec![1, 2, 3]);
    assert_eq!(polls.len(), 1);
    let second = drain_round(&mut polls);
    assert!(second.is_empty());
    assert!(polls.is_empty());
}

#[test]
fn drain_stops_at_first_empty_poll() {
    let mut polls: VecDeque<Option<u32>> = VecDeque::new();
    polls.push_back(Some(5));
    polls.push_back(None);
    polls.push_back(Some(6));
    assert_eq!(drain_round(&mut polls), vec![5]);
    assert_eq!(polls.len(), 1);
    assert_eq!(drain_round(&mut polls), vec![6]);
}

#[test]
fn relay_step_relays_or_sleeps() {
    assert!(matches!(relay_step(Some(9u8)), RelayStep::Relay(9)));
    assert!(matches!(relay_step::<u8>(None), RelayStep::Sleep));
}

#[test]
fn unnamed_peripheral_shows_empty_name() {
    let p = PeripheralRecord::new(None, [1, 2, 3, 4, 5, 6]);
    assert_eq!(p.display_name(), "");
    let q = PeripheralRecord::new(Some("HeadUnit".to_string()), [0; 6]);
    assert_eq!(q.display_name(), "HeadUnit");
}
