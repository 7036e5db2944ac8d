use vstd::prelude::*;

verus! {

/// The length of the discovery window, in seconds.
pub const DISCOVERY_WINDOW_SECS: u64 = 2;

/// The stages of bring-up, in order, with `Failed` reachable from every
/// stage before `Success`.
#[derive(PartialEq, Eq, Structural, Clone, Copy, Debug)]
pub enum Stage {
    Start,
    GamepadsReady,
    ManagerReady,
    AdapterReady,
    ScanStarted,
    WindowElapsed,
    Enumerated,
    Success,
    Failed,
}

/// A status broadcast to the external observer.
#[derive(PartialEq, Eq, Structural, Clone, Copy, Debug)]
pub enum Signal {
    Progress,
    Success,
    Failure,
}

/// The work that leads out of a stage.
#[derive(PartialEq, Eq, Structural, Clone, Copy, Debug)]
pub enum Work {
    InitGamepads,
    CreateManager,
    SelectAdapter,
    StartScan,
    WaitWindow,
    Enumerate,
    Finish,
}

pub open spec fn is_terminal(s: Stage) -> bool {
    s == Stage::Success || s == Stage::Failed
}

/// The work to perform in a stage; none once bring-up has ended.
pub open spec fn work_of(s: Stage) -> Option<Work> {
    match s {
        Stage::Start => Some(Work::InitGamepads),
        Stage::GamepadsReady => Some(Work::CreateManager),
        Stage::ManagerReady => Some(Work::SelectAdapter),
        Stage::AdapterReady => Some(Work::StartScan),
        Stage::ScanStarted => Some(Work::WaitWindow),
        Stage::WindowElapsed => Some(Work::Enumerate),
        Stage::Enumerated => Some(Work::Finish),
        Stage::Success => None,
        Stage::Failed => None,
    }
}

/// The stage after a stage's work succeeded.
pub open spec fn successor(s: Stage) -> Stage {
    match s {
        Stage::Start => Stage::GamepadsReady,
        Stage::GamepadsReady => Stage::ManagerReady,
        Stage::ManagerReady => Stage::AdapterReady,
        Stage::AdapterReady => Stage::ScanStarted,
        Stage::ScanStarted => Stage::WindowElapsed,
        Stage::WindowElapsed => Stage::Enumerated,
        Stage::Enumerated => Stage::Success,
        Stage::Success => Stage::Success,
        Stage::Failed => Stage::Failed,
    }
}

/// The stage after a stage's work ended with outcome `ok`; a terminal stage
/// stays where it is.
pub open spec fn next_stage(s: Stage, ok: bool) -> Stage {
    if is_terminal(s) {
        s
    } else if ok {
        successor(s)
    } else {
        Stage::Failed
    }
}

/// The signal emitted when a stage's work ends with outcome `ok`: progress
/// after the gamepads, the adapter, the scan start and the window; success
/// after enumeration; failure whenever the work failed.
pub open spec fn step_signal(s: Stage, ok: bool) -> Option<Signal> {
    if is_terminal(s) {
        None
    } else if !ok {
        Some(Signal::Failure)
    } else {
        match s {
            Stage::Start => Some(Signal::Progress),
            Stage::ManagerReady => Some(Signal::Progress),
            Stage::AdapterReady => Some(Signal::Progress),
            Stage::ScanStarted => Some(Signal::Progress),
            Stage::Enumerated => Some(Signal::Success),
            _ => None,
        }
    }
}

pub open spec fn signal_seq(sig: Option<Signal>) -> Seq<Signal> {
    match sig {
        Some(x) => seq![x],
        None => Seq::empty(),
    }
}

/// The signals emitted from stage `s` on when the works that follow end
/// with `outcomes`, one outcome per work, until a terminal stage.
pub open spec fn run_from(s: Stage, outcomes: Seq<bool>) -> Seq<Signal>
    decreases outcomes.len(),
{
    if outcomes.len() == 0 || is_terminal(s) {
        Seq::empty()
    } else {
        signal_seq(step_signal(s, outcomes[0])) + run_from(
            next_stage(s, outcomes[0]),
            outcomes.drop_first(),
        )
    }
}

/// The signals of a whole bring-up: progress on entry, then those of the
/// works.
pub open spec fn run_signals(outcomes: Seq<bool>) -> Seq<Signal> {
    seq![Signal::Progress] + run_from(Stage::Start, outcomes)
}

/// The number of works left before `Success`.
pub open spec fn works_left(s: Stage) -> nat {
    match s {
        Stage::Start => 7,
        Stage::GamepadsReady => 6,
        Stage::ManagerReady => 5,
        Stage::AdapterReady => 4,
        Stage::ScanStarted => 3,
        Stage::WindowElapsed => 2,
        Stage::Enumerated => 1,
        Stage::Success => 0,
        Stage::Failed => 0,
    }
}

/// The bring-up state machine.
pub struct Sequencer {
    stage: Stage,
}

impl Sequencer {
    pub closed spec fn stage_spec(&self) -> Stage {
        self.stage
    }

    /// Begins bring-up at `Start` and gives the progress signal due on entry.
    pub fn start() -> (r: (Sequencer, Signal))
        ensures
            r.0.stage_spec() == Stage::Start,
            r.1 == Signal::Progress,
    {
        (Sequencer { stage: Stage::Start }, Signal::Progress)
    }

    pub fn stage(&self) -> (r: Stage)
        ensures
            r == self.stage_spec(),
    {
        self.stage
    }

    /// The work to perform next, or none once bring-up has ended.
    pub fn pending(&self) -> (r: Option<Work>)
        ensures
            r == work_of(self.stage_spec()),
    {
        match self.stage {
            Stage::Start => Some(Work::InitGamepads),
            Stage::GamepadsReady => Some(Work::CreateManager),
            Stage::ManagerReady => Some(Work::SelectAdapter),
            Stage::AdapterReady => Some(Work::StartScan),
            Stage::ScanStarted => Some(Work::WaitWindow),
            Stage::WindowElapsed => Some(Work::Enumerate),
            Stage::Enumerated => Some(Work::Finish),
            Stage::Success => None,
            Stage::Failed => None,
        }
    }

    /// Records the outcome of the pending work and gives the signal to emit.
    pub fn advance(&mut self, ok: bool) -> (sig: Option<Signal>)
        ensures
            final(self).stage_spec() == next_stage(old(self).stage_spec(), ok),
            sig == step_signal(old(self).stage_spec(), ok),
    {
        let s = self.stage;
        if s == Stage::Success || s == Stage::Failed {
            return None;
        }
        if !ok {
            self.stage = Stage::Failed;
            return Some(Signal::Failure);
        }
        let (next, sig) = match s {
            Stage::Start => (Stage::GamepadsReady, Some(Signal::Progress)),
            Stage::GamepadsReady => (Stage::ManagerReady, None),
            Stage::ManagerReady => (Stage::AdapterReady, Some(Signal::Progress)),
            Stage::AdapterReady => (Stage::ScanStarted, Some(Signal::Progress)),
            Stage::ScanStarted => (Stage::WindowElapsed, Some(Signal::Progress)),
            Stage::WindowElapsed => (Stage::Enumerated, None),
            _ => (Stage::Success, Some(Signal::Success)),
        };
        self.stage = next;
        sig
    }
}

/// Runs bring-up over the given work outcomes and gives every signal it
/// emits, in order.
pub fn sequence_signals(outcomes: &Vec<bool>) -> (r: Vec<Signal>)
    ensures
        r@ == run_signals(outcomes@),
{
    let (mut machine, first) = Sequencer::start();
    let mut out: Vec<Signal> = Vec::new();
    out.push(first);
    let n = outcomes.len();
    let mut i: usize = 0;
    assert(outcomes@.subrange(0, n as int) == outcomes@);
    while i < n
        invariant
            n == outcomes@.len(),
            i <= n,
            out@ + run_from(machine.stage_spec(), outcomes@.subrange(i as int, n as int))
                == run_signals(outcomes@),
        decreases n - i,
    {
        let ghost rest = outcomes@.subrange(i as int, n as int);
        let ghost before = machine.stage_spec();
        if machine.pending().is_none() {
            assert(run_from(before, rest) == Seq::<Signal>::empty());
            assert(out@ + Seq::<Signal>::empty() == out@);
            return out;
        }
        let ok = outcomes[i];
        let sig = machine.advance(ok);
        proof {
            assert(rest.drop_first() == outcomes@.subrange(i + 1, n as int));
            assert(run_from(before, rest) == signal_seq(sig) + run_from(
                machine.stage_spec(),
                outcomes@.subrange(i + 1, n as int),
            ));
        }
        let ghost out_before = out@;
        let ghost tail = run_from(machine.stage_spec(), outcomes@.subrange(i + 1, n as int));
        match sig {
            Some(x) => {
                out.push(x);
                assert(out_before + (seq![x] + tail) == out@ + tail);
            },
            None => {
                assert(Seq::<Signal>::empty() + tail == tail);
            },
        }
        i = i + 1;
    }
    out
}

/// One step of `run_from` over a suffix of the outcomes.
proof fn lemma_run_step(s: Stage, o: Seq<bool>, k: int)
    requires
        !is_terminal(s),
        0 <= k < o.len(),
    ensures
        run_from(s, o.subrange(k, o.len() as int)) == signal_seq(step_signal(s, o[k])) + run_from(
            next_stage(s, o[k]),
            o.subrange(k + 1, o.len() as int),
        ),
{
    assert(o.subrange(k, o.len() as int).drop_first() == o.subrange(k + 1, o.len() as int));
}

/// A fully successful bring-up emits five progress signals, then one
/// success signal, and no failure signal.
pub proof fn lemma_successful_run_signals(outcomes: Seq<bool>)
    requires
        outcomes.len() >= works_left(Stage::Start),
        forall|i: int| 0 <= i < works_left(Stage::Start) ==> outcomes[i],
    ensures
        run_signals(outcomes) == seq![
            Signal::Progress,
            Signal::Progress,
            Signal::Progress,
            Signal::Progress,
            Signal::Progress,
            Signal::Success,
        ],
{
    let o = outcomes;
    let n = o.len() as int;
    assert(run_from(Stage::Success, o.subrange(7, n)) == Seq::<Signal>::empty());
    lemma_run_step(Stage::Enumerated, o, 6);
    lemma_run_step(Stage::WindowElapsed, o, 5);
    lemma_run_step(Stage::ScanStarted, o, 4);
    lemma_run_step(Stage::AdapterReady, o, 3);
    lemma_run_step(Stage::ManagerReady, o, 2);
    lemma_run_step(Stage::GamepadsReady, o, 1);
    lemma_run_step(Stage::Start, o, 0);
    assert(o.subrange(0, n) == o);
    assert(run_signals(o) =~= seq![
        Signal::Progress,
        Signal::Progress,
        Signal::Progress,
        Signal::Progress,
        Signal::Progress,
        Signal::Success,
    ]);
}

/// From a stage before `Success`, a failed work among those left ends the
/// signals with one failure, after progress signals only.
proof fn lemma_fail_within(s: Stage, o: Seq<bool>, k: int)
    requires
        !is_terminal(s),
        0 <= k < works_left(s),
        k < o.len(),
        !o[k],
    ensures
        run_from(s, o).len() >= 1,
        run_from(s, o).last() == Signal::Failure,
        forall|i: int| 0 <= i < run_from(s, o).len() - 1 ==> run_from(s, o)[i] == Signal::Progress,
    decreases o.len(),
{
    if !o[0] {
        assert(run_from(Stage::Failed, o.drop_first()) == Seq::<Signal>::empty());
        assert(run_from(s, o) =~= seq![Signal::Failure]);
    } else {
        let rest = o.drop_first();
        lemma_fail_within(successor(s), rest, k - 1);
        let tail = run_from(successor(s), rest);
        let head = signal_seq(step_signal(s, true));
        assert(run_from(s, o) == head + tail);
        assert(head.len() == 0 || head == seq![Signal::Progress]);
        assert forall|i: int| 0 <= i < run_from(s, o).len() - 1 implies run_from(s, o)[i]
            == Signal::Progress by {
            if head.len() == 1 && i >= 1 {
                assert(run_from(s, o)[i] == tail[i - 1]);
            }
        }
    }
}

/// A bring-up in which any one work fails emits exactly one failure signal,
/// as its last signal, and no success signal: all before it are progress.
pub proof fn lemma_failed_run_signals(outcomes: Seq<bool>, k: int)
    requires
        0 <= k < works_left(Stage::Start),
        k < outcomes.len(),
        !outcomes[k],
    ensures
        run_signals(outcomes).last() == Signal::Failure,
        forall|i: int| 0 <= i < run_signals(outcomes).len() - 1 ==> run_signals(outcomes)[i] == Signal::Progress,
        forall|i: int| 0 <= i < run_signals(outcomes).len() ==> run_signals(outcomes)[i] != Signal::Success,
        forall|i: int|
            0 <= i < run_signals(outcomes).len() && run_signals(outcomes)[i] == Signal::Failure
                ==> i == run_signals(outcomes).len() - 1,
{
    lemma_fail_within(Stage::Start, outcomes, k);
    let tail = run_from(Stage::Start, outcomes);
    let r = run_signals(outcomes);
    assert forall|i: int| 0 <= i < r.len() - 1 implies r[i] == Signal::Progress by {
        if i >= 1 {
            assert(r[i] == tail[i - 1]);
        }
    }
}

} // verus!
