use vstd::prelude::*;

use std::collections::VecDeque;

verus! {

/// The pause between two drains of the gamepad event buffer, in
/// milliseconds.
pub const POLL_INTERVAL_MS: u64 = 100;

/// What the relay loop does with one poll of the gamepad driver.
#[derive(Debug)]
pub enum RelayStep<T> {
    /// Relay this event, then poll again.
    Relay(T),
    /// The buffer is empty: sleep for the poll interval.
    Sleep,
}

pub open spec fn relay_step_spec<T>(polled: Option<T>) -> RelayStep<T> {
    match polled {
        Some(event) => RelayStep::Relay(event),
        None => RelayStep::Sleep,
    }
}

/// Decides what to do with one poll: an event is relayed, an empty poll
/// ends the drain.
pub fn relay_step<T>(polled: Option<T>) -> (r: RelayStep<T>)
    ensures
        r == relay_step_spec(polled),
{
    match polled {
        Some(event) => RelayStep::Relay(event),
        None => RelayStep::Sleep,
    }
}

/// The events one drain relays from successive polls: those before the
/// first empty poll.
pub open spec fn drained<T>(polls: Seq<Option<T>>) -> Seq<T>
    decreases polls.len(),
{
    if polls.len() == 0 {
        Seq::empty()
    } else {
        match polls[0] {
            Some(event) => seq![event] + drained(polls.drop_first()),
            None => Seq::empty(),
        }
    }
}

/// The number of polls one drain makes: up to and including the first
/// empty poll.
pub open spec fn polls_made<T>(polls: Seq<Option<T>>) -> nat
    decreases polls.len(),
{
    if polls.len() == 0 {
        0
    } else {
        match polls[0] {
            Some(_) => 1 + polls_made(polls.drop_first()),
            None => 1,
        }
    }
}

proof fn lemma_polls_made_bound<T>(polls: Seq<Option<T>>)
    ensures
        polls_made(polls) <= polls.len(),
    decreases polls.len(),
{
    if polls.len() > 0 {
        lemma_polls_made_bound(polls.drop_first());
    }
}

/// One drain of the loop: takes polls from `polls` until one is empty and
/// gives the events relayed, in order. The polls after that one are left
/// for the next drain.
pub fn drain_round<T>(polls: &mut VecDeque<Option<T>>) -> (r: Vec<T>)
    ensures
        r@ == drained(old(polls)@),
        final(polls)@ == old(polls)@.subrange(polls_made(old(polls)@) as int, old(polls)@.len() as int),
{
    let ghost start = polls@;
    proof {
        lemma_polls_made_bound(start);
    }
    let mut out: Vec<T> = Vec::new();
    loop
        invariant
            start == old(polls)@,
            polls_made(start) <= start.len(),
            out@.len() <= start.len(),
            polls@.len() + out@.len() == start.len(),
            polls@ == start.subrange(out@.len() as int, start.len() as int),
            out@ + drained(polls@) == drained(start),
            out@.len() + polls_made(polls@) == polls_made(start),
        decreases polls@.len(),
    {
        let ghost before = polls@;
        match polls.pop_front() {
            None => {
                assert(drained(before) == Seq::<T>::empty());
                assert(out@ + Seq::<T>::empty() == out@);
                assert(start.subrange(start.len() as int, start.len() as int) =~= before);
                return out;
            },
            Some(polled) => {
                assert(before.drop_first() == polls@);
                assert(before[0] == polled);
                match relay_step(polled) {
                    RelayStep::Relay(event) => {
                        let ghost out_before = out@;
                        out.push(event);
                        assert(out_before + (seq![event] + drained(polls@)) == out@ + drained(polls@));
                        assert(polls@ =~= start.subrange(out@.len() as int, start.len() as int));
                    },
                    RelayStep::Sleep => {
                        assert(drained(before) == Seq::<T>::empty());
                        assert(polls_made(before) == 1);
                        assert(out@ + Seq::<T>::empty() == out@);
                        assert(polls@ =~= start.subrange(polls_made(start) as int, start.len() as int));
                        return out;
                    },
                }
            },
        }
    }
}

/// A burst of buffered events followed by an empty poll is relayed whole
/// in one drain, which makes one poll more than there are events; a next
/// drain that finds no new event relays nothing.
pub proof fn lemma_burst_then_quiet<T>(events: Seq<T>)
    ensures
        drained(events.map_values(|e: T| Some(e)).push(None)) == events,
        polls_made(events.map_values(|e: T| Some(e)).push(None)) == events.len() + 1,
        drained(seq![None::<T>]) == Seq::<T>::empty(),
    decreases events.len(),
{
    let polls = events.map_values(|e: T| Some(e)).push(None);
    if events.len() > 0 {
        let rest = events.drop_first();
        lemma_burst_then_quiet(rest);
        assert(polls.drop_first() =~= rest.map_values(|e: T| Some(e)).push(None));
        assert(polls[0] == Some(events[0]));
        assert(seq![events[0]] + rest =~= events);
    } else {
        assert(polls =~= seq![None::<T>]);
    }
}

} // verus!
