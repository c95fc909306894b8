//! What holds of every run of the polling loop.
//!
//! A run is the sequence of events that the caller has reported since the
//! poller was started. The functions here count what the poller has asked for
//! over a run, and the proofs relate the counts: the header goes out once and
//! first, rows are one interval apart, and a failure ends everything.

use vstd::prelude::*;
use crate::poll::{Action, Event, Failure, Phase, Poller};
use crate::row::projection;

verus! {

impl Poller {
    /// The state after a run that began in this state.
    pub open spec fn after(self, events: Seq<Event>) -> Poller
        decreases events.len(),
    {
        if events.len() == 0 {
            self
        } else {
            self.after(events.drop_last()).next(events.last()).0
        }
    }

    /// The action asked for in answer to the last event of a run.
    pub open spec fn last_action(self, events: Seq<Event>) -> Action
        recommends
            events.len() > 0,
    {
        self.after(events.drop_last()).next(events.last()).1
    }

    /// How many rows were asked to be written over a run.
    pub open spec fn rows_asked(self, events: Seq<Event>) -> nat
        decreases events.len(),
    {
        if events.len() == 0 {
            0
        } else {
            let before = self.rows_asked(events.drop_last());
            if self.last_action(events) is WriteRow {
                before + 1
            } else {
                before
            }
        }
    }

    /// How many header records were asked to be written over a run.
    pub open spec fn headers_asked(self, events: Seq<Event>) -> nat
        decreases events.len(),
    {
        if events.len() == 0 {
            0
        } else {
            let before = self.headers_asked(events.drop_last());
            match self.last_action(events) {
                Action::WriteRow { with_header: true, .. } => before + 1,
                _ => before,
            }
        }
    }

    /// The milliseconds of all the sleeps asked for over a run.
    pub open spec fn millis_slept(self, events: Seq<Event>) -> nat
        decreases events.len(),
    {
        if events.len() == 0 {
            0
        } else {
            let before = self.millis_slept(events.drop_last());
            match self.last_action(events) {
                Action::Sleep { millis } => before + millis as nat,
                _ => before,
            }
        }
    }

    /// What a run from the start keeps true, by the phase it has reached.
    pub open spec fn in_step(update_rate: u32, events: Seq<Event>) -> bool {
        let start = Poller::initial(update_rate);
        let reached = start.after(events);
        let rows = start.rows_asked(events);
        &&& reached.update_rate == update_rate
        &&& reached.header_written == (rows > 0)
        &&& start.headers_asked(events) == if rows > 0 { 1nat } else { 0nat }
        &&& match reached.phase {
            Phase::Stopped(_) => true,
            Phase::Writing | Phase::Flushing => rows > 0 && start.millis_slept(events) == (rows
                - 1) * update_rate,
            _ => start.millis_slept(events) == rows * update_rate,
        }
    }
}

/// Every run from the start is in step.
pub proof fn lemma_in_step(update_rate: u32, events: Seq<Event>)
    ensures
        Poller::in_step(update_rate, events),
    decreases events.len(),
{
    if events.len() > 0 {
        lemma_in_step(update_rate, events.drop_last());
        let rows = Poller::initial(update_rate).rows_asked(events.drop_last());
        assert(rows > 0 ==> (rows - 1) * update_rate + update_rate == rows * update_rate)
            by (nonlinear_arith);
    }
}

/// The header is asked for with the first row and with no other: a row
/// carries it exactly if no row was asked for before.
pub proof fn header_goes_with_first_row(update_rate: u32, events: Seq<Event>, event: Event)
    ensures
        Poller::initial(update_rate).after(events).next(event).1 matches Action::WriteRow {
            with_header,
            ..
        } ==> with_header == (Poller::initial(update_rate).rows_asked(events) == 0),
{
    lemma_in_step(update_rate, events);
}

/// Over any run the header is asked for once if a row was, and never if
/// none was.
pub proof fn header_asked_once(update_rate: u32, events: Seq<Event>)
    ensures
        Poller::initial(update_rate).headers_asked(events) == if Poller::initial(
            update_rate,
        ).rows_asked(events) > 0 {
            1nat
        } else {
            0nat
        },
{
    lemma_in_step(update_rate, events);
}

/// Every sleep lasts the configured interval, and one sleep lies between a
/// row and the next: when a row is asked for, the run has slept the interval
/// once for each row before it.
pub proof fn rows_are_one_interval_apart(update_rate: u32, events: Seq<Event>, event: Event)
    ensures
        Poller::initial(update_rate).after(events).next(event).1 matches Action::Sleep { millis }
            ==> millis == update_rate,
        Poller::initial(update_rate).after(events).next(event).1 is WriteRow ==> Poller::initial(
            update_rate,
        ).millis_slept(events) == Poller::initial(update_rate).rows_asked(events) * update_rate,
{
    lemma_in_step(update_rate, events);
}

/// A row is the projection of the snapshot that was just read: nothing is
/// kept from one read to the next.
pub proof fn row_is_of_latest_snapshot(poller: Poller, event: Event)
    ensures
        poller.next(event).1 matches Action::WriteRow { row, .. } ==> event matches Event::Snapshot(
            snapshot,
        ) && row == projection(snapshot),
{
}

/// A failure is final. Once the poller has asked to abort, it asks for the
/// same abort whatever is reported to it, and so for nothing else.
pub proof fn failure_is_final(poller: Poller, failure: Failure, events: Seq<Event>)
    requires
        poller.phase == Phase::Stopped(failure),
    ensures
        poller.after(events) == poller,
        poller.rows_asked(events) == 0,
        events.len() > 0 ==> poller.last_action(events) == Action::Abort(failure),
    decreases events.len(),
{
    if events.len() > 0 {
        failure_is_final(poller, failure, events.drop_last());
    }
}

/// An action that does not succeed stops the poller, but for a sleep, which
/// cannot fail; the failure tells which action it was.
pub proof fn failed_action_stops(poller: Poller)
    ensures
        poller.phase == Phase::Attaching ==> poller.next(Event::Failed) == poller.fail(
            Failure::Attach,
        ),
        poller.phase == Phase::Reading ==> poller.next(Event::Failed) == poller.fail(Failure::Read),
        poller.phase == Phase::Opening || poller.phase == Phase::Writing || poller.phase
            == Phase::Flushing ==> poller.next(Event::Failed) == poller.fail(Failure::Sink),
{
}

/// Where the attach fails, nothing is ever written: the poller is stopped,
/// every action of the run is the abort, and no row and no header is asked
/// for.
pub proof fn nothing_written_unless_attached(update_rate: u32, events: Seq<Event>)
    requires
        events.len() > 0,
        !(events[0] is Done),
    ensures
        Poller::initial(update_rate).after(events).phase == Phase::Stopped(Failure::Attach),
        Poller::initial(update_rate).last_action(events) == Action::Abort(Failure::Attach),
        Poller::initial(update_rate).rows_asked(events) == 0,
        Poller::initial(update_rate).headers_asked(events) == 0,
    decreases events.len(),
{
    let shorter = events.drop_last();
    if shorter.len() > 0 {
        assert(shorter[0] == events[0]);
        nothing_written_unless_attached(update_rate, shorter);
    } else {
        assert(Poller::initial(update_rate).rows_asked(shorter) == 0);
    }
    header_asked_once(update_rate, events);
}

} // verus!
