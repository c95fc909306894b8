//! The rules of the polling loop.
//!
//! The loop itself runs outside this library: it attaches to the shared
//! region, opens the sink, and then reads, writes, flushes and sleeps for
//! ever. Here stands what it decides. A [`Poller`] names the next [`Action`];
//! the caller performs it and reports the outcome as an [`Event`]; the poller
//! answers with the action after that. The poller does not know which sink
//! was chosen, so what it asks to be written is the same for every sink.

use vstd::prelude::*;
use crate::row::{projection, MumbleLinkCsv};
use crate::snapshot::Snapshot;

verus! {

/// Why the loop stopped. Every failure is final.
#[derive(Clone, Copy, Debug, PartialEq, Eq, Structural)]
pub enum Failure {
    /// The shared region was not found.
    Attach,
    /// No snapshot could be read.
    Read,
    /// The sink could not be opened, written or flushed.
    Sink,
}

/// What the caller is asked to do next.
#[derive(Clone, Copy, Debug, PartialEq, Eq, Structural)]
pub enum Action {
    /// Attach to the shared region.
    Attach,
    /// Open the chosen sink; a file is created, or emptied if it exists.
    OpenSink,
    /// Read the current snapshot.
    Read,
    /// Write `row` as one record, after the header record if `with_header`.
    WriteRow { with_header: bool, row: MumbleLinkCsv },
    /// Flush the sink.
    Flush,
    /// Suspend for `millis` milliseconds.
    Sleep { millis: u64 },
    /// Terminate at once, with a status that tells of the failure.
    Abort(Failure),
}

/// The outcome of the action that was asked for last.
#[derive(Clone, Copy, Debug)]
pub enum Event {
    /// The action succeeded, and it was not a read.
    Done,
    /// The read succeeded and gave this snapshot.
    Snapshot(Snapshot),
    /// The action failed.
    Failed,
}

/// The action whose outcome the poller waits for.
#[derive(Clone, Copy, Debug, PartialEq, Eq, Structural)]
pub enum Phase {
    Attaching,
    Opening,
    Reading,
    Writing,
    Flushing,
    Sleeping,
    Stopped(Failure),
}

/// The state of the loop between two actions.
#[derive(Clone, Copy, Debug, PartialEq, Eq, Structural)]
pub struct Poller {
    /// Milliseconds to sleep after each row.
    pub update_rate: u32,
    /// The pending action.
    pub phase: Phase,
    /// Whether a row, and with it the header, has been asked to be written.
    pub header_written: bool,
}

impl Poller {
    /// The poller that waits for the attach to end.
    pub open spec fn initial(update_rate: u32) -> Poller {
        Poller { update_rate, phase: Phase::Attaching, header_written: false }
    }

    /// The poller in another phase.
    pub open spec fn enter(self, phase: Phase) -> Poller {
        Poller { phase, ..self }
    }

    /// The poller stopped by a failure, and the order to terminate.
    pub open spec fn fail(self, failure: Failure) -> (Poller, Action) {
        (self.enter(Phase::Stopped(failure)), Action::Abort(failure))
    }

    /// The state and the action that follow an event.
    ///
    /// An event that does not report the pending action's success counts as
    /// its failure, except after a sleep, which cannot fail. A stopped poller
    /// stays stopped.
    pub open spec fn next(self, event: Event) -> (Poller, Action) {
        match self.phase {
            Phase::Attaching => match event {
                Event::Done => (self.enter(Phase::Opening), Action::OpenSink),
                _ => self.fail(Failure::Attach),
            },
            Phase::Opening => match event {
                Event::Done => (self.enter(Phase::Reading), Action::Read),
                _ => self.fail(Failure::Sink),
            },
            Phase::Reading => match event {
                Event::Snapshot(snapshot) => (
                    Poller {
                        update_rate: self.update_rate,
                        phase: Phase::Writing,
                        header_written: true,
                    },
                    Action::WriteRow {
                        with_header: !self.header_written,
                        row: projection(snapshot),
                    },
                ),
                _ => self.fail(Failure::Read),
            },
            Phase::Writing => match event {
                Event::Done => (self.enter(Phase::Flushing), Action::Flush),
                _ => self.fail(Failure::Sink),
            },
            Phase::Flushing => match event {
                Event::Done => (
                    self.enter(Phase::Sleeping),
                    Action::Sleep { millis: self.update_rate as u64 },
                ),
                _ => self.fail(Failure::Sink),
            },
            Phase::Sleeping => (self.enter(Phase::Reading), Action::Read),
            Phase::Stopped(failure) => (self, Action::Abort(failure)),
        }
    }

    /// Starts the loop: the first action is to attach.
    pub fn start(update_rate: u32) -> (started: (Poller, Action))
        ensures
            started == (Poller::initial(update_rate), Action::Attach),
    {
        (Poller { update_rate, phase: Phase::Attaching, header_written: false }, Action::Attach)
    }

    fn enter_phase(self, phase: Phase) -> (entered: Poller)
        ensures
            entered == self.enter(phase),
    {
        Poller { update_rate: self.update_rate, phase, header_written: self.header_written }
    }

    fn stop(self, failure: Failure) -> (stopped: (Poller, Action))
        ensures
            stopped == self.fail(failure),
    {
        (self.enter_phase(Phase::Stopped(failure)), Action::Abort(failure))
    }

    /// Takes the outcome of the pending action and names the next one.
    pub fn step(self, event: Event) -> (stepped: (Poller, Action))
        ensures
            stepped == self.next(event),
    {
        match self.phase {
            Phase::Attaching => match event {
                Event::Done => (self.enter_phase(Phase::Opening), Action::OpenSink),
                _ => self.stop(Failure::Attach),
            },
            Phase::Opening => match event {
                Event::Done => (self.enter_phase(Phase::Reading), Action::Read),
                _ => self.stop(Failure::Sink),
            },
            Phase::Reading => match event {
                Event::Snapshot(snapshot) => {
                    let row = MumbleLinkCsv::from_mumblelink_data(&snapshot);
                    let with_header = !self.header_written;
                    (
                        Poller {
                            update_rate: self.update_rate,
                            phase: Phase::Writing,
                            header_written: true,
                        },
                        Action::WriteRow { with_header, row },
                    )
                },
                _ => self.stop(Failure::Read),
            },
            Phase::Writing => match event {
                Event::Done => (self.enter_phase(Phase::Flushing), Action::Flush),
                _ => self.stop(Failure::Sink),
            },
            Phase::Flushing => match event {
                Event::Done => (
                    self.enter_phase(Phase::Sleeping),
                    Action::Sleep { millis: self.update_rate as u64 },
                ),
                _ => self.stop(Failure::Sink),
            },
            Phase::Sleeping => (self.enter_phase(Phase::Reading), Action::Read),
            Phase::Stopped(failure) => (self, Action::Abort(failure)),
        }
    }
}

} // verus!
