use crate::command::{Command, CommandView};
use crate::dispatch_laws::{
    lemma_fire_and_forget, lemma_synchronous_outcome, read_ended, signaled_after_submission,
};
use crate::error::WaymoError;
use crate::event_loop::WaymoEventLoop;
use vstd::prelude::*;

verus! {

/// The completion target that asks the worker for no notification at all.
pub const NO_NOTIFICATION: i32 = -1;

/// The count that a fresh descriptor starts from. At zero a read blocks until
/// the worker writes.
pub const NOTIFICATION_START: u32 = 0;

/// The size in bytes of the one value that the worker writes to the
/// descriptor and the caller reads from it.
pub const NOTIFICATION_SIZE: usize = 8;

/// What a read returns when it failed.
pub const READ_FAILED: isize = -1;

/// How a blocking read on the notification descriptor ended.
#[derive(Debug, Clone, Copy, PartialEq, Eq, Structural)]
pub enum ReadOutcome {
    /// The worker's one value was read: the command has been processed.
    Signaled,
    /// A signal cut the read short before anything arrived.
    Interrupted,
    /// The read failed for any other reason.
    Failed,
}

/// Tells how a read ended from what the system call gave back: `returned` is
/// its result, `errno` the error number it left behind, and `interrupted` the
/// error number by which the system says that a signal cut a call short.
///
/// A result other than the failure value means that the worker's value was
/// read. A failure with the error number for an interruption is an
/// interruption; any other failure is final.
pub fn read_outcome(returned: isize, errno: i32, interrupted: i32) -> (outcome: ReadOutcome)
    ensures
        outcome == if returned != READ_FAILED {
            ReadOutcome::Signaled
        } else if errno == interrupted {
            ReadOutcome::Interrupted
        } else {
            ReadOutcome::Failed
        },
{
    if returned != READ_FAILED {
        ReadOutcome::Signaled
    } else if errno == interrupted {
        ReadOutcome::Interrupted
    } else {
        ReadOutcome::Failed
    }
}

/// What the driver reports back after performing an action.
#[derive(Debug, Clone, Copy, PartialEq, Eq, Structural)]
pub enum Event {
    /// The descriptor was asked for; `fd` is what came back, `NO_NOTIFICATION`
    /// where none could be made.
    NotificationCreated { fd: i32 },
    /// The command was built and handed to the worker.
    Submitted,
    /// One blocking read on the descriptor returned.
    ReadReturned { outcome: ReadOutcome },
    /// The descriptor was closed.
    Closed,
}

/// What the driver is to do next.
#[derive(Debug, Clone, Copy, PartialEq, Eq, Structural)]
pub enum Action {
    /// Make a fresh descriptor, closed on process exit, counting from zero.
    CreateNotification,
    /// Build the command and hand it to the worker with this completion
    /// target.
    Submit { target: i32 },
    /// Block until one value can be read from the descriptor.
    AwaitNotification { fd: i32 },
    /// Close the descriptor.
    CloseNotification { fd: i32 },
    /// Nothing is left to do: return to the caller.
    Finish,
}

/// How a dispatch that ran to its end stands with the worker.
#[derive(Debug, Clone, Copy, PartialEq, Eq, Structural)]
pub enum Completion {
    /// The worker has signalled that it processed the command.
    Confirmed,
    /// The command was handed over, but the wait ended on a failed read.
    Unconfirmed,
    /// The command was handed over and no signal was asked for.
    NotRequested,
}

/// Where a dispatch stands.
#[derive(Debug, Clone, Copy)]
pub enum Phase {
    /// A synchronous dispatch that has no descriptor yet.
    Opening,
    /// The command is about to be handed over, with or without a descriptor
    /// to be notified on.
    Submitting { notify: Option<i32> },
    /// The command is with the worker and its signal is awaited.
    Waiting { fd: i32 },
    /// The wait is over and the descriptor is still open.
    Closing { fd: i32, completion: Completion },
    /// The dispatch is over.
    Done { result: Result<Completion, WaymoError> },
}

/// The completion target that goes to the worker: the descriptor itself, or
/// the value that stands for none.
pub open spec fn target_of(notify: Option<i32>) -> i32 {
    match notify {
        Some(fd) => fd,
        None => NO_NOTIFICATION,
    }
}

/// The action that a phase is waiting on.
pub open spec fn pending_action(phase: Phase) -> Action {
    match phase {
        Phase::Opening => Action::CreateNotification,
        Phase::Submitting { notify } => Action::Submit { target: target_of(notify) },
        Phase::Waiting { fd } => Action::AwaitNotification { fd },
        Phase::Closing { fd, .. } => Action::CloseNotification { fd },
        Phase::Done { .. } => Action::Finish,
    }
}

/// Whether an event answers the action that a phase is waiting on.
pub open spec fn accepts(phase: Phase, event: Event) -> bool {
    match phase {
        Phase::Opening => event is NotificationCreated,
        Phase::Submitting { .. } => event is Submitted,
        Phase::Waiting { .. } => event is ReadReturned,
        Phase::Closing { .. } => event is Closed,
        Phase::Done { .. } => false,
    }
}

/// The phase that follows a phase on an event. An event that does not answer
/// the pending action changes nothing.
pub open spec fn next_phase(phase: Phase, event: Event) -> Phase {
    match phase {
        Phase::Opening => match event {
            Event::NotificationCreated { fd } => if fd == NO_NOTIFICATION {
                Phase::Done { result: Err(WaymoError::NotificationUnavailable) }
            } else {
                Phase::Submitting { notify: Some(fd) }
            },
            _ => phase,
        },
        Phase::Submitting { notify } => match event {
            Event::Submitted => match notify {
                Some(fd) => Phase::Waiting { fd },
                None => Phase::Done { result: Ok(Completion::NotRequested) },
            },
            _ => phase,
        },
        Phase::Waiting { fd } => match event {
            Event::ReadReturned { outcome } => match outcome {
                ReadOutcome::Signaled => Phase::Closing { fd, completion: Completion::Confirmed },
                ReadOutcome::Interrupted => Phase::Waiting { fd },
                ReadOutcome::Failed => Phase::Closing { fd, completion: Completion::Unconfirmed },
            },
            _ => phase,
        },
        Phase::Closing { fd, completion } => match event {
            Event::Closed => Phase::Done { result: Ok(completion) },
            _ => phase,
        },
        Phase::Done { .. } => phase,
    }
}

/// The phase reached from `start` once the driver has reported `events`, one
/// after the other.
pub open spec fn run(start: Phase, events: Seq<Event>) -> Phase
    decreases events.len(),
{
    if events.len() == 0 {
        start
    } else {
        next_phase(run(start, events.drop_last()), events.last())
    }
}

/// The actions that the driver was given on the way: the one pending at
/// `start`, then one for each event that was accepted.
pub open spec fn actions(start: Phase, events: Seq<Event>) -> Seq<Action>
    decreases events.len(),
{
    if events.len() == 0 {
        seq![pending_action(start)]
    } else {
        let before = run(start, events.drop_last());
        let earlier = actions(start, events.drop_last());
        if accepts(before, events.last()) {
            earlier.push(pending_action(next_phase(before, events.last())))
        } else {
            earlier
        }
    }
}

/// The phases that a dispatch can be in: a descriptor in use is never the
/// value that stands for none, a wait ends confirmed or unconfirmed, and the
/// only failure is that of making the descriptor.
pub open spec fn phase_valid(phase: Phase) -> bool {
    match phase {
        Phase::Opening => true,
        Phase::Submitting { notify } => notify matches Some(fd) ==> fd != NO_NOTIFICATION,
        Phase::Waiting { fd } => fd != NO_NOTIFICATION,
        Phase::Closing { fd, completion } => fd != NO_NOTIFICATION && completion
            != Completion::NotRequested,
        Phase::Done { result } => result matches Err(e) ==> e
            == WaymoError::NotificationUnavailable,
    }
}

/// What a dispatch is: the worker it goes to, the command, the phase it
/// started in, everything that has been reported to it since, and the phase
/// that this has led to.
pub struct DispatchView {
    pub handle: usize,
    pub command: CommandView,
    pub start: Phase,
    pub reported: Seq<Event>,
    pub phase: Phase,
}

/// The two phases that a dispatch can start in: asking for a descriptor, for a
/// command whose completion is awaited, or handing the command over without
/// one.
pub open spec fn is_start(phase: Phase) -> bool {
    phase == Phase::Opening || phase == (Phase::Submitting { notify: None })
}

/// A dispatch to which nothing has been reported yet.
pub open spec fn fresh(handle: usize, command: CommandView, start: Phase) -> DispatchView {
    DispatchView { handle, command, start, reported: Seq::empty(), phase: start }
}

/// One command on its way to one worker. The dispatch borrows the worker, so
/// the worker cannot be destroyed while the command is in flight.
pub struct Dispatch<'a> {
    worker: &'a WaymoEventLoop,
    command: Command,
    start: Ghost<Phase>,
    progress: Progress,
}

/// How far a dispatch has come: the reports it has had and the phase they
/// have led to. The two change together.
struct Progress {
    reported: Ghost<Seq<Event>>,
    phase: Phase,
}

impl<'a> View for Dispatch<'a> {
    type V = DispatchView;

    closed spec fn view(&self) -> DispatchView {
        DispatchView {
            handle: self.worker.address(),
            command: self.command@,
            start: self.start@,
            reported: self.progress.reported@,
            phase: self.progress.phase,
        }
    }
}

impl<'a> Dispatch<'a> {
    #[verifier::type_invariant]
    spec fn well_formed(&self) -> bool {
        &&& phase_valid(self.progress.phase)
        &&& self.progress.phase == run(self.start@, self.progress.reported@)
        &&& is_start(self.start@)
    }

    /// A dispatch that waits for the worker's signal. It starts by asking for
    /// a descriptor.
    pub(crate) fn synchronous(worker: &'a WaymoEventLoop, command: Command) -> (dispatch: Self)
        ensures
            dispatch@ == fresh(worker.address(), command@, Phase::Opening),
    {
        Dispatch {
            worker,
            command,
            start: Ghost(Phase::Opening),
            progress: Progress { reported: Ghost(Seq::empty()), phase: Phase::Opening },
        }
    }

    /// A dispatch that hands the command over and asks for no signal.
    pub(crate) fn fire_and_forget(worker: &'a WaymoEventLoop, command: Command) -> (dispatch:
        Self)
        ensures
            dispatch@ == fresh(worker.address(), command@, Phase::Submitting { notify: None }),
    {
        Dispatch {
            worker,
            command,
            start: Ghost(Phase::Submitting { notify: None }),
            progress: Progress {
                reported: Ghost(Seq::empty()),
                phase: Phase::Submitting { notify: None },
            },
        }
    }

    /// The address of the worker that the command goes to.
    pub fn handle(&self) -> (handle: usize)
        ensures
            handle == self@.handle,
            handle != 0,
    {
        self.worker.handle()
    }

    /// The command to build and submit.
    pub fn command(&self) -> (command: &Command)
        ensures
            command@ == self@.command,
    {
        &self.command
    }

    /// Where the dispatch stands: where its start and the reports since
    /// have led it.
    pub fn phase(&self) -> (phase: Phase)
        ensures
            phase == self@.phase,
            phase == run(self@.start, self@.reported),
            phase_valid(phase),
            is_start(self@.start),
    {
        proof {
            use_type_invariant(self);
        }
        self.progress.phase
    }

    /// The action that the dispatch is waiting on.
    pub fn pending(&self) -> (action: Action)
        ensures
            action == pending_action(self@.phase),
    {
        match self.progress.phase {
            Phase::Opening => Action::CreateNotification,
            Phase::Submitting { notify } => match notify {
                Some(fd) => Action::Submit { target: fd },
                None => Action::Submit { target: NO_NOTIFICATION },
            },
            Phase::Waiting { fd } => Action::AwaitNotification { fd },
            Phase::Closing { fd, .. } => Action::CloseNotification { fd },
            Phase::Done { .. } => Action::Finish,
        }
    }

    /// Takes in what the driver reports and answers with what to do next.
    ///
    /// Where no descriptor could be made the command is not handed over, and
    /// the dispatch ends with `NotificationUnavailable`. Otherwise the command
    /// is submitted with the descriptor as its target and the descriptor is
    /// read from. An interrupted read is started again; a read that got the
    /// worker's value, or failed for another reason, ends the wait, and the
    /// descriptor is closed before the dispatch is over. A command that asks
    /// for no signal is over as soon as it is handed over.
    ///
    /// An event that answers the pending action moves the dispatch on, and the
    /// action of the new phase is returned. Any other event is refused: the
    /// phase stays as it is and `None` is returned.
    pub fn step(&mut self, event: Event) -> (action: Option<Action>)
        ensures
            final(self)@ == (DispatchView {
                reported: old(self)@.reported.push(event),
                phase: next_phase(old(self)@.phase, event),
                ..old(self)@
            }),
            action == (if accepts(old(self)@.phase, event) {
                Some(pending_action(final(self)@.phase))
            } else {
                None
            }),
    {
        proof {
            use_type_invariant(&*self);
            assert(self.progress.reported@.push(event).drop_last() =~= self.progress.reported@);
        }
        let ghost reported = self.progress.reported@.push(event);
        let next = match self.progress.phase {
            Phase::Opening => match event {
                Event::NotificationCreated { fd } => if fd == NO_NOTIFICATION {
                    Some(Phase::Done { result: Err(WaymoError::NotificationUnavailable) })
                } else {
                    Some(Phase::Submitting { notify: Some(fd) })
                },
                _ => None,
            },
            Phase::Submitting { notify } => match event {
                Event::Submitted => match notify {
                    Some(fd) => Some(Phase::Waiting { fd }),
                    None => Some(Phase::Done { result: Ok(Completion::NotRequested) }),
                },
                _ => None,
            },
            Phase::Waiting { fd } => match event {
                Event::ReadReturned { outcome } => match outcome {
                    ReadOutcome::Signaled => Some(
                        Phase::Closing { fd, completion: Completion::Confirmed },
                    ),
                    ReadOutcome::Interrupted => Some(Phase::Waiting { fd }),
                    ReadOutcome::Failed => Some(
                        Phase::Closing { fd, completion: Completion::Unconfirmed },
                    ),
                },
                _ => None,
            },
            Phase::Closing { fd, completion } => match event {
                Event::Closed => Some(Phase::Done { result: Ok(completion) }),
                _ => None,
            },
            Phase::Done { .. } => None,
        };
        match next {
            Some(phase) => {
                self.progress = Progress { reported: Ghost(reported), phase };
                Some(self.pending())
            },
            None => {
                self.progress = Progress { reported: Ghost(reported), phase: self.progress.phase };
                None
            },
        }
    }

    /// Whether the dispatch is over.
    pub fn is_finished(&self) -> (finished: bool)
        ensures
            finished == (self@.phase is Done),
    {
        match self.progress.phase {
            Phase::Done { .. } => true,
            _ => false,
        }
    }

    /// How the dispatch ended, once it is over; `None` while it is under way.
    ///
    /// A dispatch that started by asking for a descriptor ends confirmed only
    /// if a read got the worker's signal after the command was handed over,
    /// unconfirmed only if a read failed, and in error only if no descriptor
    /// could be made. One that started without asking ends as soon as the
    /// command is handed over, with no signal requested.
    pub fn outcome(&self) -> (outcome: Option<Result<Completion, WaymoError>>)
        ensures
            outcome == (match self@.phase {
                Phase::Done { result } => Some(result),
                _ => None,
            }),
            self@.start == Phase::Opening ==> match outcome {
                Some(Ok(Completion::Confirmed)) => signaled_after_submission(self@.reported),
                Some(Ok(Completion::Unconfirmed)) => read_ended(
                    self@.reported,
                    ReadOutcome::Failed,
                ),
                Some(Ok(Completion::NotRequested)) => false,
                Some(Err(e)) => e == WaymoError::NotificationUnavailable,
                None => true,
            },
            self@.start != Phase::Opening ==> match outcome {
                Some(result) => result == Ok::<Completion, WaymoError>(Completion::NotRequested)
                    && self@.reported.contains(Event::Submitted),
                None => !self@.reported.contains(Event::Submitted),
            },
    {
        proof {
            use_type_invariant(self);
            lemma_synchronous_outcome(self.progress.reported@);
            lemma_fire_and_forget(self.progress.reported@);
        }
        match self.progress.phase {
            Phase::Done { result } => Some(result),
            _ => None,
        }
    }
}

} // verus!
