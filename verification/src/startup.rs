use crate::error::WaymoError;
use crate::event_loop::WaymoEventLoop;
use crate::params::{EloopParams, EloopParamsView};
use crate::startup_laws::{
    first_created, lemma_creation_outcome, occurrences, status_reported, StartupActionKind,
};
use vstd::prelude::*;

verus! {

/// What the driver reports back while a worker is brought up.
#[derive(Debug, Clone, Copy, PartialEq, Eq, Structural)]
pub enum StartupEvent {
    /// The worker was asked for; `handle` is the address that came back, zero
    /// where none did.
    Created { handle: usize },
    /// The worker was asked whether it is ready.
    StatusReported { ready: bool },
    /// The worker was destroyed.
    Destroyed,
}

/// What the driver is to do next while a worker is brought up.
#[derive(Debug, Clone, Copy, PartialEq, Eq, Structural)]
pub enum StartupAction {
    /// Ask for a worker, with the configuration of this startup or, where it
    /// has none, with the worker's own defaults.
    Create,
    /// Ask the worker at this address for its status.
    QueryStatus { handle: usize },
    /// Destroy the worker at this address.
    Destroy { handle: usize },
    /// Nothing is left to do: take the result.
    Finish,
}

/// Where the creation of a worker stands.
#[derive(Debug, Clone, Copy, PartialEq, Eq, Structural)]
pub enum StartupPhase {
    /// Nothing has been asked for yet.
    Uninitialized,
    /// A worker was allocated; whether it is ready is not known yet.
    Probing { handle: usize },
    /// The worker was allocated but is not ready, and is to be destroyed.
    Releasing { handle: usize },
    /// The worker was allocated and is ready.
    Ready { handle: usize },
    /// The worker was allocated, found not ready, and destroyed.
    Failed,
    /// No worker was allocated.
    AllocationFailed,
}

/// The action that a phase is waiting on.
pub open spec fn pending_action(phase: StartupPhase) -> StartupAction {
    match phase {
        StartupPhase::Uninitialized => StartupAction::Create,
        StartupPhase::Probing { handle } => StartupAction::QueryStatus { handle },
        StartupPhase::Releasing { handle } => StartupAction::Destroy { handle },
        StartupPhase::Ready { .. } => StartupAction::Finish,
        StartupPhase::Failed => StartupAction::Finish,
        StartupPhase::AllocationFailed => StartupAction::Finish,
    }
}

/// Whether an event answers the action that a phase is waiting on.
pub open spec fn accepts(phase: StartupPhase, event: StartupEvent) -> bool {
    match phase {
        StartupPhase::Uninitialized => event is Created,
        StartupPhase::Probing { .. } => event is StatusReported,
        StartupPhase::Releasing { .. } => event is Destroyed,
        _ => false,
    }
}

/// The phase that follows a phase on an event. An event that does not answer
/// the pending action changes nothing.
pub open spec fn next_phase(phase: StartupPhase, event: StartupEvent) -> StartupPhase {
    match phase {
        StartupPhase::Uninitialized => match event {
            StartupEvent::Created { handle } => if handle == 0 {
                StartupPhase::AllocationFailed
            } else {
                StartupPhase::Probing { handle }
            },
            _ => phase,
        },
        StartupPhase::Probing { handle } => match event {
            StartupEvent::StatusReported { ready } => if ready {
                StartupPhase::Ready { handle }
            } else {
                StartupPhase::Releasing { handle }
            },
            _ => phase,
        },
        StartupPhase::Releasing { .. } => match event {
            StartupEvent::Destroyed => StartupPhase::Failed,
            _ => phase,
        },
        _ => phase,
    }
}

/// The phase reached from `start` once the driver has reported `events`, one
/// after the other.
pub open spec fn run(start: StartupPhase, events: Seq<StartupEvent>) -> StartupPhase
    decreases events.len(),
{
    if events.len() == 0 {
        start
    } else {
        next_phase(run(start, events.drop_last()), events.last())
    }
}

/// The actions that the driver was given on the way: the one pending at
/// `start`, then one for each event that was accepted.
pub open spec fn actions(start: StartupPhase, events: Seq<StartupEvent>) -> Seq<StartupAction>
    decreases events.len(),
{
    if events.len() == 0 {
        seq![pending_action(start)]
    } else {
        let before = run(start, events.drop_last());
        let earlier = actions(start, events.drop_last());
        if accepts(before, events.last()) {
            earlier.push(pending_action(next_phase(before, events.last())))
        } else {
            earlier
        }
    }
}

/// Whether the creation is over, one way or the other.
pub open spec fn is_final(phase: StartupPhase) -> bool {
    phase is Ready || phase is Failed || phase is AllocationFailed
}

/// The phases that a creation can be in: a worker that is spoken of has an
/// address, which is not null.
pub open spec fn phase_valid(phase: StartupPhase) -> bool {
    match phase {
        StartupPhase::Probing { handle } => handle != 0,
        StartupPhase::Releasing { handle } => handle != 0,
        StartupPhase::Ready { handle } => handle != 0,
        _ => true,
    }
}

/// What a startup is: the configuration to create the worker with, if any,
/// everything that has been reported to it, and the phase that this has led
/// to from `Uninitialized`.
pub struct StartupView {
    pub params: Option<EloopParamsView>,
    pub reported: Seq<StartupEvent>,
    pub phase: StartupPhase,
}

/// The creation of one worker, from the first request to a worker that is
/// ready or to the report of why there is none. The configuration is only
/// borrowed for the time of the creation; it stays with the caller.
pub struct Startup<'a> {
    params: Option<&'a EloopParams>,
    progress: Progress,
}

/// How far a creation has come: the reports it has had and the phase they
/// have led to. The two change together.
struct Progress {
    reported: Ghost<Seq<StartupEvent>>,
    phase: StartupPhase,
}

impl<'a> View for Startup<'a> {
    type V = StartupView;

    closed spec fn view(&self) -> StartupView {
        StartupView {
            params: match self.params {
                Some(params) => Some(params@),
                None => None,
            },
            reported: self.progress.reported@,
            phase: self.progress.phase,
        }
    }
}

impl<'a> Startup<'a> {
    #[verifier::type_invariant]
    spec fn well_formed(&self) -> bool {
        &&& phase_valid(self.progress.phase)
        &&& self.progress.phase == run(StartupPhase::Uninitialized, self.progress.reported@)
    }

    /// A creation that has not asked for anything yet.
    pub(crate) fn begin(params: Option<&'a EloopParams>) -> (startup: Startup<'a>)
        ensures
            startup@.phase == StartupPhase::Uninitialized,
            startup@.reported == Seq::<StartupEvent>::empty(),
            startup@.params == (match params {
                Some(params) => Some(params@),
                None => None,
            }),
    {
        Startup {
            params,
            progress: Progress {
                reported: Ghost(Seq::empty()),
                phase: StartupPhase::Uninitialized,
            },
        }
    }

    /// The configuration to create the worker with. `None` leaves the
    /// settings to the worker.
    pub fn params(&self) -> (params: Option<&'a EloopParams>)
        ensures
            self@.params == (match params {
                Some(params) => Some(params@),
                None => None,
            }),
    {
        self.params
    }

    /// Where the creation stands: where the reports have led it.
    pub fn phase(&self) -> (phase: StartupPhase)
        ensures
            phase == self@.phase,
            phase == run(StartupPhase::Uninitialized, self@.reported),
            phase_valid(phase),
    {
        proof {
            use_type_invariant(self);
        }
        self.progress.phase
    }

    /// The action that the creation is waiting on.
    pub fn pending(&self) -> (action: StartupAction)
        ensures
            action == pending_action(self@.phase),
    {
        match self.progress.phase {
            StartupPhase::Uninitialized => StartupAction::Create,
            StartupPhase::Probing { handle } => StartupAction::QueryStatus { handle },
            StartupPhase::Releasing { handle } => StartupAction::Destroy { handle },
            StartupPhase::Ready { .. } => StartupAction::Finish,
            StartupPhase::Failed => StartupAction::Finish,
            StartupPhase::AllocationFailed => StartupAction::Finish,
        }
    }

    /// Takes in what the driver reports and answers with what to do next.
    ///
    /// A null address ends the creation: nothing was allocated and nothing is
    /// to be released. A worker that was allocated is asked for its status;
    /// one that is not ready is destroyed before the failure is reported. An
    /// event that does not answer the pending action is refused: the creation
    /// stays as it is and `None` is returned.
    pub fn step(&mut self, event: StartupEvent) -> (action: Option<StartupAction>)
        ensures
            final(self)@ == (StartupView {
                reported: old(self)@.reported.push(event),
                phase: next_phase(old(self)@.phase, event),
                ..old(self)@
            }),
            action == (if accepts(old(self)@.phase, event) {
                Some(pending_action(final(self)@.phase))
            } else {
                None
            }),
    {
        proof {
            use_type_invariant(&*self);
            assert(self.progress.reported@.push(event).drop_last() =~= self.progress.reported@);
        }
        let ghost reported = self.progress.reported@.push(event);
        let next = match self.progress.phase {
            StartupPhase::Uninitialized => match event {
                StartupEvent::Created { handle } => if handle == 0 {
                    Some(StartupPhase::AllocationFailed)
                } else {
                    Some(StartupPhase::Probing { handle })
                },
                _ => None,
            },
            StartupPhase::Probing { handle } => match event {
                StartupEvent::StatusReported { ready } => if ready {
                    Some(StartupPhase::Ready { handle })
                } else {
                    Some(StartupPhase::Releasing { handle })
                },
                _ => None,
            },
            StartupPhase::Releasing { .. } => match event {
                StartupEvent::Destroyed => Some(StartupPhase::Failed),
                _ => None,
            },
            _ => None,
        };
        match next {
            Some(phase) => {
                self.progress = Progress { reported: Ghost(reported), phase };
                Some(self.pending())
            },
            None => {
                self.progress = Progress { reported: Ghost(reported), phase: self.progress.phase };
                None
            },
        }
    }

    /// Whether the creation is over.
    pub fn is_finished(&self) -> (finished: bool)
        ensures
            finished == is_final(self@.phase),
    {
        match self.progress.phase {
            StartupPhase::Ready { .. } => true,
            StartupPhase::Failed => true,
            StartupPhase::AllocationFailed => true,
            _ => false,
        }
    }

    /// Ends the creation and hands out what came of it.
    ///
    /// A worker is handed out only where one was allocated and found ready;
    /// it is the one that was allocated, and it has not been destroyed. Where
    /// none was allocated the result is `AllocationFailure`, and nothing was
    /// asked of a worker or destroyed. Where one was allocated and found not
    /// ready the result is `InitializationFailure`, and the driver has been
    /// told to destroy that worker, once. While the creation is under way
    /// there is no result yet, and `None` is returned.
    pub fn finish(self) -> (result: Option<Result<WaymoEventLoop, WaymoError>>)
        ensures
            match self@.phase {
                StartupPhase::Ready { handle } => result matches Some(Ok(worker))
                    && worker.address() == handle,
                StartupPhase::Failed => result matches Some(Err(e)) && e
                    == WaymoError::InitializationFailure,
                StartupPhase::AllocationFailed => result matches Some(Err(e)) && e
                    == WaymoError::AllocationFailure,
                _ => result is None,
            },
            ({
                let trace = actions(StartupPhase::Uninitialized, self@.reported);
                let queried = occurrences(trace, StartupActionKind::QueryStatus);
                let destroyed = occurrences(trace, StartupActionKind::Destroy);
                match result {
                    Some(Ok(worker)) => first_created(self@.reported) == Some(worker.address())
                        && status_reported(self@.reported, true) && queried == 1 && destroyed
                        == 0,
                    Some(Err(e)) => if e == WaymoError::InitializationFailure {
                        status_reported(self@.reported, false) && queried == 1 && destroyed == 1
                    } else {
                        first_created(self@.reported) == Some(0usize) && queried == 0
                            && destroyed == 0
                    },
                    None => occurrences(trace, StartupActionKind::Finish) == 0,
                }
            }),
    {
        proof {
            use_type_invariant(&self);
            lemma_creation_outcome(self.progress.reported@);
        }
        match self.progress.phase {
            StartupPhase::Ready { handle } => Some(Ok(WaymoEventLoop::adopt(handle))),
            StartupPhase::Failed => Some(Err(WaymoError::InitializationFailure)),
            StartupPhase::AllocationFailed => Some(Err(WaymoError::AllocationFailure)),
            _ => None,
        }
    }
}

} // verus!
