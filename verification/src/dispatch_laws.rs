//! What holds of a dispatch over every sequence of events that a driver can
//! report, stated over the phases and actions alone.

use crate::dispatch::{
    accepts, actions, next_phase, pending_action, run, Action, Completion, Event, Phase,
    ReadOutcome, NO_NOTIFICATION,
};
use crate::error::WaymoError;
use vstd::prelude::*;

verus! {

/// The kinds of action, whatever descriptor they name.
pub enum ActionKind {
    Create,
    Submit,
    Await,
    Close,
    Finish,
}

/// The kind of an action.
pub open spec fn kind(action: Action) -> ActionKind {
    match action {
        Action::CreateNotification => ActionKind::Create,
        Action::Submit { .. } => ActionKind::Submit,
        Action::AwaitNotification { .. } => ActionKind::Await,
        Action::CloseNotification { .. } => ActionKind::Close,
        Action::Finish => ActionKind::Finish,
    }
}

/// The place of an action in the order of one call: create, submit, await,
/// close, finish.
pub open spec fn rank(action: Action) -> nat {
    match action {
        Action::CreateNotification => 0,
        Action::Submit { .. } => 1,
        Action::AwaitNotification { .. } => 2,
        Action::CloseNotification { .. } => 3,
        Action::Finish => 4,
    }
}

/// How many actions of a trace are of the given kind.
pub open spec fn occurrences(trace: Seq<Action>, of_kind: ActionKind) -> nat
    decreases trace.len(),
{
    if trace.len() == 0 {
        0
    } else {
        occurrences(trace.drop_last(), of_kind) + if kind(trace.last()) == of_kind {
            1nat
        } else {
            0nat
        }
    }
}

/// Whether no action of a trace comes before one of lower rank.
pub open spec fn in_order(trace: Seq<Action>) -> bool {
    forall|i: int, j: int| 0 <= i <= j < trace.len() ==> rank(trace[i]) <= rank(trace[j])
}

/// Whether an action, if it names a descriptor at all, names this one.
pub open spec fn names(action: Action, fd: i32) -> bool {
    match action {
        Action::Submit { target } => target == fd,
        Action::AwaitNotification { fd: awaited } => awaited == fd,
        Action::CloseNotification { fd: closed } => closed == fd,
        _ => true,
    }
}

/// What the first report of a created descriptor among the events held, if
/// there is such a report.
pub open spec fn first_created(events: Seq<Event>) -> Option<i32>
    decreases events.len(),
{
    if events.len() == 0 {
        None
    } else {
        match first_created(events.drop_last()) {
            Some(fd) => Some(fd),
            None => match events.last() {
                Event::NotificationCreated { fd } => Some(fd),
                _ => None,
            },
        }
    }
}

/// Whether some read among the events ended in the given way.
pub open spec fn read_ended(events: Seq<Event>, outcome: ReadOutcome) -> bool {
    events.contains(Event::ReadReturned { outcome })
}

/// Whether the events hold a read that got the worker's signal, reported
/// after the command was reported as handed over.
pub open spec fn signaled_after_submission(events: Seq<Event>) -> bool {
    exists|i: int, j: int|
        0 <= i < j < events.len() && #[trigger] events[i] == Event::Submitted
            && #[trigger] events[j] == (Event::ReadReturned { outcome: ReadOutcome::Signaled })
}

proof fn lemma_occurrences_push(trace: Seq<Action>, action: Action)
    ensures
        forall|of_kind: ActionKind| #[trigger]
            occurrences(trace.push(action), of_kind) == occurrences(trace, of_kind) + if kind(
                action,
            ) == of_kind {
                1nat
            } else {
                0nat
            },
{
    assert(trace.push(action).drop_last() =~= trace);
}

proof fn lemma_occurrences_single(action: Action)
    ensures
        forall|of_kind: ActionKind| #[trigger]
            occurrences(seq![action], of_kind) == if kind(action) == of_kind {
                1nat
            } else {
                0nat
            },
{
    assert(seq![action].drop_last() =~= Seq::<Action>::empty());
    assert forall|of_kind: ActionKind| #[trigger]
        occurrences(seq![action], of_kind) == if kind(action) == of_kind {
            1nat
        } else {
            0nat
        } by {
        assert(occurrences(Seq::<Action>::empty(), of_kind) == 0);
    }
}

proof fn lemma_contains_extends(events: Seq<Event>, event: Event)
    requires
        events.len() > 0,
    ensures
        events.drop_last().contains(event) ==> events.contains(event),
        events.last() == event ==> events.contains(event),
        events.contains(event) ==> events.drop_last().contains(event) || events.last() == event,
{
    let earlier = events.drop_last();
    if earlier.contains(event) {
        let i = choose|i: int| 0 <= i < earlier.len() && earlier[i] == event;
        assert(events[i] == event);
    }
    if events.last() == event {
        assert(events[events.len() - 1] == event);
    }
    if events.contains(event) {
        let i = choose|i: int| 0 <= i < events.len() && events[i] == event;
        if i < events.len() - 1 {
            assert(earlier[i] == event);
        }
    }
}

proof fn lemma_signal_extends(events: Seq<Event>)
    requires
        events.len() > 0,
    ensures
        signaled_after_submission(events.drop_last()) ==> signaled_after_submission(events),
        events.drop_last().contains(Event::Submitted) && events.last() == (Event::ReadReturned {
            outcome: ReadOutcome::Signaled,
        }) ==> signaled_after_submission(events),
{
    let earlier = events.drop_last();
    if signaled_after_submission(earlier) {
        let (i, j) = choose|i: int, j: int|
            0 <= i < j < earlier.len() && #[trigger] earlier[i] == Event::Submitted
                && #[trigger] earlier[j] == (Event::ReadReturned {
                outcome: ReadOutcome::Signaled,
            });
        assert(events[i] == Event::Submitted);
        assert(events[j] == (Event::ReadReturned { outcome: ReadOutcome::Signaled }));
    }
    if earlier.contains(Event::Submitted) && events.last() == (Event::ReadReturned {
        outcome: ReadOutcome::Signaled,
    }) {
        let i = choose|i: int| 0 <= i < earlier.len() && earlier[i] == Event::Submitted;
        let j = events.len() - 1;
        assert(events[i] == Event::Submitted);
        assert(events[j] == (Event::ReadReturned { outcome: ReadOutcome::Signaled }));
    }
}

/// What holds of a synchronous dispatch at every moment: of the events
/// reported so far, the phase they led to and the actions handed out.
spec fn synchronous_invariant(events: Seq<Event>, phase: Phase, trace: Seq<Action>) -> bool {
    let created = first_created(events);
    let submitted = occurrences(trace, ActionKind::Submit);
    let awaited = occurrences(trace, ActionKind::Await);
    let closed = occurrences(trace, ActionKind::Close);
    let finished = occurrences(trace, ActionKind::Finish);
    &&& trace.len() > 0
    &&& trace.last() == pending_action(phase)
    &&& in_order(trace)
    &&& occurrences(trace, ActionKind::Create) == 1
    &&& created matches Some(fd) ==> forall|i: int| 0 <= i < trace.len() ==> names(trace[i], fd)
    &&& match phase {
        Phase::Opening => created is None && trace == seq![Action::CreateNotification]
            && submitted == 0 && awaited == 0 && closed == 0 && finished == 0,
        Phase::Submitting { notify } => notify is Some && created == notify && notify != Some(
            NO_NOTIFICATION,
        ) && submitted == 1 && awaited == 0 && closed == 0 && finished == 0,
        Phase::Waiting { fd } => created == Some(fd) && fd != NO_NOTIFICATION && submitted == 1
            && awaited >= 1 && closed == 0 && finished == 0 && events.contains(Event::Submitted),
        Phase::Closing { fd, completion } => created == Some(fd) && fd != NO_NOTIFICATION
            && submitted == 1 && awaited >= 1 && closed == 1 && finished == 0 && match completion {
            Completion::Confirmed => signaled_after_submission(events),
            Completion::Unconfirmed => read_ended(events, ReadOutcome::Failed),
            Completion::NotRequested => false,
        },
        Phase::Done { result } => finished == 1 && match result {
            Ok(completion) => created is Some && created != Some(NO_NOTIFICATION) && submitted
                == 1 && awaited >= 1 && closed == 1 && match completion {
                Completion::Confirmed => signaled_after_submission(events),
                Completion::Unconfirmed => read_ended(events, ReadOutcome::Failed),
                Completion::NotRequested => false,
            },
            Err(e) => e == WaymoError::NotificationUnavailable && created == Some(NO_NOTIFICATION)
                && submitted == 0 && awaited == 0 && closed == 0,
        },
    }
}

proof fn lemma_synchronous_invariant(events: Seq<Event>)
    ensures
        synchronous_invariant(
            events,
            run(Phase::Opening, events),
            actions(Phase::Opening, events),
        ),
    decreases events.len(),
{
    let start = Phase::Opening;
    if events.len() == 0 {
        let trace = actions(start, events);
        assert(trace =~= seq![Action::CreateNotification]);
        lemma_occurrences_single(Action::CreateNotification);
    } else {
        let earlier = events.drop_last();
        let event = events.last();
        let before = run(start, earlier);
        let trace = actions(start, earlier);
        lemma_synchronous_invariant(earlier);
        lemma_contains_extends(events, Event::Submitted);
        lemma_contains_extends(events, Event::ReadReturned { outcome: ReadOutcome::Failed });
        lemma_signal_extends(events);
        if accepts(before, event) {
            let after = next_phase(before, event);
            let action = pending_action(after);
            let longer = trace.push(action);
            assert(actions(start, events) == longer);
            lemma_occurrences_push(trace, action);
            assert(rank(trace.last()) <= rank(action));
            assert(in_order(longer)) by {
                assert forall|i: int, j: int| 0 <= i <= j < longer.len() implies rank(longer[i])
                    <= rank(longer[j]) by {
                    if j < trace.len() {
                        assert(longer[i] == trace[i] && longer[j] == trace[j]);
                    } else if i < trace.len() {
                        assert(longer[i] == trace[i]);
                        assert(rank(trace[i]) <= rank(trace[trace.len() - 1]));
                    }
                }
            }
            if first_created(events) is Some {
                let fd = first_created(events)->0;
                assert forall|i: int| 0 <= i < longer.len() implies names(longer[i], fd) by {
                    if i < trace.len() {
                        assert(longer[i] == trace[i]);
                        if first_created(earlier) is None {
                            assert(before == Phase::Opening);
                            assert(trace[i] == Action::CreateNotification);
                        }
                    }
                }
            }
        } else {
            assert(actions(start, events) == trace);
            assert(run(start, events) == before);
            if first_created(earlier) is None {
                assert(before == Phase::Opening);
            }
        }
    }
}

/// Every synchronous call gets a descriptor of its own and lets go of it.
///
/// Whatever the driver reports, in whatever order: a descriptor is asked for
/// exactly once; the actions come in the order create, submit, await, close,
/// finish; every action that names a descriptor names the one that was
/// created, which is never the value that stands for none; the descriptor is
/// closed at most once; and when the call is over it has been closed exactly
/// once, unless none could be made.
pub proof fn lemma_one_descriptor_per_call(events: Seq<Event>)
    ensures
        ({
            let end = run(Phase::Opening, events);
            let trace = actions(Phase::Opening, events);
            &&& in_order(trace)
            &&& occurrences(trace, ActionKind::Create) == 1
            &&& occurrences(trace, ActionKind::Close) <= 1
            &&& forall|i: int|
                0 <= i < trace.len() && kind(#[trigger] trace[i]) != ActionKind::Create && kind(
                    trace[i],
                ) != ActionKind::Finish ==> first_created(events) is Some && names(
                    trace[i],
                    first_created(events)->0,
                ) && !names(trace[i], NO_NOTIFICATION)
            &&& end is Done ==> occurrences(trace, ActionKind::Close) == if first_created(events)
                == Some(NO_NOTIFICATION) {
                0nat
            } else {
                1nat
            }
        }),
{
    lemma_synchronous_invariant(events);
    let trace = actions(Phase::Opening, events);
    assert forall|i: int|
        0 <= i < trace.len() && kind(#[trigger] trace[i]) != ActionKind::Create && kind(trace[i])
            != ActionKind::Finish implies first_created(events) is Some && names(
        trace[i],
        first_created(events)->0,
    ) && !names(trace[i], NO_NOTIFICATION) by {
        lemma_named_descriptor(events, i);
    }
}

/// In a synchronous call, an action that names a descriptor is handed out
/// only once a descriptor other than the value for none has been reported.
proof fn lemma_named_descriptor(events: Seq<Event>, i: int)
    requires
        0 <= i < actions(Phase::Opening, events).len(),
        kind(actions(Phase::Opening, events)[i]) != ActionKind::Create,
        kind(actions(Phase::Opening, events)[i]) != ActionKind::Finish,
    ensures
        first_created(events) is Some,
        first_created(events) != Some(NO_NOTIFICATION),
        names(actions(Phase::Opening, events)[i], first_created(events)->0),
{
    lemma_synchronous_invariant(events);
    lemma_occurrences_positive(actions(Phase::Opening, events), i);
}

/// An action at some place of a trace is counted among those of its kind.
proof fn lemma_occurrences_positive(trace: Seq<Action>, i: int)
    requires
        0 <= i < trace.len(),
    ensures
        occurrences(trace, kind(trace[i])) >= 1,
    decreases trace.len(),
{
    if i < trace.len() - 1 {
        lemma_occurrences_positive(trace.drop_last(), i);
    }
}

/// A synchronous command is handed to the worker at most once, and exactly
/// once by the time the call is over, unless no descriptor could be made: then
/// it is not handed over at all.
pub proof fn lemma_submitted_once(events: Seq<Event>)
    ensures
        ({
            let end = run(Phase::Opening, events);
            let trace = actions(Phase::Opening, events);
            &&& occurrences(trace, ActionKind::Submit) <= 1
            &&& first_created(events) == Some(NO_NOTIFICATION) ==> occurrences(
                trace,
                ActionKind::Submit,
            ) == 0 && end == (Phase::Done { result: Err(WaymoError::NotificationUnavailable) })
            &&& end is Done && first_created(events) != Some(NO_NOTIFICATION) ==> occurrences(
                trace,
                ActionKind::Submit,
            ) == 1
        }),
{
    lemma_synchronous_invariant(events);
}

/// How a synchronous call can end, and what must have been reported for it.
///
/// A call that ends confirmed has seen a read get the worker's signal after
/// the command was handed over. One that ends unconfirmed has seen a read
/// fail. The only error is that no descriptor could be made. Until the call
/// is over the driver is not told to finish.
pub proof fn lemma_synchronous_outcome(events: Seq<Event>)
    ensures
        match run(Phase::Opening, events) {
            Phase::Done { result } => match result {
                Ok(Completion::Confirmed) => signaled_after_submission(events),
                Ok(Completion::Unconfirmed) => read_ended(events, ReadOutcome::Failed),
                Ok(Completion::NotRequested) => false,
                Err(e) => e == WaymoError::NotificationUnavailable && first_created(events)
                    == Some(NO_NOTIFICATION),
            },
            _ => occurrences(actions(Phase::Opening, events), ActionKind::Finish) == 0,
        },
{
    lemma_synchronous_invariant(events);
}

/// A synchronous call returns only after the worker's signal.
///
/// Leave aside the two ways in which a call ends without one: no descriptor
/// could be made, or the wait ended on a failed read. Then the driver is told
/// to finish only after a read got the worker's signal, reported after the
/// command was handed over; and the call ends confirmed.
pub proof fn lemma_returns_after_signal(events: Seq<Event>)
    requires
        run(Phase::Opening, events) != (Phase::Done {
            result: Err(WaymoError::NotificationUnavailable),
        }),
        run(Phase::Opening, events) != (Phase::Done { result: Ok(Completion::Unconfirmed) }),
    ensures
        occurrences(actions(Phase::Opening, events), ActionKind::Finish) > 0 ==> {
            &&& signaled_after_submission(events)
            &&& run(Phase::Opening, events) == (Phase::Done { result: Ok(Completion::Confirmed) })
        },
{
    lemma_synchronous_invariant(events);
}

/// A fire-and-forget command is handed over and nothing else.
///
/// Whatever the driver reports: the first action is to submit with the target
/// that stands for no notification; the report that the command was handed
/// over ends the call at once; and no descriptor is ever made, awaited or
/// closed.
pub proof fn lemma_fire_and_forget(events: Seq<Event>)
    ensures
        ({
            let start = Phase::Submitting { notify: None };
            let handed_over = events.contains(Event::Submitted);
            &&& run(start, events) == if handed_over {
                Phase::Done { result: Ok(Completion::NotRequested) }
            } else {
                start
            }
            &&& actions(start, events) == if handed_over {
                seq![Action::Submit { target: NO_NOTIFICATION }, Action::Finish]
            } else {
                seq![Action::Submit { target: NO_NOTIFICATION }]
            }
        }),
    decreases events.len(),
{
    if events.len() > 0 {
        lemma_fire_and_forget(events.drop_last());
        lemma_contains_extends(events, Event::Submitted);
    }
}

/// What a driver reports when a descriptor is made, the command is handed
/// over and the read is interrupted a number of times.
pub open spec fn interrupted_wait(fd: i32, interruptions: nat) -> Seq<Event>
    decreases interruptions,
{
    if interruptions == 0 {
        seq![Event::NotificationCreated { fd }, Event::Submitted]
    } else {
        interrupted_wait(fd, (interruptions - 1) as nat).push(
            Event::ReadReturned { outcome: ReadOutcome::Interrupted },
        )
    }
}

/// The actions that go with `interrupted_wait`: the descriptor is made, the
/// command submitted, and the read started once more than it was interrupted.
pub open spec fn repeated_await(fd: i32, interruptions: nat) -> Seq<Action>
    decreases interruptions,
{
    if interruptions == 0 {
        seq![
            Action::CreateNotification,
            Action::Submit { target: fd },
            Action::AwaitNotification { fd },
        ]
    } else {
        repeated_await(fd, (interruptions - 1) as nat).push(Action::AwaitNotification { fd })
    }
}

proof fn lemma_interrupted_wait(fd: i32, interruptions: nat)
    requires
        fd != NO_NOTIFICATION,
    ensures
        run(Phase::Opening, interrupted_wait(fd, interruptions)) == (Phase::Waiting { fd }),
        actions(Phase::Opening, interrupted_wait(fd, interruptions)) == repeated_await(
            fd,
            interruptions,
        ),
    decreases interruptions,
{
    let events = interrupted_wait(fd, interruptions);
    if interruptions == 0 {
        let first = seq![Event::NotificationCreated { fd }];
        assert(events.drop_last() =~= first);
        assert(first.drop_last() =~= Seq::<Event>::empty());
        assert(run(Phase::Opening, first.drop_last()) == Phase::Opening);
        assert(run(Phase::Opening, first) == (Phase::Submitting { notify: Some(fd) }));
        assert(actions(Phase::Opening, first.drop_last()) == seq![Action::CreateNotification]);
        assert(actions(Phase::Opening, first) == seq![
            Action::CreateNotification,
            Action::Submit { target: fd },
        ]);
        assert(actions(Phase::Opening, events) =~= repeated_await(fd, 0));
    } else {
        let earlier = interrupted_wait(fd, (interruptions - 1) as nat);
        lemma_interrupted_wait(fd, (interruptions - 1) as nat);
        assert(events.drop_last() =~= earlier);
    }
}

/// An interrupted read is started again, as often as it takes.
///
/// Where a descriptor was made and the command handed over, any number of
/// interrupted reads followed by one that ends otherwise leads to exactly
/// these actions: create, submit, await once more than interrupted, close,
/// finish. The call ends confirmed if the last read got the worker's signal
/// and unconfirmed if it failed.
pub proof fn lemma_interrupted_read_is_retried(fd: i32, interruptions: nat, ending: ReadOutcome)
    requires
        fd != NO_NOTIFICATION,
        ending != ReadOutcome::Interrupted,
    ensures
        ({
            let events = interrupted_wait(fd, interruptions).push(
                Event::ReadReturned { outcome: ending },
            ).push(Event::Closed);
            &&& run(Phase::Opening, events) == (Phase::Done {
                result: Ok(
                    if ending == ReadOutcome::Signaled {
                        Completion::Confirmed
                    } else {
                        Completion::Unconfirmed
                    },
                ),
            })
            &&& actions(Phase::Opening, events) == repeated_await(fd, interruptions).push(
                Action::CloseNotification { fd },
            ).push(Action::Finish)
        }),
{
    let waited = interrupted_wait(fd, interruptions);
    let read = waited.push(Event::ReadReturned { outcome: ending });
    let events = read.push(Event::Closed);
    lemma_interrupted_wait(fd, interruptions);
    assert(read.drop_last() =~= waited);
    assert(events.drop_last() =~= read);
    let completion = if ending == ReadOutcome::Signaled {
        Completion::Confirmed
    } else {
        Completion::Unconfirmed
    };
    assert(run(Phase::Opening, read) == (Phase::Closing { fd, completion }));
    assert(actions(Phase::Opening, read) == repeated_await(fd, interruptions).push(
        Action::CloseNotification { fd },
    ));
    assert(run(Phase::Opening, events) == (Phase::Done { result: Ok(completion) }));
}

} // verus!
