//! What holds of the creation of a worker over every sequence of events that
//! a driver can report, stated over the phases and actions alone.

use crate::startup::{
    accepts, actions, is_final, next_phase, pending_action, run, StartupAction, StartupEvent,
    StartupPhase,
};
use vstd::prelude::*;

verus! {

/// The kinds of action, whatever worker they name.
pub enum StartupActionKind {
    Create,
    QueryStatus,
    Destroy,
    Finish,
}

/// The kind of an action.
pub open spec fn kind(action: StartupAction) -> StartupActionKind {
    match action {
        StartupAction::Create => StartupActionKind::Create,
        StartupAction::QueryStatus { .. } => StartupActionKind::QueryStatus,
        StartupAction::Destroy { .. } => StartupActionKind::Destroy,
        StartupAction::Finish => StartupActionKind::Finish,
    }
}

/// The place of an action in the order of one creation: create, query,
/// destroy, finish.
pub open spec fn rank(action: StartupAction) -> nat {
    match action {
        StartupAction::Create => 0,
        StartupAction::QueryStatus { .. } => 1,
        StartupAction::Destroy { .. } => 2,
        StartupAction::Finish => 3,
    }
}

/// How many actions of a trace are of the given kind.
pub open spec fn occurrences(trace: Seq<StartupAction>, of_kind: StartupActionKind) -> nat
    decreases trace.len(),
{
    if trace.len() == 0 {
        0
    } else {
        occurrences(trace.drop_last(), of_kind) + if kind(trace.last()) == of_kind {
            1nat
        } else {
            0nat
        }
    }
}

/// Whether no action of a trace comes before one of lower rank.
pub open spec fn in_order(trace: Seq<StartupAction>) -> bool {
    forall|i: int, j: int| 0 <= i <= j < trace.len() ==> rank(trace[i]) <= rank(trace[j])
}

/// Whether an action, if it names a worker at all, names this one.
pub open spec fn names(action: StartupAction, handle: usize) -> bool {
    match action {
        StartupAction::QueryStatus { handle: queried } => queried == handle,
        StartupAction::Destroy { handle: destroyed } => destroyed == handle,
        _ => true,
    }
}

/// The address in the first report of a created worker among the events, if
/// there is such a report.
pub open spec fn first_created(events: Seq<StartupEvent>) -> Option<usize>
    decreases events.len(),
{
    if events.len() == 0 {
        None
    } else {
        match first_created(events.drop_last()) {
            Some(handle) => Some(handle),
            None => match events.last() {
                StartupEvent::Created { handle } => Some(handle),
                _ => None,
            },
        }
    }
}

/// Whether some status report among the events said this.
pub open spec fn status_reported(events: Seq<StartupEvent>, ready: bool) -> bool {
    events.contains(StartupEvent::StatusReported { ready })
}

proof fn lemma_occurrences_push(trace: Seq<StartupAction>, action: StartupAction)
    ensures
        forall|of_kind: StartupActionKind| #[trigger]
            occurrences(trace.push(action), of_kind) == occurrences(trace, of_kind) + if kind(
                action,
            ) == of_kind {
                1nat
            } else {
                0nat
            },
{
    assert(trace.push(action).drop_last() =~= trace);
}

proof fn lemma_occurrences_single(action: StartupAction)
    ensures
        forall|of_kind: StartupActionKind| #[trigger]
            occurrences(seq![action], of_kind) == if kind(action) == of_kind {
                1nat
            } else {
                0nat
            },
{
    assert(seq![action].drop_last() =~= Seq::<StartupAction>::empty());
    assert forall|of_kind: StartupActionKind| #[trigger]
        occurrences(seq![action], of_kind) == if kind(action) == of_kind {
            1nat
        } else {
            0nat
        } by {
        assert(occurrences(Seq::<StartupAction>::empty(), of_kind) == 0);
    }
}

/// An action at some place of a trace is counted among those of its kind.
proof fn lemma_occurrences_positive(trace: Seq<StartupAction>, i: int)
    requires
        0 <= i < trace.len(),
    ensures
        occurrences(trace, kind(trace[i])) >= 1,
    decreases trace.len(),
{
    if i < trace.len() - 1 {
        lemma_occurrences_positive(trace.drop_last(), i);
    }
}

proof fn lemma_contains_extends(events: Seq<StartupEvent>, event: StartupEvent)
    requires
        events.len() > 0,
    ensures
        events.drop_last().contains(event) ==> events.contains(event),
        events.last() == event ==> events.contains(event),
{
    let earlier = events.drop_last();
    if earlier.contains(event) {
        let i = choose|i: int| 0 <= i < earlier.len() && earlier[i] == event;
        assert(events[i] == event);
    }
    if events.last() == event {
        assert(events[events.len() - 1] == event);
    }
}

/// What holds of a creation at every moment: of the events reported so far,
/// the phase they led to and the actions handed out.
spec fn creation_invariant(
    events: Seq<StartupEvent>,
    phase: StartupPhase,
    trace: Seq<StartupAction>,
) -> bool {
    let created = first_created(events);
    let queried = occurrences(trace, StartupActionKind::QueryStatus);
    let destroyed = occurrences(trace, StartupActionKind::Destroy);
    let finished = occurrences(trace, StartupActionKind::Finish);
    &&& trace.len() > 0
    &&& trace.last() == pending_action(phase)
    &&& in_order(trace)
    &&& occurrences(trace, StartupActionKind::Create) == 1
    &&& created is Some ==> forall|i: int| 0 <= i < trace.len() ==> names(trace[i], created->0)
    &&& match phase {
        StartupPhase::Uninitialized => created is None && trace == seq![StartupAction::Create]
            && queried == 0 && destroyed == 0 && finished == 0,
        StartupPhase::Probing { handle } => created == Some(handle) && handle != 0 && queried
            == 1 && destroyed == 0 && finished == 0,
        StartupPhase::Releasing { handle } => created == Some(handle) && handle != 0 && queried
            == 1 && destroyed == 1 && finished == 0 && status_reported(events, false),
        StartupPhase::Ready { handle } => created == Some(handle) && handle != 0 && queried == 1
            && destroyed == 0 && finished == 1 && status_reported(events, true),
        StartupPhase::Failed => created is Some && created != Some(0usize) && queried == 1
            && destroyed == 1 && finished == 1 && status_reported(events, false),
        StartupPhase::AllocationFailed => created == Some(0usize) && queried == 0 && destroyed
            == 0 && finished == 1,
    }
}

proof fn lemma_creation_invariant(events: Seq<StartupEvent>)
    ensures
        creation_invariant(
            events,
            run(StartupPhase::Uninitialized, events),
            actions(StartupPhase::Uninitialized, events),
        ),
    decreases events.len(),
{
    let start = StartupPhase::Uninitialized;
    if events.len() == 0 {
        assert(actions(start, events) =~= seq![StartupAction::Create]);
        lemma_occurrences_single(StartupAction::Create);
    } else {
        let earlier = events.drop_last();
        let event = events.last();
        let before = run(start, earlier);
        let trace = actions(start, earlier);
        lemma_creation_invariant(earlier);
        lemma_contains_extends(events, StartupEvent::StatusReported { ready: true });
        lemma_contains_extends(events, StartupEvent::StatusReported { ready: false });
        if accepts(before, event) {
            let after = next_phase(before, event);
            let action = pending_action(after);
            let longer = trace.push(action);
            assert(actions(start, events) == longer);
            lemma_occurrences_push(trace, action);
            assert(rank(trace.last()) <= rank(action));
            assert(in_order(longer)) by {
                assert forall|i: int, j: int| 0 <= i <= j < longer.len() implies rank(longer[i])
                    <= rank(longer[j]) by {
                    if j < trace.len() {
                        assert(longer[i] == trace[i] && longer[j] == trace[j]);
                    } else if i < trace.len() {
                        assert(longer[i] == trace[i]);
                        assert(rank(trace[i]) <= rank(trace[trace.len() - 1]));
                    }
                }
            }
            if first_created(events) is Some {
                let handle = first_created(events)->0;
                assert forall|i: int| 0 <= i < longer.len() implies names(longer[i], handle) by {
                    if i < trace.len() {
                        assert(longer[i] == trace[i]);
                        if first_created(earlier) is None {
                            assert(before == StartupPhase::Uninitialized);
                            assert(trace[i] == StartupAction::Create);
                        }
                    }
                }
            }
        } else {
            assert(actions(start, events) == trace);
            assert(run(start, events) == before);
            if first_created(earlier) is None {
                assert(before == StartupPhase::Uninitialized);
            }
        }
    }
}

/// A creation asks for one worker and speaks of no other.
///
/// Whatever the driver reports, in whatever order: a worker is asked for
/// exactly once; the actions come in the order create, query, destroy,
/// finish; the status is asked at most once and the worker destroyed at most
/// once; and every action that names a worker names the one that was
/// allocated, by an address that is not null.
pub proof fn lemma_one_worker_per_creation(events: Seq<StartupEvent>)
    ensures
        ({
            let trace = actions(StartupPhase::Uninitialized, events);
            &&& in_order(trace)
            &&& occurrences(trace, StartupActionKind::Create) == 1
            &&& occurrences(trace, StartupActionKind::QueryStatus) <= 1
            &&& occurrences(trace, StartupActionKind::Destroy) <= 1
            &&& forall|i: int|
                0 <= i < trace.len() && kind(#[trigger] trace[i]) != StartupActionKind::Create
                    && kind(trace[i]) != StartupActionKind::Finish ==> first_created(events)
                    is Some && names(trace[i], first_created(events)->0) && !names(trace[i], 0)
        }),
{
    lemma_creation_invariant(events);
    let trace = actions(StartupPhase::Uninitialized, events);
    assert forall|i: int|
        0 <= i < trace.len() && kind(#[trigger] trace[i]) != StartupActionKind::Create && kind(
            trace[i],
        ) != StartupActionKind::Finish implies first_created(events) is Some && names(
        trace[i],
        first_created(events)->0,
    ) && !names(trace[i], 0) by {
        lemma_occurrences_positive(trace, i);
    }
}

/// How a creation can end, and what it has done by then.
///
/// A creation ends ready only with the worker that was allocated, after a
/// report that it is ready, and without having destroyed it. It ends failed
/// only after a report that the worker is not ready, and has then destroyed
/// that worker exactly once. It ends with nothing allocated only when a null
/// address was reported, and has then neither asked for a status nor
/// destroyed anything. Until it is over the driver is not told to finish.
pub proof fn lemma_creation_outcome(events: Seq<StartupEvent>)
    ensures
        ({
            let trace = actions(StartupPhase::Uninitialized, events);
            let queried = occurrences(trace, StartupActionKind::QueryStatus);
            let destroyed = occurrences(trace, StartupActionKind::Destroy);
            match run(StartupPhase::Uninitialized, events) {
                StartupPhase::Ready { handle } => first_created(events) == Some(handle) && handle
                    != 0 && status_reported(events, true) && queried == 1 && destroyed == 0,
                StartupPhase::Failed => first_created(events) is Some && first_created(events)
                    != Some(0usize) && status_reported(events, false) && queried == 1
                    && destroyed == 1,
                StartupPhase::AllocationFailed => first_created(events) == Some(0usize)
                    && queried == 0 && destroyed == 0,
                _ => occurrences(trace, StartupActionKind::Finish) == 0,
            }
        }),
{
    lemma_creation_invariant(events);
}

/// A worker that is not ready does not outlive its creation.
///
/// Once the driver has been told to finish, either the creation ended ready,
/// or everything that was allocated has been destroyed: the worker exactly
/// once where there was one, and nothing where there was none.
pub proof fn lemma_unready_worker_is_destroyed(events: Seq<StartupEvent>)
    requires
        occurrences(actions(StartupPhase::Uninitialized, events), StartupActionKind::Finish) > 0,
        !(run(StartupPhase::Uninitialized, events) is Ready),
    ensures
        is_final(run(StartupPhase::Uninitialized, events)),
        occurrences(actions(StartupPhase::Uninitialized, events), StartupActionKind::Destroy)
            == if first_created(events) == Some(0usize) {
            0nat
        } else {
            1nat
        },
{
    lemma_creation_invariant(events);
}

/// What a well-behaved driver reports, and where it leads.
///
/// A null address ends the creation at once with nothing allocated. A worker
/// that reports ready is kept. One that reports not ready is destroyed, by
/// the address it was allocated at, before the creation ends failed.
pub proof fn lemma_creation_runs(handle: usize, ready: bool)
    ensures
        ({
            let start = StartupPhase::Uninitialized;
            let created = seq![StartupEvent::Created { handle }];
            let reported = created.push(StartupEvent::StatusReported { ready });
            let destroyed = reported.push(StartupEvent::Destroyed);
            &&& handle == 0 ==> run(start, created) == StartupPhase::AllocationFailed && actions(
                start,
                created,
            ) == seq![StartupAction::Create, StartupAction::Finish]
            &&& handle != 0 && ready ==> run(start, reported) == (StartupPhase::Ready { handle })
                && actions(start, reported) == seq![
                StartupAction::Create,
                StartupAction::QueryStatus { handle },
                StartupAction::Finish,
            ]
            &&& handle != 0 && !ready ==> run(start, destroyed) == StartupPhase::Failed && actions(
                start,
                destroyed,
            ) == seq![
                StartupAction::Create,
                StartupAction::QueryStatus { handle },
                StartupAction::Destroy { handle },
                StartupAction::Finish,
            ]
        }),
{
    let start = StartupPhase::Uninitialized;
    let created = seq![StartupEvent::Created { handle }];
    let reported = created.push(StartupEvent::StatusReported { ready });
    let destroyed = reported.push(StartupEvent::Destroyed);
    assert(created.drop_last() =~= Seq::<StartupEvent>::empty());
    assert(reported.drop_last() =~= created);
    assert(destroyed.drop_last() =~= reported);
    assert(run(start, created.drop_last()) == start);
    assert(actions(start, created.drop_last()) == seq![StartupAction::Create]);
    if handle == 0 {
        assert(actions(start, created) =~= seq![StartupAction::Create, StartupAction::Finish]);
    } else {
        assert(run(start, created) == (StartupPhase::Probing { handle }));
        assert(actions(start, created) =~= seq![
            StartupAction::Create,
            StartupAction::QueryStatus { handle },
        ]);
        if ready {
            assert(actions(start, reported) =~= seq![
                StartupAction::Create,
                StartupAction::QueryStatus { handle },
                StartupAction::Finish,
            ]);
        } else {
            assert(run(start, reported) == (StartupPhase::Releasing { handle }));
            assert(actions(start, reported) =~= seq![
                StartupAction::Create,
                StartupAction::QueryStatus { handle },
                StartupAction::Destroy { handle },
            ]);
            assert(actions(start, destroyed) =~= seq![
                StartupAction::Create,
                StartupAction::QueryStatus { handle },
                StartupAction::Destroy { handle },
                StartupAction::Finish,
            ]);
        }
    }
}

} // verus!
