//! Sequences of events: what holds however long a supervisor is driven.
//!
//! [`Supervisor::step`](crate::supervisor::Supervisor::step) answers one
//! event. Replaying a sequence of events gives what that many steps leave
//! behind: the phase reached, the registry content, and the requests made on
//! the way.

use crate::registry::{status_in, with_change, with_status, BridgeProcess};
use crate::status::BridgeStatus;
use crate::supervisor::{
    disconnect_request, ends_worker, line_change, next_bridges, next_phase, reaction, Phase,
    Request, WorkerEvent,
};
use vstd::prelude::*;

verus! {

/// What a sequence of steps leaves behind.
pub struct Outcome<H> {
    pub phase: Phase,
    pub bridges: Map<Seq<char>, BridgeProcess<H>>,
    pub requests: Seq<Request>,
}

/// The outcome of the steps that the supervisor of `service` takes on
/// `events`, in order, from `phase` and a registry that holds `bridges`.
pub open spec fn replay<H>(
    phase: Phase,
    service: Seq<char>,
    bridges: Map<Seq<char>, BridgeProcess<H>>,
    events: Seq<WorkerEvent<H>>,
) -> Outcome<H>
    decreases events.len(),
{
    if events.len() == 0 {
        Outcome { phase, bridges, requests: Seq::empty() }
    } else {
        let before = replay(phase, service, bridges, events.drop_last());
        Outcome {
            phase: next_phase(before.phase, events.last()),
            bridges: next_bridges(before.phase, service, before.bridges, events.last()),
            requests: before.requests.push(reaction(before.phase, service, events.last())),
        }
    }
}

/// The status that an event dictates to a running supervisor: that of a line
/// of output which decodes to a classified message, and none otherwise.
pub open spec fn dictated<H>(event: WorkerEvent<H>) -> Option<BridgeStatus> {
    match event {
        WorkerEvent::Stdout(bytes) => line_change(bytes@),
        _ => None,
    }
}

/// The status dictated last in a sequence of events, if any event dictates one.
spec fn last_dictated<H>(events: Seq<WorkerEvent<H>>) -> Option<BridgeStatus>
    decreases events.len(),
{
    if events.len() == 0 {
        None
    } else if dictated(events.last()) is Some {
        dictated(events.last())
    } else {
        last_dictated(events.drop_last())
    }
}

/// Recording a status overwrites the one recorded before.
proof fn lemma_status_overwrites<H>(
    bridges: Map<Seq<char>, BridgeProcess<H>>,
    service: Seq<char>,
    first: BridgeStatus,
    second: BridgeStatus,
)
    ensures
        with_status(with_status(bridges, service, first), service, second) == with_status(
            bridges,
            service,
            second,
        ),
{
    assert(with_status(with_status(bridges, service, first), service, second) =~= with_status(
        bridges,
        service,
        second,
    ));
}

/// As long as the worker does not end, the supervisor stays in `Running`, asks
/// for no disconnect, and leaves the registry as the last dictated status
/// leaves it.
proof fn lemma_replay_while_alive<H>(
    service: Seq<char>,
    bridges: Map<Seq<char>, BridgeProcess<H>>,
    events: Seq<WorkerEvent<H>>,
)
    requires
        forall|i: int| 0 <= i < events.len() ==> !ends_worker(#[trigger] events[i]),
    ensures
        replay(Phase::Running, service, bridges, events).phase == Phase::Running,
        replay(Phase::Running, service, bridges, events).requests.len() == events.len(),
        forall|j: int|
            0 <= j < events.len() ==> !(#[trigger] replay(
                Phase::Running,
                service,
                bridges,
                events,
            ).requests[j] is Disconnect),
        replay(Phase::Running, service, bridges, events).bridges == with_change(
            bridges,
            service,
            last_dictated(events),
        ),
    decreases events.len(),
{
    if events.len() > 0 {
        let earlier = events.drop_last();
        lemma_replay_while_alive(service, bridges, earlier);
        let before = replay(Phase::Running, service, bridges, earlier);
        let event = events.last();
        assert(!ends_worker(event));
        match (dictated(event), last_dictated(earlier)) {
            (Some(status), Some(old_status)) => {
                lemma_status_overwrites(bridges, service, old_status, status);
            },
            _ => {},
        }
    }
}

/// Where one event dictates a status and none after it does, that status is
/// the one dictated last; where no event dictates one, none is.
proof fn lemma_last_dictated<H>(events: Seq<WorkerEvent<H>>)
    ensures
        forall|k: int|
            0 <= k < events.len() && dictated(#[trigger] events[k]) is Some && (forall|j: int|
                k < j < events.len() ==> dictated(#[trigger] events[j]) is None)
                ==> last_dictated(events) == dictated(events[k]),
        (forall|j: int| 0 <= j < events.len() ==> dictated(#[trigger] events[j]) is None)
            ==> last_dictated(events) is None,
    decreases events.len(),
{
    if events.len() > 0 {
        let earlier = events.drop_last();
        lemma_last_dictated(earlier);
        assert forall|k: int|
            0 <= k < events.len() && dictated(#[trigger] events[k]) is Some && (forall|j: int|
                k < j < events.len() ==> dictated(#[trigger] events[j]) is None)
                implies last_dictated(events) == dictated(events[k]) by {
            if k < events.len() - 1 {
                assert(dictated(events[events.len() - 1]) is None);
                assert(earlier[k] == events[k]);
                assert forall|j: int| k < j < earlier.len() implies dictated(
                    #[trigger] earlier[j],
                ) is None by {
                    assert(earlier[j] == events[j]);
                }
            }
        }
        if forall|j: int| 0 <= j < events.len() ==> dictated(#[trigger] events[j]) is None {
            assert(dictated(events[events.len() - 1]) is None);
            assert forall|j: int| 0 <= j < earlier.len() implies dictated(
                #[trigger] earlier[j],
            ) is None by {
                assert(earlier[j] == events[j]);
            }
        }
    }
}

/// The last matching message decides the status.
///
/// Take any sequence of events that a running supervisor sees before its
/// worker ends. If one of them dictates a status and none after it does, the
/// registry then holds what recording that one status would have left: the
/// service's entry, if it has one, carries that status, and nothing else has
/// changed. If none of them dictates a status, the registry is unchanged.
pub proof fn theorem_last_matching_message_decides<H>(
    service: Seq<char>,
    bridges: Map<Seq<char>, BridgeProcess<H>>,
    events: Seq<WorkerEvent<H>>,
)
    requires
        forall|i: int| 0 <= i < events.len() ==> !ends_worker(#[trigger] events[i]),
    ensures
        replay(Phase::Running, service, bridges, events).phase == Phase::Running,
        forall|k: int|
            0 <= k < events.len() && dictated(#[trigger] events[k]) is Some && (forall|j: int|
                k < j < events.len() ==> dictated(#[trigger] events[j]) is None) ==> {
                let after = replay(Phase::Running, service, bridges, events).bridges;
                &&& after == with_status(bridges, service, dictated(events[k])->0)
                &&& bridges.contains_key(service) ==> status_in(after, service) == dictated(
                    events[k],
                )->0
            },
        (forall|j: int| 0 <= j < events.len() ==> dictated(#[trigger] events[j]) is None) ==> replay(
            Phase::Running,
            service,
            bridges,
            events,
        ).bridges == bridges,
{
    lemma_replay_while_alive(service, bridges, events);
    lemma_last_dictated(events);
}

/// A worker's end is announced once, and its entry is gone.
///
/// Take any sequence of events that a running supervisor sees, in which the
/// worker ends (by a termination notice or by its channel closing) and no new
/// worker is spawned after that. Then the service has no entry in the
/// registry, the supervisor is no longer running, and exactly one of the
/// requests made announces the disconnect: the one that answers the first
/// event that ended the worker.
pub proof fn theorem_worker_end_disconnects_once<H>(
    service: Seq<char>,
    bridges: Map<Seq<char>, BridgeProcess<H>>,
    events: Seq<WorkerEvent<H>>,
    end: int,
)
    requires
        0 <= end < events.len(),
        ends_worker(events[end]),
        forall|i: int| 0 <= i < end ==> !ends_worker(#[trigger] events[i]),
        forall|i: int| end < i < events.len() ==> !(#[trigger] events[i] is Spawned),
    ensures
        replay(Phase::Running, service, bridges, events).phase != Phase::Running,
        !replay(Phase::Running, service, bridges, events).bridges.contains_key(service),
        replay(Phase::Running, service, bridges, events).requests.len() == events.len(),
        replay(Phase::Running, service, bridges, events).requests[end] == disconnect_request(service),
        forall|j: int|
            0 <= j < events.len() && j != end ==> !(#[trigger] replay(
                Phase::Running,
                service,
                bridges,
                events,
            ).requests[j] is Disconnect),
    decreases events.len(),
{
    let earlier = events.drop_last();
    let event = events.last();
    if end == events.len() - 1 {
        lemma_replay_while_alive(service, bridges, earlier);
    } else {
        assert(earlier[end] == events[end]);
        theorem_worker_end_disconnects_once(service, bridges, earlier, end);
        assert(!(events[events.len() - 1] is Spawned));
    }
}

/// A service has an entry exactly while its supervisor is running.
///
/// Start where that is so, for instance with a new supervisor and no entry
/// for the service. Then after any sequence of events the service has an
/// entry if and only if the supervisor is in `Running`: the entry comes with
/// the spawned worker and goes with the worker's end.
pub proof fn theorem_entry_lives_while_running<H>(
    phase: Phase,
    service: Seq<char>,
    bridges: Map<Seq<char>, BridgeProcess<H>>,
    events: Seq<WorkerEvent<H>>,
)
    requires
        bridges.contains_key(service) <==> phase == Phase::Running,
    ensures
        replay(phase, service, bridges, events).bridges.contains_key(service) <==> replay(
            phase,
            service,
            bridges,
            events,
        ).phase == Phase::Running,
    decreases events.len(),
{
    if events.len() > 0 {
        theorem_entry_lives_while_running(phase, service, bridges, events.drop_last());
    }
}

/// A supervisor touches no entry but its own.
///
/// Whatever the events, every other service has an entry after them exactly
/// if it had one before, with the same process handle and the same status.
pub proof fn theorem_other_services_are_untouched<H>(
    phase: Phase,
    service: Seq<char>,
    bridges: Map<Seq<char>, BridgeProcess<H>>,
    events: Seq<WorkerEvent<H>>,
    other: Seq<char>,
)
    requires
        other != service,
    ensures
        replay(phase, service, bridges, events).bridges.contains_key(other)
            <==> bridges.contains_key(other),
        bridges.contains_key(other) ==> replay(phase, service, bridges, events).bridges[other]
            == bridges[other],
    decreases events.len(),
{
    if events.len() > 0 {
        theorem_other_services_are_untouched(phase, service, bridges, events.drop_last(), other);
    }
}

} // verus!
