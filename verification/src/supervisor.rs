//! The per-service supervisor: what to do next on each event of a worker.
//!
//! A supervisor cycles through three phases for as long as it is driven:
//! `Spawning`, until a worker process is there; `Running`, while the worker's
//! output is read; `BackoffWait`, the pause before the next attempt. It
//! performs no work of its own. Its driver carries out each
//! [`SupervisorAction`] and reports what came of it as a [`WorkerEvent`];
//! [`Supervisor::step`] then updates the registry and names the next action.

use crate::classifier::{classify, transition};
use crate::json::{content, labelled_object, parse, parsed, Json};
use crate::registry::{with_change, BridgeManager, BridgeProcess};
use crate::status::BridgeStatus;
use crate::text::{concat, decode_lossy, lossy};
use vstd::prelude::*;

verus! {

/// The pause, in seconds, before a worker is spawned again.
pub const BACKOFF_SECS: u64 = 5;

/// Where a supervisor stands in its cycle.
#[derive(Debug, Clone, Copy, PartialEq, Eq, Structural)]
pub enum Phase {
    Spawning,
    Running,
    BackoffWait,
}

/// The supervisor of one service.
#[derive(Debug)]
pub struct Supervisor {
    pub service: String,
    pub phase: Phase,
}

/// What the driver reports to a supervisor. `H` is the handle of a worker
/// process.
#[derive(Debug)]
pub enum WorkerEvent<H> {
    /// The launch could not be prepared, or the spawn failed.
    LaunchFailed,
    /// A worker process was spawned.
    Spawned(H),
    /// The worker wrote a line to its standard output.
    Stdout(Vec<u8>),
    /// The worker wrote a line to its standard error.
    Stderr(Vec<u8>),
    /// The worker process ended, with its exit code where one is known.
    Terminated(Option<i32>),
    /// Any other notice about the worker.
    Other,
    /// The worker's event channel closed without a notice.
    ChannelClosed,
    /// The pause before the next attempt is over.
    BackoffElapsed,
}

/// What the driver is to do next.
#[derive(Debug)]
pub enum SupervisorAction {
    /// Spawn the worker process of this binary and report `Spawned` or
    /// `LaunchFailed`.
    Spawn { binary: String },
    /// Wait for the worker's next event and report it.
    Await,
    /// Emit `payload` on `channel`, then wait for the worker's next event.
    Emit { channel: String, payload: serde_json::Value },
    /// The line was no JSON and is dropped: wait for the worker's next event.
    Reject { line: String, error: serde_json::Error },
    /// Emit `payload` on `channel`, pause for `delay_secs` seconds and report
    /// `BackoffElapsed`.
    Disconnect { channel: String, payload: serde_json::Value, delay_secs: u64 },
    /// Pause for `delay_secs` seconds and report `BackoffElapsed`.
    Backoff { delay_secs: u64 },
}

/// What an action asks for, as mathematical values.
pub enum Request {
    Spawn { binary: Seq<char> },
    Await,
    Emit { channel: Seq<char>, payload: Json },
    Reject { line: Seq<char> },
    Disconnect { channel: Seq<char>, payload: Json, delay_secs: u64 },
    Backoff { delay_secs: u64 },
}

impl View for SupervisorAction {
    type V = Request;

    open spec fn view(&self) -> Request {
        match *self {
            SupervisorAction::Spawn { binary } => Request::Spawn { binary: binary@ },
            SupervisorAction::Await => Request::Await,
            SupervisorAction::Emit { channel, payload } => Request::Emit {
                channel: channel@,
                payload: content(payload),
            },
            SupervisorAction::Reject { line, error } => Request::Reject { line: line@ },
            SupervisorAction::Disconnect { channel, payload, delay_secs } => Request::Disconnect {
                channel: channel@,
                payload: content(payload),
                delay_secs,
            },
            SupervisorAction::Backoff { delay_secs } => Request::Backoff { delay_secs },
        }
    }
}

/// The name of the worker binary of a service.
pub open spec fn worker_binary(service: Seq<char>) -> Seq<char> {
    "switchboard-"@ + service
}

/// The name of the channel on which the events of a service are emitted.
pub open spec fn event_channel(service: Seq<char>) -> Seq<char> {
    "bridge-event-"@ + service
}

/// The payload that tells observers of a worker's end.
pub open spec fn disconnect_notice() -> Json {
    Json::labelled("status"@, BridgeStatus::Disconnected.name())
}

/// The request that announces the end of the worker of `service`: to emit the
/// notice on the service's channel and to pause before the next attempt.
pub open spec fn disconnect_request(service: Seq<char>) -> Request {
    Request::Disconnect {
        channel: event_channel(service),
        payload: disconnect_notice(),
        delay_secs: BACKOFF_SECS,
    }
}

/// The status that a line of text dictates: that of the message it holds, and
/// none where it is no JSON.
pub open spec fn text_change(line: Seq<char>) -> Option<BridgeStatus> {
    match parsed(line) {
        Some(message) => transition(message),
        None => None,
    }
}

/// The status that a line of a worker's output dictates, once its bytes are
/// decoded.
pub open spec fn line_change(bytes: Seq<u8>) -> Option<BridgeStatus> {
    text_change(lossy(bytes))
}

/// The request that answers a line of text from the worker of `service`: to
/// emit the message it holds, or to drop it where it is no JSON.
pub open spec fn text_reaction(service: Seq<char>, line: Seq<char>) -> Request {
    match parsed(line) {
        Some(message) => Request::Emit { channel: event_channel(service), payload: message },
        None => Request::Reject { line },
    }
}

/// The request that a supervisor in `phase` is waiting on.
pub open spec fn awaited(phase: Phase, service: Seq<char>) -> Request {
    match phase {
        Phase::Spawning => Request::Spawn { binary: worker_binary(service) },
        Phase::Running => Request::Await,
        Phase::BackoffWait => Request::Backoff { delay_secs: BACKOFF_SECS },
    }
}

/// Whether an event tells of the worker's end.
pub open spec fn ends_worker<H>(event: WorkerEvent<H>) -> bool {
    event is Terminated || event is ChannelClosed
}

/// The phase after an event.
pub open spec fn next_phase<H>(phase: Phase, event: WorkerEvent<H>) -> Phase {
    match phase {
        Phase::Spawning => if event is LaunchFailed {
            Phase::BackoffWait
        } else if event is Spawned {
            Phase::Running
        } else {
            Phase::Spawning
        },
        Phase::Running => if ends_worker(event) {
            Phase::BackoffWait
        } else {
            Phase::Running
        },
        Phase::BackoffWait => if event is BackoffElapsed {
            Phase::Spawning
        } else {
            Phase::BackoffWait
        },
    }
}

/// The registry content after an event of the supervisor of `service`.
pub open spec fn next_bridges<H>(
    phase: Phase,
    service: Seq<char>,
    bridges: Map<Seq<char>, BridgeProcess<H>>,
    event: WorkerEvent<H>,
) -> Map<Seq<char>, BridgeProcess<H>> {
    match (phase, event) {
        (Phase::Spawning, WorkerEvent::Spawned(child)) => bridges.insert(
            service,
            BridgeProcess { child, status: BridgeStatus::Connected },
        ),
        (Phase::Running, WorkerEvent::Stdout(bytes)) => with_change(
            bridges,
            service,
            line_change(bytes@),
        ),
        (Phase::Running, WorkerEvent::Terminated(_)) => bridges.remove(service),
        (Phase::Running, WorkerEvent::ChannelClosed) => bridges.remove(service),
        _ => bridges,
    }
}

/// The request that answers an event.
pub open spec fn reaction<H>(phase: Phase, service: Seq<char>, event: WorkerEvent<H>) -> Request {
    match (phase, event) {
        (Phase::Spawning, WorkerEvent::LaunchFailed) => Request::Backoff {
            delay_secs: BACKOFF_SECS,
        },
        (Phase::Spawning, WorkerEvent::Spawned(_)) => Request::Await,
        (Phase::Running, WorkerEvent::Stdout(bytes)) => text_reaction(service, lossy(bytes@)),
        (Phase::Running, WorkerEvent::Terminated(_)) => disconnect_request(service),
        (Phase::Running, WorkerEvent::ChannelClosed) => disconnect_request(service),
        (Phase::BackoffWait, WorkerEvent::BackoffElapsed) => Request::Spawn {
            binary: worker_binary(service),
        },
        _ => awaited(phase, service),
    }
}

/// Returns the name of the worker binary of `service`.
pub fn binary_name(service: &str) -> (name: String)
    ensures
        name@ == worker_binary(service@),
{
    concat("switchboard-", service)
}

/// Returns the name of the channel on which the events of `service` go out.
pub fn event_name(service: &str) -> (name: String)
    ensures
        name@ == event_channel(service@),
{
    concat("bridge-event-", service)
}

impl Supervisor {
    /// A supervisor for `service` that has yet to spawn its first worker.
    pub fn new(service: String) -> (supervisor: Supervisor)
        ensures
            supervisor.service@ == service@,
            supervisor.phase == Phase::Spawning,
    {
        Supervisor { service, phase: Phase::Spawning }
    }

    /// The action that the supervisor is waiting on. A driver starts with it.
    pub fn pending(&self) -> (action: SupervisorAction)
        ensures
            action@ == awaited(self.phase, self.service@),
    {
        match self.phase {
            Phase::Spawning => SupervisorAction::Spawn { binary: binary_name(self.service.as_str()) },
            Phase::Running => SupervisorAction::Await,
            Phase::BackoffWait => SupervisorAction::Backoff { delay_secs: BACKOFF_SECS },
        }
    }

    /// Takes a decoded message of the worker: records the status it dictates,
    /// if it dictates one and the service still has its entry, and asks for
    /// the message to be emitted, whatever it holds.
    pub fn on_message<H>(&self, registry: &mut BridgeManager<H>, payload: serde_json::Value) -> (action:
        SupervisorAction)
        ensures
            final(registry)@ == with_change(
                old(registry)@,
                self.service@,
                transition(content(payload)),
            ),
            action@ == (Request::Emit {
                channel: event_channel(self.service@),
                payload: content(payload),
            }),
    {
        match classify(&payload) {
            Some(status) => {
                registry.set_status(self.service.as_str(), status);
            },
            None => {},
        }
        SupervisorAction::Emit { channel: event_name(self.service.as_str()), payload }
    }

    /// Takes a line of text from the worker: handles the message it holds, or
    /// drops the line, and changes nothing, where it is no JSON.
    pub fn on_line<H>(&self, registry: &mut BridgeManager<H>, line: String) -> (action:
        SupervisorAction)
        ensures
            final(registry)@ == with_change(old(registry)@, self.service@, text_change(line@)),
            action@ == text_reaction(self.service@, line@),
    {
        match parse(line.as_str()) {
            Ok(payload) => self.on_message(registry, payload),
            Err(error) => SupervisorAction::Reject { line, error },
        }
    }

    /// Takes a line of the worker's output: decodes its bytes, replacing what
    /// is no UTF-8, and handles the text.
    fn on_output<H>(&self, registry: &mut BridgeManager<H>, bytes: &[u8]) -> (action:
        SupervisorAction)
        ensures
            final(registry)@ == with_change(old(registry)@, self.service@, line_change(bytes@)),
            action@ == text_reaction(self.service@, lossy(bytes@)),
    {
        self.on_line(registry, decode_lossy(bytes))
    }

    /// Cleans up after the worker's end: drops its entry and announces the
    /// disconnect.
    fn on_exit<H>(&self, registry: &mut BridgeManager<H>) -> (action: SupervisorAction)
        ensures
            final(registry)@ == old(registry)@.remove(self.service@),
            action@ == disconnect_request(self.service@),
    {
        let _ = registry.remove(self.service.as_str());
        SupervisorAction::Disconnect {
            channel: event_name(self.service.as_str()),
            payload: labelled_object("status", BridgeStatus::Disconnected.as_str()),
            delay_secs: BACKOFF_SECS,
        }
    }

    /// Takes the outcome of the last action and decides the next one.
    ///
    /// While spawning, a new worker is entered in the registry as `Connected`
    /// and its output awaited; a failed launch leads to the pause. While
    /// running, each line of output is decoded, its status recorded and the
    /// message forwarded; lines that are no JSON are dropped; the worker's end
    /// removes its entry and announces the disconnect. After the pause the
    /// worker is spawned again. An event that does not belong to the phase
    /// changes nothing and repeats the pending action.
    pub fn step<H>(&mut self, registry: &mut BridgeManager<H>, event: WorkerEvent<H>) -> (action:
        SupervisorAction)
        ensures
            final(self).service@ == old(self).service@,
            final(self).phase == next_phase(old(self).phase, event),
            final(registry)@ == next_bridges(
                old(self).phase,
                old(self).service@,
                old(registry)@,
                event,
            ),
            action@ == reaction(old(self).phase, old(self).service@, event),
    {
        match self.phase {
            Phase::Spawning => match event {
                WorkerEvent::LaunchFailed => {
                    self.phase = Phase::BackoffWait;
                    SupervisorAction::Backoff { delay_secs: BACKOFF_SECS }
                },
                WorkerEvent::Spawned(child) => {
                    registry.insert(
                        self.service.clone(),
                        BridgeProcess { child, status: BridgeStatus::Connected },
                    );
                    self.phase = Phase::Running;
                    SupervisorAction::Await
                },
                _ => self.pending(),
            },
            Phase::Running => match event {
                WorkerEvent::Stdout(bytes) => self.on_output(registry, bytes.as_slice()),
                WorkerEvent::Terminated(_) | WorkerEvent::ChannelClosed => {
                    self.phase = Phase::BackoffWait;
                    self.on_exit(registry)
                },
                _ => self.pending(),
            },
            Phase::BackoffWait => match event {
                WorkerEvent::BackoffElapsed => {
                    self.phase = Phase::Spawning;
                    self.pending()
                },
                _ => self.pending(),
            },
        }
    }
}

} // verus!
