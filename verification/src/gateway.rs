//! The command gateway: what callers may ask of the registry.
//!
//! Three commands exist: start the supervision of a service, send a message
//! to its worker, and ask for its status. None of them waits for a worker.

use crate::error::BridgeError;
use crate::registry::{status_in, with_child, BridgeManager, BridgeProcess};
use crate::status::BridgeStatus;
use crate::supervisor::{next_bridges, Phase, Supervisor, WorkerEvent};
use vstd::prelude::*;
use vstd::string::{StrSliceExecFns, StringExecFns};

verus! {

/// The line terminator of the worker protocol.
pub open spec fn newline() -> Seq<char> {
    seq!['\n']
}

/// Whether a text ends with the line terminator.
pub open spec fn terminated(message: Seq<char>) -> bool {
    message.len() > 0 && message.last() == '\n'
}

/// A message as it is written to a worker: itself where it ends with a line
/// terminator, else with one appended.
pub open spec fn framed(message: Seq<char>) -> Seq<char> {
    if terminated(message) {
        message
    } else {
        message + newline()
    }
}

/// Whether a start command launches a supervisor for `service`: it does
/// unless the registry reports the service as connected.
pub open spec fn launches<H>(
    bridges: Map<Seq<char>, BridgeProcess<H>>,
    service: Seq<char>,
) -> bool {
    status_in(bridges, service) != BridgeStatus::Connected
}

/// Framing normalises the end of a message: a framed message ends with the
/// line terminator, a message that already ends with it is framed as itself,
/// any other gets exactly one terminator more, and framing twice is framing
/// once.
pub proof fn theorem_framing_is_idempotent(message: Seq<char>)
    ensures
        terminated(framed(message)),
        terminated(message) ==> framed(message) == message,
        !terminated(message) ==> framed(message) == message.push('\n'),
        framed(framed(message)) == framed(message),
{
    assert(message + newline() =~= message.push('\n'));
}

/// Returns `message` as it is written to a worker.
pub fn frame(message: &str) -> (payload: String)
    ensures
        payload@ == framed(message@),
{
    let mut payload = message.to_owned();
    let length = message.unicode_len();
    if length == 0 || message.get_char(length - 1) != '\n' {
        proof {
            reveal_strlit("\n");
            assert("\n"@ =~= newline());
        }
        payload.append("\n");
    }
    payload
}

/// Closes a send: what the caller is told once the write has been tried.
/// `written` is the outcome of the write, with the reason where it failed.
pub fn finish_send(service: &str, written: Result<(), String>) -> (outcome: Result<
    (),
    BridgeError,
>)
    ensures
        match written {
            Ok(_) => outcome is Ok,
            Err(reason) => {
                &&& outcome matches Err(BridgeError::WriteFailed { service: name, reason: why })
                &&& name@ == service@
                &&& why@ == reason@
            },
        },
{
    match written {
        Ok(_) => Ok(()),
        Err(reason) => Err(BridgeError::WriteFailed { service: service.to_owned(), reason }),
    }
}

/// A service whose worker has just been spawned is not started again.
///
/// When a spawning supervisor learns of its new worker, the registry reports
/// the service as connected, whatever it held before. `start_bridge` launches
/// nothing for a connected service and leaves the registry as it is, so
/// calls that follow, however many, spawn no second worker while that status
/// lasts.
pub proof fn theorem_spawned_service_is_not_restarted<H>(
    service: Seq<char>,
    bridges: Map<Seq<char>, BridgeProcess<H>>,
    child: H,
)
    ensures
        !launches(
            next_bridges(Phase::Spawning, service, bridges, WorkerEvent::Spawned(child)),
            service,
        ),
{
}

impl<H> BridgeManager<H> {
    /// A supervisor for `service`, about to spawn the service's worker. The
    /// caller drives it for as long as the process lives.
    pub fn spawn_bridge(service: String) -> (supervisor: Supervisor)
        ensures
            supervisor.service@ == service@,
            supervisor.phase == Phase::Spawning,
    {
        Supervisor::new(service)
    }

    /// Starts the supervision of `service` unless the registry already
    /// reports it as connected: returns the supervisor to drive, or `None`
    /// where nothing is to be done.
    pub fn start_bridge(&self, service: &str) -> (launch: Option<Supervisor>)
        ensures
            launch is Some <==> launches(self@, service@),
            launch matches Some(supervisor) ==> supervisor.service@ == service@
                && supervisor.phase == Phase::Spawning,
    {
        match self.status(service) {
            BridgeStatus::Connected => None,
            _ => Some(Self::spawn_bridge(service.to_owned())),
        }
    }

    /// Prepares a message for the worker of `service`: returns the worker's
    /// process handle and the bytes to write to its input, which are the
    /// message with its line terminator. Fails with `NotRunning`, and hands
    /// out no handle, where the service has no entry. The registry keeps
    /// every entry and every status.
    pub fn send_to_bridge(&mut self, service: &str, message: &str) -> (outcome: Result<
        (&mut H, String),
        BridgeError,
    >)
        ensures
            outcome is Ok <==> old(self)@.contains_key(service@),
            match outcome {
                Ok((child, payload)) => {
                    &&& *child == old(self)@[service@].child
                    &&& payload@ == framed(message@)
                    &&& final(self)@ == with_child(old(self)@, service@, *final(child))
                },
                Err(error) => {
                    &&& final(self)@ == old(self)@
                    &&& error matches BridgeError::NotRunning { service: name }
                    &&& name@ == service@
                },
            },
    {
        match self.child_mut(service) {
            Some(child) => Ok((child, frame(message))),
            None => Err(BridgeError::NotRunning { service: service.to_owned() }),
        }
    }

    /// Returns the canonical name of the status of `service`; for a service
    /// without an entry that is `disconnected`.
    pub fn get_status(&self, service: &str) -> (name: &'static str)
        ensures
            name@ == self.status_of(service@).name(),
            !self@.contains_key(service@) ==> name@ == "disconnected"@,
    {
        self.status(service).as_str()
    }
}

} // verus!
