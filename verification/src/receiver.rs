//! The receive session: the steps from binding to leaving the group, and what
//! the worker that reads datagrams does with each of them.
//!
//! As with sending, the session performs nothing itself. Its caller binds,
//! joins, reads and leaves, and tells the session how each step ended.

use vstd::prelude::*;
use crate::address::{AddressValue, Family};
use crate::error::Error;
use crate::group::MulticastGroup;
use crate::address::address_text;
use crate::binder::{bind_failure, bind_text};
use crate::text::text_of;
use crate::params::MAX_SIZE;
use crate::report::{diagnostic, diagnostic_text, endpoint, endpoint_text, joined_line, joined_text};
use crate::sender::Outcome;

verus! {

/// The port that a receiver listens on where none is given.
pub const DEFAULT_LISTEN_PORT: u16 = 5000;

/// The size of the buffer that the worker reads each datagram into.
pub const RECEIVE_BUFFER_SIZE: usize = MAX_SIZE;

/// A step of the receive session.
#[derive(Clone, Copy, Debug, PartialEq, Eq, Structural)]
pub enum ReceiveAction {
    /// Bind a socket to the unspecified address of the family, on the port.
    Bind { family: Family, port: u16 },
    /// Join the group on that socket, on the unspecified local interface.
    Join,
    /// Start the worker that reads datagrams, report the group and the local
    /// address of the socket, and wait for one line of input. What the line holds
    /// does not matter.
    Listen,
    /// Leave the group, through a second handle on the same socket.
    Leave,
    /// The group is left: end the process, and with it the worker.
    Finish,
    /// Give up with a diagnostic.
    Abort { error: Error },
}

/// Where a receive session stands.
#[derive(Clone, Copy, Debug, PartialEq, Eq, Structural)]
pub enum ReceivePhase {
    Binding,
    Joining,
    Listening,
    Leaving,
    Finished,
    Failed(Error),
}

/// The mathematical value of a receive session.
pub struct ReceiveModel {
    pub group: AddressValue,
    pub port: u16,
    pub phase: ReceivePhase,
}

/// The port to listen on: the one given, or the default.
pub open spec fn listen_port(port: Option<u16>) -> u16 {
    match port {
        Some(p) => p,
        None => DEFAULT_LISTEN_PORT,
    }
}

impl ReceiveModel {
    /// A session before its first step.
    pub open spec fn start(group: AddressValue, port: Option<u16>) -> ReceiveModel {
        ReceiveModel { group, port: listen_port(port), phase: ReceivePhase::Binding }
    }

    /// The step that the session asks for.
    pub open spec fn action(self) -> ReceiveAction {
        match self.phase {
            ReceivePhase::Binding => ReceiveAction::Bind {
                family: self.group.family(),
                port: self.port,
            },
            ReceivePhase::Joining => ReceiveAction::Join,
            ReceivePhase::Listening => ReceiveAction::Listen,
            ReceivePhase::Leaving => ReceiveAction::Leave,
            ReceivePhase::Finished => ReceiveAction::Finish,
            ReceivePhase::Failed(error) => ReceiveAction::Abort { error },
        }
    }

    /// The session after the step it asked for has ended. A failed bind, join or
    /// leave is final, each with its own error. Waiting for input cannot fail:
    /// however it ends, the group is left next.
    pub open spec fn after(self, outcome: Outcome) -> ReceiveModel {
        let phase = match (self.phase, outcome) {
            (ReceivePhase::Binding, Outcome::Done) => ReceivePhase::Joining,
            (ReceivePhase::Binding, Outcome::Failed) => ReceivePhase::Failed(Error::BindError),
            (ReceivePhase::Joining, Outcome::Done) => ReceivePhase::Listening,
            (ReceivePhase::Joining, Outcome::Failed) => ReceivePhase::Failed(Error::JoinGroupError),
            (ReceivePhase::Listening, _) => ReceivePhase::Leaving,
            (ReceivePhase::Leaving, Outcome::Done) => ReceivePhase::Finished,
            (ReceivePhase::Leaving, Outcome::Failed) => ReceivePhase::Failed(Error::LeaveGroupError),
            (ReceivePhase::Finished, _) => ReceivePhase::Finished,
            (ReceivePhase::Failed(error), _) => ReceivePhase::Failed(error),
        };
        ReceiveModel { phase, ..self }
    }

    /// The diagnostic of a session that has failed for the reason `detail`: a
    /// failed bind names the local address, a failed leave the group, any other
    /// failure the group and the port. A session that has not failed has none.
    pub open spec fn failure_text(self, detail: Seq<char>) -> Option<Seq<char>> {
        match self.phase {
            ReceivePhase::Failed(Error::BindError) => Some(
                diagnostic_text(
                    Error::BindError,
                    Some(bind_text(self.group.family(), self.port)),
                    detail,
                ),
            ),
            ReceivePhase::Failed(Error::LeaveGroupError) => Some(
                diagnostic_text(Error::LeaveGroupError, Some(address_text(self.group)), detail),
            ),
            ReceivePhase::Failed(error) => Some(
                diagnostic_text(error, Some(endpoint_text(self.group, self.port)), detail),
            ),
            _ => None,
        }
    }

    /// The session after `n` steps that all went well.
    pub open spec fn after_successes(self, n: nat) -> ReceiveModel
        decreases n,
    {
        if n == 0 {
            self
        } else {
            self.after_successes((n - 1) as nat).after(Outcome::Done)
        }
    }
}

/// A session that joins a group, listens, and leaves on request.
#[derive(Clone, Copy, Debug, PartialEq, Eq)]
pub struct ReceiveSession {
    group: MulticastGroup,
    port: u16,
    phase: ReceivePhase,
}

impl View for ReceiveSession {
    type V = ReceiveModel;

    closed spec fn view(&self) -> ReceiveModel {
        ReceiveModel { group: self.group@, port: self.port, phase: self.phase }
    }
}

impl ReceiveSession {
    /// A session for the group, on the port given or else on the default port.
    pub fn new(group: MulticastGroup, port: Option<u16>) -> (s: ReceiveSession)
        ensures
            s@ == ReceiveModel::start(group@, port),
    {
        let port = match port {
            Some(p) => p,
            None => DEFAULT_LISTEN_PORT,
        };
        ReceiveSession { group, port, phase: ReceivePhase::Binding }
    }

    /// The step to perform next.
    pub fn next_action(&self) -> (a: ReceiveAction)
        ensures
            a == self@.action(),
    {
        match self.phase {
            ReceivePhase::Binding => ReceiveAction::Bind {
                family: self.group.family(),
                port: self.port,
            },
            ReceivePhase::Joining => ReceiveAction::Join,
            ReceivePhase::Listening => ReceiveAction::Listen,
            ReceivePhase::Leaving => ReceiveAction::Leave,
            ReceivePhase::Finished => ReceiveAction::Finish,
            ReceivePhase::Failed(error) => ReceiveAction::Abort { error },
        }
    }

    /// Tells the session how the step it asked for has ended.
    pub fn record(&mut self, outcome: Outcome)
        ensures
            final(self)@ == old(self)@.after(outcome),
    {
        self.phase = match (self.phase, outcome) {
            (ReceivePhase::Binding, Outcome::Done) => ReceivePhase::Joining,
            (ReceivePhase::Binding, Outcome::Failed) => ReceivePhase::Failed(Error::BindError),
            (ReceivePhase::Joining, Outcome::Done) => ReceivePhase::Listening,
            (ReceivePhase::Joining, Outcome::Failed) => ReceivePhase::Failed(Error::JoinGroupError),
            (ReceivePhase::Listening, _) => ReceivePhase::Leaving,
            (ReceivePhase::Leaving, Outcome::Done) => ReceivePhase::Finished,
            (ReceivePhase::Leaving, Outcome::Failed) => ReceivePhase::Failed(Error::LeaveGroupError),
            (ReceivePhase::Finished, _) => ReceivePhase::Finished,
            (ReceivePhase::Failed(error), _) => ReceivePhase::Failed(error),
        };
    }

    /// The diagnostic of a session that has failed, for the reason that the
    /// system gave.
    pub fn failure_message(&self, detail: &str) -> (r: Option<String>)
        ensures
            text_of(r) == self@.failure_text(detail@),
    {
        match self.phase {
            ReceivePhase::Failed(Error::BindError) => Some(
                bind_failure(self.group.family(), self.port, detail),
            ),
            ReceivePhase::Failed(Error::LeaveGroupError) => {
                let group = self.group.address().to_text();
                Some(diagnostic(Error::LeaveGroupError, Some(group.as_str()), detail))
            },
            ReceivePhase::Failed(error) => {
                let listening = endpoint(&self.group.address(), self.port);
                Some(diagnostic(error, Some(listening.as_str()), detail))
            },
            _ => None,
        }
    }

    /// The line that reports the group, once it is joined.
    pub fn joined_line(&self) -> (s: String)
        ensures
            s@ == joined_text(self@.group),
    {
        joined_line(&self.group.address())
    }

    pub fn group(&self) -> (g: MulticastGroup)
        ensures
            g@ == self@.group,
    {
        self.group
    }

    pub fn port(&self) -> (p: u16)
        ensures
            p == self@.port,
    {
        self.port
    }
}

/// The order of a session in which every step goes well: bind, join, listen,
/// leave, and then the end.
pub proof fn lemma_receive_order(group: AddressValue, port: Option<u16>)
    ensures
        ({
            let m = ReceiveModel::start(group, port);
            &&& m.action() == ReceiveAction::Bind { family: group.family(), port: listen_port(port) }
            &&& m.after_successes(1).action() == ReceiveAction::Join
            &&& m.after_successes(2).action() == ReceiveAction::Listen
            &&& m.after_successes(3).action() == ReceiveAction::Leave
            &&& m.after_successes(4).action() == ReceiveAction::Finish
        }),
{
    let m = ReceiveModel::start(group, port);
    reveal_with_fuel(ReceiveModel::after_successes, 5);
}

/// The group is left only after the wait for input has ended: whatever the step
/// and however it ends, the session asks to leave next only when the step that
/// ended was the wait. A session starts far from it, and a session that has
/// failed or finished never asks for anything else again.
pub proof fn lemma_leave_follows_input(m: ReceiveModel, outcome: Outcome)
    ensures
        m.after(outcome).action() is Leave ==> m.action() is Listen,
        m.action() is Listen ==> m.after(outcome).action() is Leave,
        m.action() is Finish || m.action() is Abort ==> m.after(outcome) == m,
        !(ReceiveModel::start(m.group, Some(m.port)).action() is Leave),
{
}

// ---------------------------------------------------------------------------
// The worker
// ---------------------------------------------------------------------------

/// How one read from the socket ended.
#[derive(Clone, Copy, Debug, PartialEq, Eq, Structural)]
pub enum Reading {
    /// A datagram of so many bytes arrived.
    Datagram { size: usize },
    /// The read failed.
    Failed,
}

/// What the worker does after a read.
#[derive(Clone, Copy, Debug, PartialEq, Eq, Structural)]
pub enum WorkerAction {
    /// Log the datagram and read again.
    Log { size: usize },
    /// An empty datagram is the sender's sign that it is done: end the process
    /// with success.
    Stop,
    /// Give up with a diagnostic.
    Abort { error: Error },
}

/// What the worker owes after a read.
pub open spec fn worker_action_of(reading: Reading) -> WorkerAction {
    match reading {
        Reading::Datagram { size } => if size == 0 {
            WorkerAction::Stop
        } else {
            WorkerAction::Log { size }
        },
        Reading::Failed => WorkerAction::Abort { error: Error::ReceiveError },
    }
}

/// Decides what the worker does after a read: every datagram that holds
/// anything is logged with its size, an empty one ends the process, and a failed
/// read is fatal.
pub fn worker_action(reading: Reading) -> (a: WorkerAction)
    ensures
        a == worker_action_of(reading),
{
    match reading {
        Reading::Datagram { size } => if size == 0 {
            WorkerAction::Stop
        } else {
            WorkerAction::Log { size }
        },
        Reading::Failed => WorkerAction::Abort { error: Error::ReceiveError },
    }
}

} // verus!
