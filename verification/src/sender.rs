//! The send session: which step comes next, given how the last one went.
//!
//! The session itself performs nothing. Its caller binds, sends and sleeps, and
//! tells the session how each step ended; the session answers with the next step.

use vstd::prelude::*;
use crate::address::{AddressValue, Family};
use crate::error::Error;
use crate::group::MulticastGroup;
use crate::params::{checked_parameters, ParametersValue, SendParameters};
use crate::binder::{bind_failure, bind_text, ANY_PORT};
use crate::text::text_of;
use crate::payload::{build_payload, payload_bytes};
use crate::report::{
    diagnostic, diagnostic_text, endpoint, endpoint_text, sent_line, sent_line_now, sent_text,
};

verus! {

/// The hop limit set on the socket before every datagram: the largest there is.
pub const MULTICAST_TTL: u32 = 255;

/// How a step ended.
#[derive(Clone, Copy, Debug, PartialEq, Eq, Structural)]
pub enum Outcome {
    Done,
    Failed,
}

/// A step of the send session.
#[derive(Clone, Copy, Debug, PartialEq, Eq, Structural)]
pub enum SendAction {
    /// Bind a socket to the unspecified address of the family, on any free port.
    Bind { family: Family, port: u16 },
    /// Set the multicast hop limit, send the payload to the group, and log the
    /// datagram.
    Transmit { ttl: u32 },
    /// Sleep.
    Pause { millis: u64 },
    /// All datagrams are out: report completion.
    Finish,
    /// Give up with a diagnostic.
    Abort { error: Error },
}

/// Where a send session stands.
#[derive(Clone, Copy, Debug, PartialEq, Eq, Structural)]
pub enum SendPhase {
    Binding,
    Transmitting,
    Pausing,
    Finished,
    Failed(Error),
}

/// The mathematical value of a send session.
pub struct SendModel {
    pub group: AddressValue,
    pub port: u16,
    pub parameters: ParametersValue,
    pub phase: SendPhase,
    /// The number of datagrams that are out.
    pub sent: nat,
}

impl SendModel {
    /// A session before its first step.
    pub open spec fn start(group: AddressValue, port: u16, parameters: ParametersValue) -> SendModel {
        SendModel { group, port, parameters, phase: SendPhase::Binding, sent: 0 }
    }

    /// The step that the session asks for.
    pub open spec fn action(self) -> SendAction {
        match self.phase {
            SendPhase::Binding => SendAction::Bind { family: self.group.family(), port: ANY_PORT },
            SendPhase::Transmitting => SendAction::Transmit { ttl: MULTICAST_TTL },
            SendPhase::Pausing => SendAction::Pause { millis: self.parameters.interval as u64 },
            SendPhase::Finished => SendAction::Finish,
            SendPhase::Failed(error) => SendAction::Abort { error },
        }
    }

    /// The session after the step it asked for has ended. Any failure is final: a
    /// failed bind is a `BindError`, any later failure a `SendError`. After the
    /// last datagram the session is finished; after any other, it pauses.
    pub open spec fn after(self, outcome: Outcome) -> SendModel {
        match (self.phase, outcome) {
            (SendPhase::Binding, Outcome::Done) => SendModel {
                phase: SendPhase::Transmitting,
                ..self
            },
            (SendPhase::Binding, Outcome::Failed) => SendModel {
                phase: SendPhase::Failed(Error::BindError),
                ..self
            },
            (SendPhase::Transmitting, Outcome::Done) => SendModel {
                phase: if self.sent + 1 >= self.parameters.amount {
                    SendPhase::Finished
                } else {
                    SendPhase::Pausing
                },
                sent: self.sent + 1,
                ..self
            },
            (SendPhase::Pausing, Outcome::Done) => SendModel {
                phase: SendPhase::Transmitting,
                ..self
            },
            (SendPhase::Transmitting, Outcome::Failed) | (SendPhase::Pausing, Outcome::Failed) => SendModel {
                phase: SendPhase::Failed(Error::SendError),
                ..self
            },
            (SendPhase::Finished, _) | (SendPhase::Failed(_), _) => self,
        }
    }

    /// The diagnostic of a session that has failed for the reason `detail`: a
    /// failed bind names the local address, any other failure the destination. A
    /// session that has not failed has none.
    pub open spec fn failure_text(self, detail: Seq<char>) -> Option<Seq<char>> {
        match self.phase {
            SendPhase::Failed(Error::BindError) => Some(
                diagnostic_text(
                    Error::BindError,
                    Some(bind_text(self.group.family(), ANY_PORT)),
                    detail,
                ),
            ),
            SendPhase::Failed(error) => Some(
                diagnostic_text(error, Some(endpoint_text(self.group, self.port)), detail),
            ),
            _ => None,
        }
    }

    /// The session after `n` steps that all went well.
    pub open spec fn after_successes(self, n: nat) -> SendModel
        decreases n,
    {
        if n == 0 {
            self
        } else {
            self.after_successes((n - 1) as nat).after(Outcome::Done)
        }
    }

    /// The number of datagrams among the first `n` steps of a session in which
    /// every step goes well.
    pub open spec fn transmissions(self, n: nat) -> nat
        decreases n,
    {
        if n == 0 {
            0
        } else {
            let before = self.transmissions((n - 1) as nat);
            if self.after_successes((n - 1) as nat).action() is Transmit {
                before + 1
            } else {
                before
            }
        }
    }
}

/// A session that sends `amount` datagrams.
pub struct SendSession {
    group: MulticastGroup,
    port: u16,
    parameters: SendParameters,
    phase: SendPhase,
    sent: u64,
}

impl View for SendSession {
    type V = SendModel;

    closed spec fn view(&self) -> SendModel {
        SendModel {
            group: self.group@,
            port: self.port,
            parameters: self.parameters@,
            phase: self.phase,
            sent: self.sent as nat,
        }
    }
}

impl SendSession {
    #[verifier::type_invariant]
    spec fn in_range(self) -> bool {
        &&& self.parameters@.amount >= 1
        &&& self.sent <= self.parameters@.amount
        &&& self.phase is Binding ==> self.sent == 0
        &&& (self.phase is Transmitting || self.phase is Pausing) ==> self.sent
            < self.parameters@.amount
    }

    /// A session for parameters that were checked before.
    pub fn with_parameters(group: MulticastGroup, port: u16, parameters: SendParameters) -> (s:
        SendSession)
        ensures
            s@ == SendModel::start(group@, port, parameters@),
    {
        let _ = parameters.amount();
        SendSession { group, port, parameters, phase: SendPhase::Binding, sent: 0 }
    }

    /// Checks the three numbers and opens a session. Where the check fails there
    /// is no session, and so no step is ever asked for.
    pub fn new(group: MulticastGroup, port: u16, amount: u64, interval: u64, size: usize) -> (r:
        Result<SendSession, Error>)
        ensures
            match checked_parameters(amount as nat, interval as nat, size as nat) {
                Ok(parameters) => r is Ok && r->Ok_0@ == SendModel::start(group@, port, parameters),
                Err(e) => r is Err && r->Err_0 == e,
            },
    {
        match SendParameters::new(amount, interval, size) {
            Ok(parameters) => Ok(SendSession::with_parameters(group, port, parameters)),
            Err(e) => Err(e),
        }
    }

    /// The step to perform next.
    pub fn next_action(&self) -> (a: SendAction)
        ensures
            a == self@.action(),
    {
        match self.phase {
            SendPhase::Binding => SendAction::Bind { family: self.group.family(), port: ANY_PORT },
            SendPhase::Transmitting => SendAction::Transmit { ttl: MULTICAST_TTL },
            SendPhase::Pausing => SendAction::Pause { millis: self.parameters.interval() },
            SendPhase::Finished => SendAction::Finish,
            SendPhase::Failed(error) => SendAction::Abort { error },
        }
    }

    /// Tells the session how the step it asked for has ended.
    pub fn record(&mut self, outcome: Outcome)
        ensures
            final(self)@ == old(self)@.after(outcome),
    {
        proof {
            use_type_invariant(&*self);
        }
        let amount = self.parameters.amount();
        let (phase, sent) = match (self.phase, outcome) {
            (SendPhase::Binding, Outcome::Done) => (SendPhase::Transmitting, self.sent),
            (SendPhase::Binding, Outcome::Failed) => (SendPhase::Failed(Error::BindError), self.sent),
            (SendPhase::Transmitting, Outcome::Done) => {
                let sent = self.sent + 1;
                if sent >= amount {
                    (SendPhase::Finished, sent)
                } else {
                    (SendPhase::Pausing, sent)
                }
            },
            (SendPhase::Pausing, Outcome::Done) => (SendPhase::Transmitting, self.sent),
            (SendPhase::Transmitting, Outcome::Failed) | (SendPhase::Pausing, Outcome::Failed) => (
                SendPhase::Failed(Error::SendError),
                self.sent,
            ),
            (SendPhase::Finished, _) | (SendPhase::Failed(_), _) => (self.phase, self.sent),
        };
        *self = SendSession {
            group: self.group,
            port: self.port,
            parameters: self.parameters,
            phase,
            sent,
        };
    }

    /// The diagnostic of a session that has failed, for the reason that the
    /// system gave.
    pub fn failure_message(&self, detail: &str) -> (r: Option<String>)
        ensures
            text_of(r) == self@.failure_text(detail@),
    {
        match self.phase {
            SendPhase::Failed(Error::BindError) => Some(
                bind_failure(self.group.family(), ANY_PORT, detail),
            ),
            SendPhase::Failed(error) => {
                let destination = endpoint(&self.group.address(), self.port);
                Some(diagnostic(error, Some(destination.as_str()), detail))
            },
            _ => None,
        }
    }

    /// The line that logs one datagram of the session, under a time stamp.
    pub fn log_line(&self, stamp: &str) -> (s: String)
        ensures
            s@ == sent_text(stamp@, self@.parameters.size, self@.group, self@.port),
    {
        sent_line(stamp, self.parameters.size(), &self.group.address(), self.port)
    }

    /// The line that logs one datagram of the session, under the time stamp of
    /// this moment, whatever that is.
    pub fn log_line_now(&self) -> (s: String)
        ensures
            exists|stamp: Seq<char>|
                s@ == sent_text(stamp, self@.parameters.size, self@.group, self@.port),
    {
        let size = self.parameters.size();
        let group = self.group.address();
        let s = sent_line_now(size, &group, self.port);
        proof {
            let stamp = choose|stamp: Seq<char>|
                s@ == sent_text(stamp, size as nat, group@, self.port);
            assert(s@ == sent_text(stamp, self@.parameters.size, self@.group, self@.port));
        }
        s
    }

    /// The bytes of every datagram of the session.
    pub fn payload(&self) -> (data: Vec<u8>)
        ensures
            data@ == payload_bytes(self@.parameters.size),
    {
        build_payload(&self.parameters)
    }

    pub fn group(&self) -> (g: MulticastGroup)
        ensures
            g@ == self@.group,
    {
        self.group
    }

    pub fn port(&self) -> (p: u16)
        ensures
            p == self@.port,
    {
        self.port
    }

    pub fn parameters(&self) -> (p: SendParameters)
        ensures
            p@ == self@.parameters,
    {
        self.parameters
    }

    /// The number of datagrams that are out.
    pub fn sent(&self) -> (n: u64)
        ensures
            n == self@.sent,
            n <= self@.parameters.amount,
    {
        proof {
            use_type_invariant(self);
        }
        self.sent
    }
}

// ---------------------------------------------------------------------------
// The timeline of a session
// ---------------------------------------------------------------------------

/// Where a fresh session stands after `n` steps that all went well: after the
/// bind it sends and pauses in turn, and it is finished after the last datagram.
pub proof fn lemma_after_successes(m: SendModel, n: nat)
    requires
        m.phase is Binding,
        m.sent == 0,
        m.parameters.amount >= 1,
    ensures
        ({
            let s = m.after_successes(n);
            let amount = m.parameters.amount;
            &&& s.group == m.group && s.port == m.port && s.parameters == m.parameters
            &&& n == 0 ==> s == m
            &&& 1 <= n < 2 * amount && n % 2 == 1 ==> s.phase is Transmitting && s.sent == (n - 1) / 2
            &&& 1 <= n < 2 * amount && n % 2 == 0 ==> s.phase is Pausing && s.sent == n / 2
            &&& n >= 2 * amount ==> s.phase is Finished && s.sent == amount
        }),
    decreases n,
{
    if n > 0 {
        lemma_after_successes(m, (n - 1) as nat);
    }
}

/// The number of datagrams among the first `n` steps: every second step is one,
/// until all are out.
pub proof fn lemma_transmissions(m: SendModel, n: nat)
    requires
        m.phase is Binding,
        m.sent == 0,
        m.parameters.amount >= 1,
    ensures
        m.transmissions(n) == if n >= 2 * m.parameters.amount {
            m.parameters.amount
        } else {
            n / 2
        },
    decreases n,
{
    if n > 0 {
        lemma_transmissions(m, (n - 1) as nat);
        lemma_after_successes(m, (n - 1) as nat);
    }
}

/// The timeline of a session for `amount` datagrams, `interval` milliseconds
/// apart, in which every step goes well. The first step binds the socket. The
/// first datagram follows at once, with no pause before it. Datagram `k`, counted
/// from zero, is step `1 + 2k`, and for every `k` above zero the step before it is
/// a pause of `interval` milliseconds. The step after the last datagram is the
/// end of the session: no pause follows the last datagram. However long the
/// session is observed, exactly `amount` datagrams go out.
pub proof fn lemma_send_timeline(group: AddressValue, port: u16, parameters: ParametersValue, k: nat)
    requires
        parameters.amount >= 1,
        parameters.interval <= u64::MAX,
        k < parameters.amount,
    ensures
        ({
            let m = SendModel::start(group, port, parameters);
            &&& m.action() == SendAction::Bind { family: group.family(), port: ANY_PORT }
            &&& m.after_successes(1).action() == SendAction::Transmit { ttl: MULTICAST_TTL }
            &&& m.after_successes(1 + 2 * k).action() == SendAction::Transmit { ttl: MULTICAST_TTL }
            &&& m.after_successes(1 + 2 * k).sent == k
            &&& k >= 1 ==> m.after_successes(2 * k).action() == SendAction::Pause {
                millis: parameters.interval as u64,
            }
            &&& m.after_successes(2 * parameters.amount).action() == SendAction::Finish
            &&& m.transmissions(2 * parameters.amount) == parameters.amount
            &&& forall|n: nat| m.transmissions(n) <= parameters.amount
            &&& forall|n: nat| n >= 2 * parameters.amount ==> m.transmissions(n) == parameters.amount
        }),
{
    let m = SendModel::start(group, port, parameters);
    lemma_after_successes(m, 1);
    lemma_after_successes(m, 1 + 2 * k);
    lemma_after_successes(m, 2 * k);
    lemma_after_successes(m, 2 * parameters.amount);
    lemma_transmissions(m, 2 * parameters.amount);
    assert forall|n: nat| m.transmissions(n) <= parameters.amount by {
        lemma_transmissions(m, n);
    }
    assert forall|n: nat| n >= 2 * parameters.amount implies m.transmissions(n)
        == parameters.amount by {
        lemma_transmissions(m, n);
    }
}

/// A failure is final: whatever is recorded afterwards, the session keeps asking
/// to give up with the same error, and no further datagram is asked for.
pub proof fn lemma_failure_is_final(m: SendModel, outcome: Outcome)
    requires
        m.phase is Failed,
    ensures
        m.after(outcome) == m,
        m.action() is Abort,
{
}

} // verus!
