//! The transport session: one write-pause-read exchange, tracked as a
//! state machine.
//!
//! The session itself performs no I/O. It tells an unverified driver what
//! outside work comes next (`next_action`), the driver performs it and
//! reports what it observed (`on_event`), and the session decides how the
//! exchange advances. The contracts pin the whole progression down, so
//! the ordering of the exchange — open, write, pause, read, exactly once
//! each — is verified here even though the I/O is not.

use vstd::prelude::*;
use vstd::pervasive::unreached;
use crate::command::Command;
use crate::error::QueryError;

verus! {

/// Milliseconds of quiescence between the write and the read, giving the
/// device time to prepare its reply.
pub const PAUSE_MILLIS: u64 = 1000;

/// Capacity of the reply buffer: one read returns at most this many
/// bytes.
pub const READ_CAPACITY: usize = 1024;

/// Parity setting of the serial line.
#[derive(Clone, Copy, Debug, PartialEq, Eq, Structural)]
pub enum ParityMode {
    /// No parity bit.
    NoParity,
    /// Odd parity.
    OddParity,
    /// Even parity.
    EvenParity,
}

/// Fixed line settings for this device class. They are constants of the
/// protocol, not user-configurable; only the port identifier varies.
#[derive(Clone, Copy, Debug, PartialEq, Eq, Structural)]
pub struct TransportConfig {
    /// Line speed in baud.
    pub baud_rate: u32,
    /// Data bits per frame.
    pub data_bits: u8,
    /// Stop bits per frame.
    pub stop_bits: u8,
    /// Parity setting.
    pub parity: ParityMode,
    /// Upper bound on how long one read may block, in milliseconds.
    pub read_timeout_millis: u64,
}

impl TransportConfig {
    /// The one configuration this device class uses: 2400 baud, 8 data
    /// bits, 1 stop bit, no parity, a 1000 ms read timeout.
    pub fn standard() -> (c: TransportConfig)
        ensures
            c.baud_rate == 2400,
            c.data_bits == 8,
            c.stop_bits == 1,
            c.parity == ParityMode::NoParity,
            c.read_timeout_millis == 1000,
    {
        TransportConfig {
            baud_rate: 2400,
            data_bits: 8,
            stop_bits: 1,
            parity: ParityMode::NoParity,
            read_timeout_millis: 1000,
        }
    }
}

/// Where the single exchange stands. The phases are traversed at most
/// once, forward only; any failure ends the exchange at once.
#[derive(Clone, Copy, Debug, PartialEq, Eq, Structural)]
pub enum Phase {
    /// No port has been opened yet.
    Unopened,
    /// The port is open; the request has not been written.
    Opened,
    /// The request went out in full; the quiescence pause is owed.
    Sent,
    /// The pause has elapsed; the one read may now happen.
    Paused,
    /// The read completed; the reply bytes are held.
    Responded,
    /// The exchange failed; the failure is held.
    Failed,
}

/// The piece of outside work the driver is asked to do next.
#[derive(Clone, Copy, Debug, PartialEq, Eq, Structural)]
pub enum SessionAction {
    /// Open and configure the serial port.
    OpenPort,
    /// Write the session's wire request.
    WriteCommand,
    /// Suspend for `PAUSE_MILLIS` milliseconds.
    Pause,
    /// Read once, into a buffer of `READ_CAPACITY` bytes.
    ReadResponse,
    /// Nothing further: the exchange is over.
    Finish,
}

/// What the driver observed when it performed the last action.
#[derive(Debug)]
pub enum SessionEvent {
    /// The port opened and was configured.
    PortOpened,
    /// The port could not be opened or configured.
    OpenFailed,
    /// A write returned, having accepted this many bytes.
    WroteBytes(usize),
    /// The write failed outright.
    WriteFailed,
    /// The quiescence pause has elapsed.
    PauseElapsed,
    /// The read returned these bytes — possibly none.
    ReadBytes(Vec<u8>),
    /// The read failed.
    ReadFailed,
}

/// What a session looks like in contracts.
pub struct SessionView {
    /// The query this session carries out.
    pub command: Command,
    /// Where the exchange stands.
    pub phase: Phase,
    /// The reply, held exactly in the responded phase.
    pub response: Option<Seq<u8>>,
    /// The failure, held exactly in the failed phase.
    pub failure: Option<QueryError>,
}

impl SessionView {
    /// A session is well formed when what it holds agrees with its
    /// phase: a reply exactly when responded, a failure exactly when
    /// failed.
    pub open spec fn wf(self) -> bool {
        &&& (self.phase is Responded <==> self.response is Some)
        &&& (self.phase is Failed <==> self.failure is Some)
    }
}

/// The outside work owed in each phase. A read is owed only in the
/// paused phase, and a finished or failed exchange owes nothing.
pub open spec fn action_for(p: Phase) -> SessionAction {
    match p {
        Phase::Unopened => SessionAction::OpenPort,
        Phase::Opened => SessionAction::WriteCommand,
        Phase::Sent => SessionAction::Pause,
        Phase::Paused => SessionAction::ReadResponse,
        Phase::Responded => SessionAction::Finish,
        Phase::Failed => SessionAction::Finish,
    }
}

/// Which observations make sense in which phase: exactly the outcomes of
/// the action owed there. Terminal phases accept none.
pub open spec fn event_fits(p: Phase, ev: SessionEvent) -> bool {
    match p {
        Phase::Unopened => ev is PortOpened || ev is OpenFailed,
        Phase::Opened => ev is WroteBytes || ev is WriteFailed,
        Phase::Sent => ev is PauseElapsed,
        Phase::Paused => ev is ReadBytes || ev is ReadFailed,
        Phase::Responded => false,
        Phase::Failed => false,
    }
}

/// The phase after one observation, given the length in bytes of the
/// wire request that was to be written. A write that accepted fewer
/// bytes than the request holds is a failure: there is no retry.
pub open spec fn step_phase(p: Phase, ev: SessionEvent, wire_len: nat) -> Phase {
    match (p, ev) {
        (Phase::Unopened, SessionEvent::PortOpened) => Phase::Opened,
        (Phase::Unopened, SessionEvent::OpenFailed) => Phase::Failed,
        (Phase::Opened, SessionEvent::WroteBytes(n)) => if n as nat == wire_len {
            Phase::Sent
        } else {
            Phase::Failed
        },
        (Phase::Opened, SessionEvent::WriteFailed) => Phase::Failed,
        (Phase::Sent, SessionEvent::PauseElapsed) => Phase::Paused,
        (Phase::Paused, SessionEvent::ReadBytes(_)) => Phase::Responded,
        (Phase::Paused, SessionEvent::ReadFailed) => Phase::Failed,
        _ => p,
    }
}

/// The failure an observation records, if any: which error each way of
/// failing carries.
pub open spec fn step_failure(p: Phase, ev: SessionEvent, wire_len: nat) -> Option<QueryError> {
    match (p, ev) {
        (Phase::Unopened, SessionEvent::OpenFailed) => Some(QueryError::PortUnavailable),
        (Phase::Opened, SessionEvent::WroteBytes(n)) => if n as nat == wire_len {
            None
        } else {
            Some(QueryError::TransportWriteError)
        },
        (Phase::Opened, SessionEvent::WriteFailed) => Some(QueryError::TransportWriteError),
        (Phase::Paused, SessionEvent::ReadFailed) => Some(QueryError::TransportReadError),
        _ => None,
    }
}

/// One request/response exchange over a serial connection. The driver
/// around it owns the port; the session owns every decision.
pub struct Session {
    command: Command,
    phase: Phase,
    response: Option<Vec<u8>>,
    failure: Option<QueryError>,
}

impl View for Session {
    type V = SessionView;

    closed spec fn view(&self) -> SessionView {
        SessionView {
            command: self.command,
            phase: self.phase,
            response: match self.response {
                Some(v) => Some(v@),
                None => None,
            },
            failure: self.failure,
        }
    }
}

impl Session {
    /// A fresh session for one query: nothing opened, nothing held.
    pub fn new(command: Command) -> (s: Session)
        ensures
            s@.wf(),
            s@.command == command,
            s@.phase is Unopened,
            s@.response is None,
            s@.failure is None,
    {
        Session { command, phase: Phase::Unopened, response: None, failure: None }
    }

    /// The query this session carries out.
    pub fn command(&self) -> (c: Command)
        ensures
            c == self@.command,
    {
        self.command
    }

    /// Where the exchange stands.
    pub fn phase(&self) -> (p: Phase)
        ensures
            p == self@.phase,
    {
        self.phase
    }

    /// The request bytes this session sends, fixed by its command.
    pub fn wire_command(&self) -> (r: Vec<u8>)
        ensures
            r@ == self@.command.spec_wire_bytes(),
    {
        self.command.wire_bytes()
    }

    /// The outside work owed next.
    pub fn next_action(&self) -> (a: SessionAction)
        ensures
            a == action_for(self@.phase),
    {
        match self.phase {
            Phase::Unopened => SessionAction::OpenPort,
            Phase::Opened => SessionAction::WriteCommand,
            Phase::Sent => SessionAction::Pause,
            Phase::Paused => SessionAction::ReadResponse,
            Phase::Responded => SessionAction::Finish,
            Phase::Failed => SessionAction::Finish,
        }
    }

    /// Whether an observation makes sense where the exchange stands.
    pub fn fits(&self, ev: &SessionEvent) -> (b: bool)
        ensures
            b == event_fits(self@.phase, *ev),
    {
        match (self.phase, ev) {
            (Phase::Unopened, SessionEvent::PortOpened) => true,
            (Phase::Unopened, SessionEvent::OpenFailed) => true,
            (Phase::Opened, SessionEvent::WroteBytes(_)) => true,
            (Phase::Opened, SessionEvent::WriteFailed) => true,
            (Phase::Sent, SessionEvent::PauseElapsed) => true,
            (Phase::Paused, SessionEvent::ReadBytes(_)) => true,
            (Phase::Paused, SessionEvent::ReadFailed) => true,
            _ => false,
        }
    }

    /// Advance the exchange by one observation. The phase moves as
    /// `step_phase` says, the failure is recorded as `step_failure`
    /// says, and a read's bytes — even zero of them — are kept as the
    /// response.
    pub fn on_event(&mut self, ev: SessionEvent)
        requires
            old(self)@.wf(),
            event_fits(old(self)@.phase, ev),
        ensures
            final(self)@.wf(),
            final(self)@.command == old(self)@.command,
            final(self)@.phase == step_phase(
                old(self)@.phase,
                ev,
                old(self)@.command.spec_wire_bytes().len(),
            ),
            final(self)@.failure == step_failure(
                old(self)@.phase,
                ev,
                old(self)@.command.spec_wire_bytes().len(),
            ),
            ev matches SessionEvent::ReadBytes(b) ==> final(self)@.response == Some(b@),
            !(ev matches SessionEvent::ReadBytes(_)) ==> final(self)@.response is None,
    {
        match (self.phase, ev) {
            (Phase::Unopened, SessionEvent::PortOpened) => {
                self.phase = Phase::Opened;
            },
            (Phase::Unopened, SessionEvent::OpenFailed) => {
                self.phase = Phase::Failed;
                self.failure = Some(QueryError::PortUnavailable);
            },
            (Phase::Opened, SessionEvent::WroteBytes(n)) => {
                if n == self.command.wire_len() {
                    self.phase = Phase::Sent;
                } else {
                    self.phase = Phase::Failed;
                    self.failure = Some(QueryError::TransportWriteError);
                }
            },
            (Phase::Opened, SessionEvent::WriteFailed) => {
                self.phase = Phase::Failed;
                self.failure = Some(QueryError::TransportWriteError);
            },
            (Phase::Sent, SessionEvent::PauseElapsed) => {
                self.phase = Phase::Paused;
            },
            (Phase::Paused, SessionEvent::ReadBytes(b)) => {
                self.phase = Phase::Responded;
                self.response = Some(b);
            },
            (Phase::Paused, SessionEvent::ReadFailed) => {
                self.phase = Phase::Failed;
                self.failure = Some(QueryError::TransportReadError);
            },
            _ => {
            },
        }
    }

    /// Whether the exchange is over, one way or the other.
    pub fn is_finished(&self) -> (b: bool)
        ensures
            b == (self@.phase is Responded || self@.phase is Failed),
    {
        match self.phase {
            Phase::Responded => true,
            Phase::Failed => true,
            _ => false,
        }
    }

    /// The exchange's outcome: the reply bytes on success, the failure
    /// otherwise.
    pub fn into_outcome(self) -> (r: Result<Vec<u8>, QueryError>)
        requires
            self@.wf(),
            self@.phase is Responded || self@.phase is Failed,
        ensures
            self@.phase is Responded ==> (r matches Ok(b) && self@.response == Some(b@)),
            self@.phase is Failed ==> (r matches Err(e) && self@.failure == Some(e)),
    {
        match self.response {
            Some(b) => Ok(b),
            None => match self.failure {
                Some(e) => Err(e),
                None => unreached(),
            },
        }
    }
}

/// No read before the pause: a read is owed only in the paused phase,
/// and the paused phase is reached only from the sent phase by the pause
/// having elapsed. So every read comes after a completed quiescence
/// pause, which in turn comes after the write.
pub proof fn lemma_read_only_after_pause(p: Phase, ev: SessionEvent, wire_len: nat)
    requires
        event_fits(p, ev),
    ensures
        action_for(p) is ReadResponse ==> p is Paused,
        step_phase(p, ev, wire_len) is Paused ==> p is Sent && ev is PauseElapsed,
{
}

/// A read that hands back bytes completes the exchange as a response —
/// zero bytes included. An empty reply is success, not an error.
pub proof fn lemma_empty_read_is_success(b: Vec<u8>, wire_len: nat)
    ensures
        step_phase(Phase::Paused, SessionEvent::ReadBytes(b), wire_len) is Responded,
        step_failure(Phase::Paused, SessionEvent::ReadBytes(b), wire_len) is None,
{
}

/// A failed open records `PortUnavailable` and is terminal: a failed
/// exchange owes nothing further, so no write and no read follows it.
pub proof fn lemma_open_failure_is_terminal(wire_len: nat)
    ensures
        step_phase(Phase::Unopened, SessionEvent::OpenFailed, wire_len) is Failed,
        step_failure(Phase::Unopened, SessionEvent::OpenFailed, wire_len) == Some(
            QueryError::PortUnavailable,
        ),
        action_for(Phase::Failed) is Finish,
{
}

} // verus!
