//! Session layer for the CS 104 (TCP) flavour of the protocol: a builder for
//! the connection configuration and a typestate `Connection` that drives one
//! engine session handle through its lifecycle.
//!
//! The raw protocol engine (transport, APDU encoding, timers) is an outside
//! collaborator. The `Connection` owns exactly one session handle and records
//! every call it makes on that handle as an [`EngineOp`], in program order;
//! the contracts state which call each operation performs, with which
//! arguments, and how the transport state evolves. Commands that transfer
//! data are only offered by `Connection<Connected>`, so issuing them before
//! the handshake is a type error, not a runtime check.

use crate::cp56::Timestamp;
use crate::qoi::QualifierOfInterrogation;
use crate::qoi::qoi_code;
use crate::CommonAddr;
use vstd::prelude::*;

verus! {

broadcast use vstd::string::to_string_from_display_ensures_for_str;

/// The protocol's well-known TCP port, used when the builder is given none.
pub const IEC_60870_5_104_DEFAULT_PORT: u16 = 2404;

/// Why a command unit is sent. The engine consumes the single-byte code.
#[derive(Clone, Copy, Debug, PartialEq, Eq, Structural)]
pub enum CauseOfTransmission {
    Periodic,
    Background,
    Spontaneous,
    Initialized,
    Request,
    Activation,
    ActivationCon,
    Deactivation,
    DeactivationCon,
    ActivationTermination,
}

/// The code the standard assigns to each cause of transmission.
pub open spec fn cot_code(c: CauseOfTransmission) -> u8 {
    match c {
        CauseOfTransmission::Periodic => 1,
        CauseOfTransmission::Background => 2,
        CauseOfTransmission::Spontaneous => 3,
        CauseOfTransmission::Initialized => 4,
        CauseOfTransmission::Request => 5,
        CauseOfTransmission::Activation => 6,
        CauseOfTransmission::ActivationCon => 7,
        CauseOfTransmission::Deactivation => 8,
        CauseOfTransmission::DeactivationCon => 9,
        CauseOfTransmission::ActivationTermination => 10,
    }
}

impl CauseOfTransmission {
    /// Translates the cause to the byte the engine expects.
    pub fn as_u8(&self) -> (r: u8)
        ensures
            r == cot_code(*self),
    {
        match self {
            CauseOfTransmission::Periodic => 1,
            CauseOfTransmission::Background => 2,
            CauseOfTransmission::Spontaneous => 3,
            CauseOfTransmission::Initialized => 4,
            CauseOfTransmission::Request => 5,
            CauseOfTransmission::Activation => 6,
            CauseOfTransmission::ActivationCon => 7,
            CauseOfTransmission::Deactivation => 8,
            CauseOfTransmission::DeactivationCon => 9,
            CauseOfTransmission::ActivationTermination => 10,
        }
    }
}

/// One call the session layer makes on the engine's session handle.
#[derive(Clone, Copy, Debug, PartialEq, Eq)]
pub enum EngineOp {
    /// The connect operation: transport connection plus protocol handshake.
    /// Carries the outcome the engine reported.
    Connect { accepted: bool },
    /// The close operation: stop sequence and transport shutdown.
    Close,
    /// Start-data-transfer activation.
    StartDt,
    /// Stop-data-transfer request.
    StopDt,
    /// A general-interrogation command, with the byte codes handed over.
    Interrogation { cause: u8, station: i32, qualifier: u8 },
    /// A clock-synchronization test command carrying a timestamp by value.
    ClockSync { station: i32, test_id: u16, time: Timestamp },
    /// The destroy operation that releases the native handle.
    Destroy,
}

/// Whether the transport is open after the given call history: the last
/// lifecycle call decides, and destroy closes the transport itself.
pub open spec fn transport_open(log: Seq<EngineOp>) -> bool
    decreases log.len(),
{
    if log.len() == 0 {
        false
    } else {
        match log.last() {
            EngineOp::Connect { accepted } => accepted,
            EngineOp::Close => false,
            EngineOp::Destroy => false,
            _ => transport_open(log.drop_last()),
        }
    }
}

/// How many times the call history invoked the destroy operation.
pub open spec fn destroy_count(log: Seq<EngineOp>) -> nat
    decreases log.len(),
{
    if log.len() == 0 {
        0
    } else {
        destroy_count(log.drop_last()) + (if log.last() is Destroy {
            1nat
        } else {
            0nat
        })
    }
}

/// Appending one call to a history changes the transport state and the
/// destroy count exactly as that call prescribes.
pub proof fn lemma_log_push(log: Seq<EngineOp>, op: EngineOp)
    ensures
        transport_open(log.push(op)) == (match op {
            EngineOp::Connect { accepted } => accepted,
            EngineOp::Close => false,
            EngineOp::Destroy => false,
            _ => transport_open(log),
        }),
        destroy_count(log.push(op)) == destroy_count(log) + (if op is Destroy {
            1nat
        } else {
            0nat
        }),
{
    assert(log.push(op).drop_last() =~= log);
    assert(log.push(op).last() == op);
}

/// The abstract value of a session handle: the endpoint it was created for,
/// its local binding, and the calls made on it so far.
pub struct ConnectionView {
    pub remote_ip: Seq<char>,
    pub remote_port: u16,
    pub local_ip: Option<Seq<char>>,
    pub local_port: u16,
    pub log: Seq<EngineOp>,
}

/// Two session values wrap the same endpoint configuration.
pub open spec fn same_endpoint(a: ConnectionView, b: ConnectionView) -> bool {
    a.remote_ip == b.remote_ip && a.remote_port == b.remote_port && a.local_ip == b.local_ip
        && a.local_port == b.local_port
}

/// The configuration a builder has accumulated so far.
pub struct BuilderView {
    pub ip: Seq<char>,
    pub port: Option<u16>,
    pub local_ip: Option<Seq<char>>,
    pub local_port: Option<u16>,
}

/// Accumulates the connection configuration: the remote address, and
/// optionally a remote port and a local binding. Consumed by [`build`] to
/// produce an unconnected session.
///
/// [`build`]: ConnectionBuilder::build
#[derive(Debug)]
pub struct ConnectionBuilder {
    ip: String,
    port: Option<u16>,
    local_ip: Option<String>,
    local_port: Option<u16>,
}

impl View for ConnectionBuilder {
    type V = BuilderView;

    closed spec fn view(&self) -> BuilderView {
        BuilderView {
            ip: self.ip@,
            port: self.port,
            local_ip: (match self.local_ip {
                Some(s) => Some(s@),
                None => None,
            }),
            local_port: self.local_port,
        }
    }
}

impl ConnectionBuilder {
    /// Starts a configuration for the given remote address.
    pub fn new(ip: String) -> (b: ConnectionBuilder)
        ensures
            b@.ip == ip@,
            b@.port is None,
            b@.local_ip is None,
            b@.local_port is None,
    {
        ConnectionBuilder { ip, port: None, local_ip: None, local_port: None }
    }

    /// Selects the remote TCP port.
    pub fn with_port(self, port: u16) -> (b: ConnectionBuilder)
        ensures
            b@.ip == self@.ip,
            b@.port == Some(port),
            b@.local_ip == self@.local_ip,
            b@.local_port == self@.local_port,
    {
        ConnectionBuilder { port: Some(port), ..self }
    }

    /// Selects the local address to bind before connecting.
    pub fn with_local_ip(self, local_ip: String) -> (b: ConnectionBuilder)
        ensures
            b@.ip == self@.ip,
            b@.port == self@.port,
            b@.local_ip == Some(local_ip@),
            b@.local_port == self@.local_port,
    {
        ConnectionBuilder { local_ip: Some(local_ip), ..self }
    }

    /// Selects the local port to bind before connecting.
    pub fn with_local_port(self, local_port: u16) -> (b: ConnectionBuilder)
        ensures
            b@.ip == self@.ip,
            b@.port == self@.port,
            b@.local_ip == self@.local_ip,
            b@.local_port == Some(local_port),
    {
        ConnectionBuilder { local_port: Some(local_port), ..self }
    }

    /// Consumes the configuration and allocates one session handle for the
    /// remote endpoint, falling back to the protocol's well-known port. A
    /// local binding is configured only when a local address was given, with
    /// port zero (ephemeral) when no local port was set; the engine reports
    /// no failure for this step, so a bad binding surfaces later at connect
    /// time. The session starts disconnected with an empty call history.
    pub fn build(self) -> (c: Connection<Disconnected>)
        ensures
            c@.remote_ip == self@.ip,
            c@.remote_port == (match self@.port {
                Some(p) => p,
                None => IEC_60870_5_104_DEFAULT_PORT,
            }),
            c@.local_ip == self@.local_ip,
            c@.local_port == (match self@.local_ip {
                Some(_) => (match self@.local_port {
                    Some(p) => p,
                    None => 0u16,
                }),
                None => 0u16,
            }),
            c@.log == Seq::<EngineOp>::empty(),
            c.wf(),
    {
        let ConnectionBuilder { ip, port, local_ip, local_port } = self;
        let remote_port: u16 = match port {
            Some(p) => p,
            None => IEC_60870_5_104_DEFAULT_PORT,
        };
        let bind_port: u16 = match local_ip {
            Some(_) => (match local_port {
                Some(p) => p,
                None => 0,
            }),
            None => 0,
        };
        let log: Vec<EngineOp> = Vec::new();
        proof {
            assert(log@ =~= Seq::<EngineOp>::empty());
        }
        Connection {
            remote_ip: ip,
            remote_port,
            local_ip,
            local_port: bind_port,
            log,
            state: Disconnected,
        }
    }
}

/// The error a failed connect reports: recoverable, the caller keeps the
/// disconnected session and may retry.
#[derive(Debug)]
pub enum ConnectionError {
    Failed(String),
}

impl ConnectionError {
    /// The human-readable failure description the error carries.
    pub fn message(&self) -> (m: &String)
        ensures
            (match self {
                ConnectionError::Failed(s) => m@ == s@,
            }),
    {
        match self {
            ConnectionError::Failed(s) => s,
        }
    }
}

/// Typestate tag of a session whose handshake has completed.
pub struct Connected;

/// Typestate tag of a session whose transport is closed.
pub struct Disconnected;

/// A session owning exactly one engine handle. The type parameter is the
/// lifecycle state: commands are only expressible on
/// `Connection<Connected>`, and every transition consumes the old value, so
/// exactly one live session wraps the handle at any time.
pub struct Connection<S> {
    remote_ip: String,
    remote_port: u16,
    local_ip: Option<String>,
    local_port: u16,
    log: Vec<EngineOp>,
    state: S,
}

impl<S> View for Connection<S> {
    type V = ConnectionView;

    closed spec fn view(&self) -> ConnectionView {
        ConnectionView {
            remote_ip: self.remote_ip@,
            remote_port: self.remote_port,
            local_ip: (match self.local_ip {
                Some(s) => Some(s@),
                None => None,
            }),
            local_port: self.local_port,
            log: self.log@,
        }
    }
}

impl<S> Connection<S> {
    /// The remote address the handle was created for.
    pub fn address(&self) -> (r: &String)
        ensures
            r@ == self@.remote_ip,
    {
        &self.remote_ip
    }

    /// The remote TCP port the handle was created for.
    pub fn port(&self) -> (r: u16)
        ensures
            r == self@.remote_port,
    {
        self.remote_port
    }

    /// The local binding address, if one was configured.
    pub fn local_address(&self) -> (r: &Option<String>)
        ensures
            (match r {
                Some(s) => self@.local_ip == Some(s@),
                None => self@.local_ip is None,
            }),
    {
        &self.local_ip
    }

    /// The local binding port (zero when ephemeral or unbound).
    pub fn local_bind_port(&self) -> (r: u16)
        ensures
            r == self@.local_port,
    {
        self.local_port
    }

    /// Every call made on the handle so far, in program order.
    pub fn engine_log(&self) -> (l: &Vec<EngineOp>)
        ensures
            l@ == self@.log,
    {
        &self.log
    }

    /// Ends the session's life from either state: invokes the engine's
    /// destroy operation on the handle, exactly once over the handle's whole
    /// history, and the destroy step closes the transport itself — no prior
    /// disconnect is required.
    pub fn release(self) -> (r: ReleasedSession)
        requires
            destroy_count(self@.log) == 0,
        ensures
            same_endpoint(r@, self@),
            r@.log == self@.log.push(EngineOp::Destroy),
            destroy_count(r@.log) == 1,
            !transport_open(r@.log),
    {
        proof {
            lemma_log_push(self@.log, EngineOp::Destroy);
        }
        let Connection { remote_ip, remote_port, local_ip, local_port, log, state: _ } = self;
        let mut log = log;
        log.push(EngineOp::Destroy);
        ReleasedSession { remote_ip, remote_port, local_ip, local_port, log }
    }
}

impl Connection<Disconnected> {
    /// A disconnected session is a live handle (never destroyed) whose
    /// transport is closed.
    pub open spec fn wf(self) -> bool {
        !transport_open(self@.log) && destroy_count(self@.log) == 0
    }

    /// Invokes the engine's connect operation: transport connection plus
    /// protocol handshake, whose outcome the engine reports as `accepted`.
    /// On success the same handle is handed on, re-tagged connected; no
    /// second handle comes into being. On failure the caller gets the
    /// disconnected session back, usable for a retry, together with the
    /// error and its description.
    #[must_use]
    pub fn connect(self, accepted: bool) -> (r: Result<
        Connection<Connected>,
        (Connection<Disconnected>, ConnectionError),
    >)
        requires
            self.wf(),
        ensures
            accepted ==> (r matches Ok(c) && same_endpoint(c@, self@) && c@.log == self@.log.push(
                EngineOp::Connect { accepted: true },
            ) && c.wf()),
            !accepted ==> (r matches Err((s, e)) && same_endpoint(s@, self@) && s@.log
                == self@.log.push(EngineOp::Connect { accepted: false }) && s.wf() && (
            e matches ConnectionError::Failed(m) && m@ == "Failed to connect"@)),
    {
        proof {
            lemma_log_push(self@.log, EngineOp::Connect { accepted });
        }
        let Connection { remote_ip, remote_port, local_ip, local_port, log, state: _ } = self;
        let mut log = log;
        log.push(EngineOp::Connect { accepted });
        if accepted {
            Ok(Connection { remote_ip, remote_port, local_ip, local_port, log, state: Connected })
        } else {
            Err(
                (
                    Connection {
                        remote_ip,
                        remote_port,
                        local_ip,
                        local_port,
                        log,
                        state: Disconnected,
                    },
                    ConnectionError::Failed("Failed to connect".to_string()),
                ),
            )
        }
    }
}

impl Connection<Connected> {
    /// A connected session is a live handle (never destroyed) whose
    /// transport is open.
    pub open spec fn wf(self) -> bool {
        transport_open(self@.log) && destroy_count(self@.log) == 0
    }

    /// Invokes the engine's close operation (stop sequence and transport
    /// shutdown). Unconditionally succeeds and hands the same handle on,
    /// re-tagged disconnected.
    #[must_use]
    pub fn disconnect(self) -> (c: Connection<Disconnected>)
        requires
            self.wf(),
        ensures
            same_endpoint(c@, self@),
            c@.log == self@.log.push(EngineOp::Close),
            c.wf(),
    {
        proof {
            lemma_log_push(self@.log, EngineOp::Close);
        }
        let Connection { remote_ip, remote_port, local_ip, local_port, log, state: _ } = self;
        let mut log = log;
        log.push(EngineOp::Close);
        Connection { remote_ip, remote_port, local_ip, local_port, log, state: Disconnected }
    }

    /// Sends the start-data-transfer activation. Fire and forget: the engine
    /// reports no outcome.
    pub fn start_transmission(&mut self)
        requires
            old(self).wf(),
        ensures
            final(self).wf(),
            same_endpoint(final(self)@, old(self)@),
            final(self)@.log == old(self)@.log.push(EngineOp::StartDt),
    {
        proof {
            lemma_log_push(self@.log, EngineOp::StartDt);
        }
        self.log.push(EngineOp::StartDt);
    }

    /// Sends the stop-data-transfer request. Fire and forget.
    pub fn stop_transmission(&mut self)
        requires
            old(self).wf(),
        ensures
            final(self).wf(),
            same_endpoint(final(self)@, old(self)@),
            final(self)@.log == old(self)@.log.push(EngineOp::StopDt),
    {
        proof {
            lemma_log_push(self@.log, EngineOp::StopDt);
        }
        self.log.push(EngineOp::StopDt);
    }

    /// Forwards a general-interrogation command: the qualifier is translated
    /// through the qualifier mapping and the cause through its code table,
    /// and exactly those bytes are handed to the engine for the given
    /// station. Fire and forget.
    pub fn send_interrogation_command(
        &mut self,
        command: CauseOfTransmission,
        qualifier: QualifierOfInterrogation,
        server_addr: CommonAddr,
    )
        requires
            old(self).wf(),
        ensures
            final(self).wf(),
            same_endpoint(final(self)@, old(self)@),
            final(self)@.log == old(self)@.log.push(
                EngineOp::Interrogation {
                    cause: cot_code(command),
                    station: server_addr.0,
                    qualifier: qoi_code(qualifier),
                },
            ),
    {
        let cause: u8 = command.as_u8();
        let qualifier_byte: u8 = qualifier.as_u8();
        proof {
            lemma_log_push(
                self@.log,
                EngineOp::Interrogation {
                    cause: cot_code(command),
                    station: server_addr.0,
                    qualifier: qoi_code(qualifier),
                },
            );
        }
        self.log.push(
            EngineOp::Interrogation { cause, station: server_addr.0, qualifier: qualifier_byte },
        );
    }

    /// Forwards a clock-synchronization test command carrying the 16-bit
    /// test identifier and the timestamp for the given station. The engine
    /// reads the timestamp by value: exactly the bytes passed in are handed
    /// over, and nothing can mutate them during or after the call. Fire and
    /// forget.
    pub fn send_test_command_with_timestamp(
        &mut self,
        command: u16,
        timestamp: Timestamp,
        server_addr: CommonAddr,
    )
        requires
            old(self).wf(),
        ensures
            final(self).wf(),
            same_endpoint(final(self)@, old(self)@),
            final(self)@.log == old(self)@.log.push(
                EngineOp::ClockSync {
                    station: server_addr.0,
                    test_id: command,
                    time: timestamp,
                },
            ),
    {
        proof {
            lemma_log_push(
                self@.log,
                EngineOp::ClockSync { station: server_addr.0, test_id: command, time: timestamp },
            );
        }
        self.log.push(
            EngineOp::ClockSync { station: server_addr.0, test_id: command, time: timestamp },
        );
    }
}

/// The record a released session leaves behind: the endpoint it wrapped and
/// the full call history, ending in the one destroy call.
pub struct ReleasedSession {
    remote_ip: String,
    remote_port: u16,
    local_ip: Option<String>,
    local_port: u16,
    log: Vec<EngineOp>,
}

impl View for ReleasedSession {
    type V = ConnectionView;

    closed spec fn view(&self) -> ConnectionView {
        ConnectionView {
            remote_ip: self.remote_ip@,
            remote_port: self.remote_port,
            local_ip: (match self.local_ip {
                Some(s) => Some(s@),
                None => None,
            }),
            local_port: self.local_port,
            log: self.log@,
        }
    }
}

impl ReleasedSession {
    /// Every call made on the handle over its whole life, in program order.
    pub fn engine_log(&self) -> (l: &Vec<EngineOp>)
        ensures
            l@ == self@.log,
    {
        &self.log
    }

    /// Counts the destroy calls in the history; one, for any session the
    /// library released.
    pub fn destroy_calls(&self) -> (n: usize)
        ensures
            n as nat == destroy_count(self@.log),
    {
        let mut n: usize = 0;
        let mut i: usize = 0;
        while i < self.log.len()
            invariant
                i <= self@.log.len(),
                n <= i,
                n as nat == destroy_count(self@.log.take(i as int)),
            decreases self@.log.len() - i,
        {
            proof {
                assert(self@.log.take(i + 1).drop_last() =~= self@.log.take(i as int));
                assert(self@.log.take(i + 1).last() == self@.log[i as int]);
            }
            let op: EngineOp = self.log[i];
            if let EngineOp::Destroy = op {
                n = n + 1;
            }
            i = i + 1;
        }
        proof {
            assert(self@.log.take(self@.log.len() as int) =~= self@.log);
        }
        n
    }
}

} // verus!
