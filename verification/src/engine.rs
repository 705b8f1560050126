//! The protocol engine's process-wide lifecycle and its processing
//! context.
//!
//! At most one engine may be alive in a process at a time: the underlying
//! transport is not assumed to tolerate concurrent access. The lifecycle
//! state lives in an explicit [`CoapRuntime`] value of which the embedding
//! program keeps exactly one; starting the engine is a guarded transition
//! on it, and releasing the engine unconditionally re-enables a future
//! start.
//!
//! A context drives network I/O in bounded steps. The I/O itself is
//! performed by the embedding program; the decision what each step's
//! outcome means — keep polling, finish, or fail — is taken here, by
//! [`CoapContext::run_step`].

use crate::error::CoapError;
use crate::token::CoapToken;
use vstd::prelude::*;

verus! {

/// Severity threshold applied to the engine's two logging paths.
#[derive(Copy, Clone, Debug, PartialEq, Eq, Structural)]
pub enum CoapLogLevel {
    Emergency,
    Alert,
    Critical,
    Error,
    Warning,
    Notice,
    Info,
    Debug,
}

impl CoapLogLevel {
    /// The numeric severity of a level, emergency lowest.
    pub open spec fn spec_code(self) -> u8 {
        match self {
            CoapLogLevel::Emergency => 0,
            CoapLogLevel::Alert => 1,
            CoapLogLevel::Critical => 2,
            CoapLogLevel::Error => 3,
            CoapLogLevel::Warning => 4,
            CoapLogLevel::Notice => 5,
            CoapLogLevel::Info => 6,
            CoapLogLevel::Debug => 7,
        }
    }

    /// The numeric severity of this level.
    pub fn code(&self) -> (r: u8)
        ensures
            r == self.spec_code(),
    {
        match self {
            CoapLogLevel::Emergency => 0,
            CoapLogLevel::Alert => 1,
            CoapLogLevel::Critical => 2,
            CoapLogLevel::Error => 3,
            CoapLogLevel::Warning => 4,
            CoapLogLevel::Notice => 5,
            CoapLogLevel::Info => 6,
            CoapLogLevel::Debug => 7,
        }
    }
}

/// The process-wide lifecycle state of the transport subsystem. The
/// embedding program keeps exactly one value of this type for the whole
/// process and threads it through every engine start and release.
pub struct CoapRuntime {
    engine_alive: bool,
}

impl CoapRuntime {
    /// Whether an engine instance is currently alive.
    pub closed spec fn spec_engine_alive(self) -> bool {
        self.engine_alive
    }

    /// Whether a start would succeed: exactly when no instance is alive.
    pub open spec fn spec_start_allowed(self) -> bool {
        !self.spec_engine_alive()
    }

    /// The state after an engine instance was released.
    pub closed spec fn spec_released(self) -> CoapRuntime {
        CoapRuntime { engine_alive: false }
    }

    /// The state after an engine instance was started.
    pub closed spec fn spec_started(self) -> CoapRuntime {
        CoapRuntime { engine_alive: true }
    }

    /// A fresh process: no engine alive yet.
    pub fn new() -> (r: Self)
        ensures
            !r.spec_engine_alive(),
    {
        CoapRuntime { engine_alive: false }
    }

    /// Whether an engine instance is currently alive.
    pub fn engine_alive(&self) -> (r: bool)
        ensures
            r == self.spec_engine_alive(),
    {
        self.engine_alive
    }
}

/// A second start while an instance is alive is refused; once the
/// instance is released, a start is allowed again, whatever the earlier
/// state was.
pub proof fn lemma_engine_singleton(runtime: CoapRuntime)
    ensures
        runtime.spec_engine_alive() ==> !runtime.spec_start_allowed(),
        runtime.spec_released().spec_start_allowed(),
        runtime.spec_started().spec_engine_alive(),
{
}

/// One live protocol engine instance: owns the transport subsystem and
/// the logging configuration for its lifetime.
pub struct Coap {
    log_level: CoapLogLevel,
}

impl Coap {
    /// The severity threshold this engine applies to both the plain and
    /// the secured-transport logging paths.
    pub closed spec fn spec_log_level(self) -> CoapLogLevel {
        self.log_level
    }

    /// Starts the engine: a process-wide compare-and-set guard. Succeeds
    /// exactly when no other instance is alive, and then applies the
    /// requested log level (emergency-only when none is given) to both
    /// logging paths.
    pub fn new(runtime: &mut CoapRuntime, log_level: Option<CoapLogLevel>) -> (r: Result<
        Coap,
        CoapError,
    >)
        ensures
            old(runtime).spec_engine_alive() ==> r == Err::<Coap, CoapError>(
                CoapError::AlreadyInitialized,
            ) && *final(runtime) == *old(runtime),
            !old(runtime).spec_engine_alive() ==> {
                &&& *final(runtime) == old(runtime).spec_started()
                &&& r is Ok
                &&& r->Ok_0.spec_log_level() == (match log_level {
                    Some(l) => l,
                    None => CoapLogLevel::Emergency,
                })
            },
    {
        if runtime.engine_alive {
            Err(CoapError::AlreadyInitialized)
        } else {
            runtime.engine_alive = true;
            let level = match log_level {
                Some(l) => l,
                None => CoapLogLevel::Emergency,
            };
            Ok(Coap { log_level: level })
        }
    }

    /// The severity threshold this engine runs with.
    pub fn log_level(&self) -> (r: CoapLogLevel)
        ensures
            r == self.spec_log_level(),
    {
        self.log_level
    }

    /// Releases the engine: tears the transport subsystem down and
    /// unconditionally re-enables a future start.
    pub fn shutdown(self, runtime: &mut CoapRuntime)
        ensures
            *final(runtime) == old(runtime).spec_released(),
            !final(runtime).spec_engine_alive(),
    {
        runtime.engine_alive = false;
    }

    /// Allocates a processing context: block-wise transfers are reassembled
    /// into a single body before dispatch, and the three dispatch hooks
    /// (response, transport event, negative acknowledgement) are
    /// registered. No listen window is open yet.
    pub fn new_context(&self) -> (r: Result<CoapContext, CoapError>)
        ensures
            r is Ok,
            r->Ok_0.spec_single_body(),
            r->Ok_0.spec_handlers_registered(),
            !r->Ok_0.spec_listening(),
    {
        Ok(CoapContext { single_body: true, handlers_registered: true, listening: false })
    }
}

/// What one network-I/O step's outcome means for the run loop.
#[derive(Copy, Clone, Debug, PartialEq, Eq, Structural)]
pub enum RunStep {
    /// Keep polling: nothing final happened in this step.
    Poll,
    /// The requested time budget has elapsed: the run ends successfully.
    Complete,
    /// The step failed fatally: the run ends with an I/O error.
    Fail,
}

/// The run loop's verdict on one I/O step: a step result of -1 is a fatal
/// failure; otherwise, a step whose measured elapsed milliseconds land
/// within 5 ms of the requested total budget ends the run successfully;
/// every other outcome keeps the loop polling. With no budget given the
/// loop blocks until I/O is available, potentially forever: only a fatal
/// failure can end it.
pub open spec fn spec_run_step(timeout_ms: Option<u32>, io_result: i32) -> RunStep {
    if io_result == -1 {
        RunStep::Fail
    } else if match timeout_ms {
        Some(t) => -5 < io_result - t < 5,
        None => false,
    } {
        RunStep::Complete
    } else {
        RunStep::Poll
    }
}

/// One protocol processing context: callback registrations and pending
/// I/O. Response dispatch is scoped to one run at a time: a listen window
/// is opened right before the I/O loop starts and closed right after it
/// ends or fails.
pub struct CoapContext {
    single_body: bool,
    handlers_registered: bool,
    listening: bool,
}

impl CoapContext {
    /// Whether block-wise transfers are reassembled into a single body
    /// before dispatch.
    pub closed spec fn spec_single_body(self) -> bool {
        self.single_body
    }

    /// Whether the three dispatch hooks are registered.
    pub closed spec fn spec_handlers_registered(self) -> bool {
        self.handlers_registered
    }

    /// Whether a listen window is open: responses are handed to the
    /// response handler only inside one.
    pub closed spec fn spec_listening(self) -> bool {
        self.listening
    }

    /// Decides what one I/O step's outcome means for the current run.
    pub fn run_step(timeout_ms: Option<u32>, io_result: i32) -> (r: RunStep)
        ensures
            r == spec_run_step(timeout_ms, io_result),
    {
        if io_result == -1 {
            RunStep::Fail
        } else {
            match timeout_ms {
                Some(t) => {
                    let d: i64 = io_result as i64 - t as i64;
                    if -5 < d && d < 5 {
                        RunStep::Complete
                    } else {
                        RunStep::Poll
                    }
                },
                None => RunStep::Poll,
            }
        }
    }

    /// Opens the listen window for one run: the response handler slot is
    /// taken for the duration of this run and no other.
    pub fn begin_run(&mut self)
        ensures
            final(self).spec_listening(),
            final(self).spec_single_body() == old(self).spec_single_body(),
            final(self).spec_handlers_registered() == old(self).spec_handlers_registered(),
    {
        self.listening = true;
    }

    /// Closes the listen window, on the success and on the error path
    /// alike: no stale handler survives the run that registered it.
    pub fn end_run(&mut self)
        ensures
            !final(self).spec_listening(),
            final(self).spec_single_body() == old(self).spec_single_body(),
            final(self).spec_handlers_registered() == old(self).spec_handlers_registered(),
    {
        self.listening = false;
    }

    /// Reports a transport lifecycle event (connection established or
    /// closed, renegotiation, ICMP failure, retry exhaustion). The
    /// engine deliberately takes no action on these yet — whether to
    /// reconnect or back off is an open extension point — but the hook
    /// stays, since the transport always reports through it.
    pub fn dispatch_event(&self, event: u32) -> (r: i32)
        ensures
            r == 0,
    {
        let _ = event;
        0
    }

    /// Reports a negative acknowledgement for a sent message. Like
    /// transport events, deliberately not acted upon yet.
    pub fn dispatch_nack(&self, reason: u32) {
        let _ = reason;
    }

    /// Dispatches one received response: when a listen window is open and
    /// the response carries a reassembled payload, the response handler
    /// gets the response's token and that payload; everything else is
    /// dropped. No token-matching filter is applied at this layer — the
    /// caller re-checks relevance per token.
    pub fn dispatch_response(&self, token: CoapToken, payload: Option<Vec<u8>>) -> (r: Option<
        (CoapToken, Vec<u8>),
    >)
        ensures
            r is Some <==> self.spec_listening() && payload is Some,
            r is Some ==> (r->0).0 == token && (r->0).1@ == payload->0@,
    {
        if self.listening {
            match payload {
                Some(p) => Some((token, p)),
                None => None,
            }
        } else {
            None
        }
    }
}

/// With no time budget, a run blocks until at least one I/O event is
/// available: no step outcome other than a fatal failure ends the loop,
/// so the run never returns success merely because time passed.
pub proof fn lemma_blocking_run_never_completes(io_result: i32)
    ensures
        io_result != -1 ==> spec_run_step(None, io_result) == RunStep::Poll,
        io_result == -1 ==> spec_run_step(None, io_result) == RunStep::Fail,
        spec_run_step(None, io_result) != RunStep::Complete,
{
}

} // verus!
