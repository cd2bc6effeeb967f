//! Readiness probing: a bounded sequence of connection attempts against one
//! TCP endpoint, with a pause after each attempt.
//!
//! [`Prober`] holds the bookkeeping. The caller asks it what to do next,
//! attempts the connection when told to, reports whether it succeeded, and
//! sleeps for the pause it gets back.

use vstd::prelude::*;

verus! {

/// Port on which the backend listens unless told otherwise.
pub const DEFAULT_PORT: u16 = 8000;

/// Number of connection attempts made before giving up.
pub const DEFAULT_MAX_ATTEMPTS: u32 = 120;

/// Pause after a failed attempt, in milliseconds.
pub const DEFAULT_BACKOFF_MS: u64 = 250;

/// Pause after the first successful attempt, in milliseconds. The listener
/// may accept connections a little before the server behind it can answer.
pub const DEFAULT_SETTLE_MS: u64 = 300;

/// The endpoint to probe and the budget for probing it.
#[derive(Debug, PartialEq, Eq)]
pub struct ReadinessTarget {
    pub host: String,
    pub port: u16,
    pub max_attempts: u32,
    pub backoff_ms: u64,
    pub settle_ms: u64,
}

/// A [`ReadinessTarget`] as contracts see it.
pub struct TargetModel {
    pub host: Seq<char>,
    pub port: nat,
    pub max_attempts: nat,
    pub backoff_ms: nat,
    pub settle_ms: nat,
}

impl View for ReadinessTarget {
    type V = TargetModel;

    open spec fn view(&self) -> TargetModel {
        TargetModel {
            host: self.host@,
            port: self.port as nat,
            max_attempts: self.max_attempts as nat,
            backoff_ms: self.backoff_ms as nat,
            settle_ms: self.settle_ms as nat,
        }
    }
}

/// The loopback endpoint with the default budget, as contracts see it.
pub open spec fn default_target_model() -> TargetModel {
    TargetModel {
        host: "127.0.0.1"@,
        port: 8000,
        max_attempts: 120,
        backoff_ms: 250,
        settle_ms: 300,
    }
}

impl ReadinessTarget {
    /// The loopback endpoint on the default port, with the default budget.
    pub fn loopback() -> (target: ReadinessTarget)
        ensures
            target@ == default_target_model(),
    {
        ReadinessTarget {
            host: "127.0.0.1".to_owned(),
            port: DEFAULT_PORT,
            max_attempts: DEFAULT_MAX_ATTEMPTS,
            backoff_ms: DEFAULT_BACKOFF_MS,
            settle_ms: DEFAULT_SETTLE_MS,
        }
    }
}

/// What a probe found: whether the endpoint accepted a connection, and how
/// many attempts were made.
#[derive(Clone, Copy, Debug, PartialEq, Eq, Structural)]
pub struct ReadinessOutcome {
    pub ready: bool,
    pub attempts: u32,
}

/// The bookkeeping of one probe, as contracts see it.
pub struct ProberModel {
    pub target: TargetModel,
    /// Connection attempts reported so far.
    pub attempts: nat,
    /// Whether the last reported attempt connected.
    pub ready: bool,
}

/// A probe of `target` before its first attempt.
pub open spec fn model_start(target: TargetModel) -> ProberModel {
    ProberModel { target, attempts: 0, ready: false }
}

/// A probe is over once an attempt connected or the budget is used up.
pub open spec fn model_finished(m: ProberModel) -> bool {
    m.ready || m.attempts >= m.target.max_attempts
}

/// The probe after one more attempt was reported. A finished probe takes no
/// further reports.
pub open spec fn model_record(m: ProberModel, connected: bool) -> ProberModel {
    if model_finished(m) {
        m
    } else {
        ProberModel { target: m.target, attempts: m.attempts + 1, ready: connected }
    }
}

/// The pause owed after reporting an attempt to `m`: the settle delay after
/// a connection, the backoff after a failure, nothing once the probe is over.
pub open spec fn model_pause(m: ProberModel, connected: bool) -> nat {
    if model_finished(m) {
        0
    } else if connected {
        m.target.settle_ms
    } else {
        m.target.backoff_ms
    }
}

/// The probe after the attempts in `results` were reported in order.
pub open spec fn model_run(m: ProberModel, results: Seq<bool>) -> ProberModel
    decreases results.len(),
{
    if results.len() == 0 {
        m
    } else {
        model_run(model_record(m, results[0]), results.drop_first())
    }
}

/// The sum of the pauses owed while the attempts in `results` were reported
/// in order, in milliseconds.
pub open spec fn model_waited(m: ProberModel, results: Seq<bool>) -> nat
    decreases results.len(),
{
    if results.len() == 0 {
        0
    } else {
        model_pause(m, results[0]) + model_waited(
            model_record(m, results[0]),
            results.drop_first(),
        )
    }
}

/// What the caller of a [`Prober`] does next.
#[derive(Clone, Copy, Debug, PartialEq, Eq, Structural)]
pub enum ProbeStep {
    /// Attempt one connection to the target and report the result.
    Connect,
    /// The probe is over, with this outcome.
    Finish(ReadinessOutcome),
}

/// The step that the bookkeeping `m` calls for.
pub open spec fn model_next(m: ProberModel) -> ProbeStep
    recommends
        m.attempts <= u32::MAX,
{
    if model_finished(m) {
        ProbeStep::Finish(ReadinessOutcome { ready: m.ready, attempts: m.attempts as u32 })
    } else {
        ProbeStep::Connect
    }
}

/// One probe in progress.
pub struct Prober {
    target: ReadinessTarget,
    attempts: u32,
    ready: bool,
}

impl View for Prober {
    type V = ProberModel;

    closed spec fn view(&self) -> ProberModel {
        ProberModel { target: self.target@, attempts: self.attempts as nat, ready: self.ready }
    }
}

impl Prober {
    /// A probe of `target` with no attempt made yet.
    pub fn new(target: ReadinessTarget) -> (prober: Prober)
        ensures
            prober@ == model_start(target@),
    {
        Prober { target, attempts: 0, ready: false }
    }

    /// The endpoint and budget of this probe.
    pub fn target(&self) -> (target: &ReadinessTarget)
        ensures
            target@ == self@.target,
    {
        &self.target
    }

    /// What to do next: attempt a connection, or stop with the outcome.
    pub fn next(&self) -> (step: ProbeStep)
        ensures
            step == model_next(self@),
    {
        if self.ready || self.attempts >= self.target.max_attempts {
            ProbeStep::Finish(ReadinessOutcome { ready: self.ready, attempts: self.attempts })
        } else {
            ProbeStep::Connect
        }
    }

    /// Reports the result of one connection attempt and returns how long to
    /// pause before asking for the next step, in milliseconds. On a probe
    /// that is already over this changes nothing and returns 0.
    pub fn record(&mut self, connected: bool) -> (pause_ms: u64)
        ensures
            final(self)@ == model_record(old(self)@, connected),
            pause_ms == model_pause(old(self)@, connected),
    {
        if self.ready || self.attempts >= self.target.max_attempts {
            0
        } else {
            self.attempts = self.attempts + 1;
            self.ready = connected;
            if connected {
                self.target.settle_ms
            } else {
                self.target.backoff_ms
            }
        }
    }
}

} // verus!
