//! The reconciliation policy: one decision per cycle, from the hostname the
//! advertising service reported (or the failure to obtain it) to the action
//! and the log entry the cycle calls for.

use vstd::prelude::*;
use crate::config::{opt_chars, spec_resolve, Config, StartupError};
use crate::trim::{is_trimmed, lemma_trim_of_trimmed, spec_trim, trim};

verus! {

/// Why a cycle could not learn the currently advertised hostname. None of
/// these is fatal: the cycle ends early and the next poll retries.
#[derive(Clone, Copy, Debug, PartialEq, Eq)]
pub enum QueryError {
    /// The bus itself could not be reached.
    ConnectionFailed,
    /// The bus answered, but the method call was rejected or the service is
    /// not running.
    CallFailed,
    /// The service answered with an empty (or all-whitespace) hostname.
    EmptyResponse,
}

/// Why a requested restart of the unit did not happen. Logged, never
/// retried within the same cycle.
#[derive(Clone, Copy, Debug, PartialEq, Eq)]
pub enum RestartError {
    /// The bus itself could not be reached.
    ConnectionFailed,
    /// The restart call was rejected (unknown unit, permission denied).
    CallRejected,
}

/// Severity of a log entry the policy asks for.
#[derive(Clone, Copy, Debug, PartialEq, Eq)]
pub enum Severity {
    Error,
    Info,
    Debug,
}

/// The decision a single query outcome leads to.
#[derive(Debug, PartialEq, Eq)]
pub enum CycleStep {
    /// The cycle is inconclusive: log the query failure at error severity,
    /// attempt no restart, and wait for the next tick.
    Skip(QueryError),
    /// Advertised and reference hostname agree: log at debug severity.
    Converged,
    /// They differ: log at informational severity and restart the carried
    /// unit.
    Diverge(String),
}

/// What one whole cycle amounted to, restart outcome included.
#[derive(Debug, PartialEq, Eq)]
pub enum CycleReport {
    /// The query failed: nothing was learned, nothing restarted.
    Inconclusive(QueryError),
    /// The advertised hostname matched the reference.
    Consistent,
    /// A mismatch was seen and the unit (first field) was restarted; the
    /// second field is the job token the restart call returned.
    Restarted(String, String),
    /// A mismatch was seen, the restart of the unit (first field) was
    /// requested and failed.
    RestartFailed(String, RestartError),
}

/// What one simulated cycle observes of the outside world: the outcome of
/// the hostname query, and the outcome the restart call would have (read
/// only in cycles that issue one).
#[derive(Debug, PartialEq, Eq)]
pub struct Observation {
    pub query: Result<String, QueryError>,
    pub restart: Result<String, RestartError>,
}

/// An observed hostname is usable when something is left of it after
/// trimming; an empty answer counts as a failed query, not as a mismatch.
pub open spec fn observation_usable(observed: Seq<char>) -> bool {
    spec_trim(observed).len() > 0
}

/// The comparison policy: trimmed, case-sensitive, byte-for-byte equality.
pub open spec fn hostnames_agree(reference: Seq<char>, observed: Seq<char>) -> bool {
    spec_trim(observed) == reference
}

/// Whether a cycle that observed `observed` against `reference` must
/// restart the unit.
pub open spec fn restart_needed(reference: Seq<char>, observed: Seq<char>) -> bool {
    observation_usable(observed) && !hostnames_agree(reference, observed)
}

/// The step a query outcome leads to, as `Monitor::evaluate` decides it.
pub open spec fn step_matches(
    reference: Seq<char>,
    unit: Seq<char>,
    query: Result<String, QueryError>,
    step: CycleStep,
) -> bool {
    match query {
        Result::Err(e) => step == CycleStep::Skip(e),
        Result::Ok(h) => if !observation_usable(h@) {
            step == CycleStep::Skip(QueryError::EmptyResponse)
        } else if hostnames_agree(reference, h@) {
            step == CycleStep::Converged
        } else {
            step matches CycleStep::Diverge(u) && u@ == unit
        },
    }
}

/// The report a whole cycle's observation leads to, restart outcome
/// included, as `Monitor::run_cycles` produces it.
pub open spec fn report_matches(
    reference: Seq<char>,
    unit: Seq<char>,
    obs: Observation,
    rep: CycleReport,
) -> bool {
    match obs.query {
        Result::Err(e) => rep == CycleReport::Inconclusive(e),
        Result::Ok(h) => if !observation_usable(h@) {
            rep == CycleReport::Inconclusive(QueryError::EmptyResponse)
        } else if hostnames_agree(reference, h@) {
            rep == CycleReport::Consistent
        } else {
            match obs.restart {
                Result::Ok(tok) => rep matches CycleReport::Restarted(u, t) && u@ == unit && t@
                    == tok@,
                Result::Err(e) => rep matches CycleReport::RestartFailed(u, e2) && u@ == unit && e2
                    == e,
            }
        },
    }
}

/// The severity each report is logged at: failures at error, a restart at
/// informational, agreement at debug severity.
pub open spec fn spec_report_severity(rep: CycleReport) -> Severity {
    match rep {
        CycleReport::Inconclusive(_) => Severity::Error,
        CycleReport::Consistent => Severity::Debug,
        CycleReport::Restarted(_, _) => Severity::Info,
        CycleReport::RestartFailed(_, _) => Severity::Error,
    }
}

/// The severity each step is logged at.
pub open spec fn spec_step_severity(step: CycleStep) -> Severity {
    match step {
        CycleStep::Skip(_) => Severity::Error,
        CycleStep::Converged => Severity::Debug,
        CycleStep::Diverge(_) => Severity::Info,
    }
}

impl CycleStep {
    /// Severity of the log entry this step asks for.
    pub fn severity(&self) -> (sev: Severity)
        ensures
            sev == spec_step_severity(*self),
    {
        match self {
            CycleStep::Skip(_) => Severity::Error,
            CycleStep::Converged => Severity::Debug,
            CycleStep::Diverge(_) => Severity::Info,
        }
    }
}

impl CycleReport {
    /// Severity of the log entry this report asks for.
    pub fn severity(&self) -> (sev: Severity)
        ensures
            sev == spec_report_severity(*self),
    {
        match self {
            CycleReport::Inconclusive(_) => Severity::Error,
            CycleReport::Consistent => Severity::Debug,
            CycleReport::Restarted(_, _) => Severity::Info,
            CycleReport::RestartFailed(_, _) => Severity::Error,
        }
    }
}

/// The immutable heart of the daemon: the reference hostname, resolved once
/// at startup and never recomputed, and the unit to restart on divergence.
/// Every method takes `&self`; nothing a cycle observes can alter either.
pub struct Monitor {
    reference_hostname: String,
    service_name: String,
}

impl Monitor {
    /// The hostname every cycle compares against.
    pub closed spec fn reference(self) -> Seq<char> {
        self.reference_hostname@
    }

    /// The unit name handed to every restart request.
    pub closed spec fn unit(self) -> Seq<char> {
        self.service_name@
    }

    /// The reference hostname is non-empty and trimmed.
    pub open spec fn wf(self) -> bool {
        is_trimmed(self.reference()) && self.reference().len() > 0
    }

    /// Builds a monitor from an already-resolved reference hostname.
    pub fn new(reference_hostname: String, service_name: String) -> (m: Monitor)
        requires
            is_trimmed(reference_hostname@),
            reference_hostname@.len() > 0,
        ensures
            m.wf(),
            m.reference() == reference_hostname@,
            m.unit() == service_name@,
    {
        Monitor { reference_hostname, service_name }
    }

    /// Builds the monitor the way the process starts up: resolve the
    /// reference hostname from the configured override and the
    /// operating-system report, failing exactly when neither yields one.
    pub fn from_config(cfg: &Config, os_hostname: &Option<String>) -> (r: Result<
        Monitor,
        StartupError,
    >)
        ensures
            match r {
                Result::Ok(m) => {
                    &&& spec_resolve(opt_chars(cfg.overwrite_hostname), opt_chars(*os_hostname))
                        == Option::Some(m.reference())
                    &&& m.wf()
                    &&& m.unit() == cfg.service_name@
                },
                Result::Err(e) => {
                    &&& spec_resolve(opt_chars(cfg.overwrite_hostname), opt_chars(*os_hostname))
                        is None
                    &&& e == StartupError::HostnameUnavailable
                },
            },
    {
        match crate::config::resolve_reference(&cfg.overwrite_hostname, os_hostname) {
            Result::Ok(h) => Result::Ok(Monitor::new(h, cfg.service_name.clone())),
            Result::Err(e) => Result::Err(e),
        }
    }

    /// The reference hostname, for logging.
    pub fn reference_hostname(&self) -> (h: &String)
        ensures
            h@ == self.reference(),
    {
        &self.reference_hostname
    }

    /// The unit name restarts are requested for, for logging.
    pub fn service_unit(&self) -> (u: &String)
        ensures
            u@ == self.unit(),
    {
        &self.service_name
    }

    /// One cycle's decision from one query outcome: a failed or empty query
    /// skips the cycle, agreement converges, divergence asks for exactly one
    /// restart of the configured unit.
    pub fn evaluate(&self, query: &Result<String, QueryError>) -> (step: CycleStep)
        ensures
            step_matches(self.reference(), self.unit(), *query, step),
    {
        match query {
            Result::Err(e) => CycleStep::Skip(*e),
            Result::Ok(h) => {
                let t = trim(h.as_str());
                if t.as_str().is_empty() {
                    CycleStep::Skip(QueryError::EmptyResponse)
                } else if t == self.reference_hostname {
                    CycleStep::Converged
                } else {
                    CycleStep::Diverge(self.service_name.clone())
                }
            },
        }
    }

    /// A bounded replay of the reconciliation loop: one report per
    /// observation, in order, each judged against the same startup
    /// reference, whatever the cycles before it observed or failed at.
    pub fn run_cycles(&self, observations: &Vec<Observation>) -> (reports: Vec<CycleReport>)
        ensures
            reports@.len() == observations@.len(),
            forall|i: int|
                0 <= i < observations@.len() ==> report_matches(
                    self.reference(),
                    self.unit(),
                    observations@[i],
                    #[trigger] reports@[i],
                ),
    {
        let mut reports: Vec<CycleReport> = Vec::new();
        let mut i: usize = 0;
        while i < observations.len()
            invariant
                i <= observations@.len(),
                reports@.len() == i,
                forall|j: int|
                    0 <= j < i ==> report_matches(
                        self.reference(),
                        self.unit(),
                        observations@[j],
                        #[trigger] reports@[j],
                    ),
            decreases observations@.len() - i,
        {
            let obs = &observations[i];
            let step = self.evaluate(&obs.query);
            let rep = match step {
                CycleStep::Skip(e) => CycleReport::Inconclusive(e),
                CycleStep::Converged => CycleReport::Consistent,
                CycleStep::Diverge(unit) => match &obs.restart {
                    Result::Ok(token) => CycleReport::Restarted(unit, token.clone()),
                    Result::Err(e) => CycleReport::RestartFailed(unit, *e),
                },
            };
            reports.push(rep);
            i = i + 1;
        }
        reports
    }
}

/// Law: two hostnames that are string-equal after trimming never trigger a
/// restart.
pub proof fn lemma_equal_after_trim_no_restart(reference: Seq<char>, observed: Seq<char>)
    requires
        is_trimmed(reference),
        spec_trim(reference) == spec_trim(observed),
    ensures
        !restart_needed(reference, observed),
{
    lemma_trim_of_trimmed(reference);
}

/// Law: a usable observed hostname that differs from the reference after
/// trimming triggers a restart. (An observation that is empty after
/// trimming is excluded: it counts as a failed query and restarts nothing.)
pub proof fn lemma_mismatch_needs_restart(reference: Seq<char>, observed: Seq<char>)
    requires
        is_trimmed(reference),
        observation_usable(observed),
        spec_trim(reference) != spec_trim(observed),
    ensures
        restart_needed(reference, observed),
{
    lemma_trim_of_trimmed(reference);
}

/// Law: a cycle whose observed hostname diverges issues exactly one restart
/// request, and it names the configured unit, whether the request then
/// succeeds or fails.
pub proof fn lemma_divergence_restarts_unit(
    reference: Seq<char>,
    unit: Seq<char>,
    obs: Observation,
    rep: CycleReport,
)
    requires
        report_matches(reference, unit, obs, rep),
        obs.query is Ok,
        restart_needed(reference, obs.query->Ok_0@),
    ensures
        rep matches CycleReport::Restarted(u, _) ==> u@ == unit,
        rep matches CycleReport::RestartFailed(u, _) ==> u@ == unit,
        rep is Restarted || rep is RestartFailed,
        obs.restart is Ok <==> rep is Restarted,
{
}

/// Law: a cycle whose query fails restarts nothing; it only reports the
/// failure, at error severity.
pub proof fn lemma_query_failure_no_restart(
    reference: Seq<char>,
    unit: Seq<char>,
    obs: Observation,
    rep: CycleReport,
)
    requires
        report_matches(reference, unit, obs, rep),
        obs.query is Err,
    ensures
        rep == CycleReport::Inconclusive(obs.query->Err_0),
        spec_report_severity(rep) == Severity::Error,
{
}

/// Law: a failed restart is reported at error severity, and the reference
/// hostname the next cycles compare against is untouched by it — any later
/// observation is judged exactly as it would have been without the failure.
pub proof fn lemma_restart_failure_contained(
    reference: Seq<char>,
    unit: Seq<char>,
    obs: Observation,
    rep: CycleReport,
    later: Observation,
    later_rep: CycleReport,
)
    requires
        report_matches(reference, unit, obs, rep),
        obs.query is Ok,
        restart_needed(reference, obs.query->Ok_0@),
        obs.restart is Err,
        report_matches(reference, unit, later, later_rep),
    ensures
        rep matches CycleReport::RestartFailed(u, e) && u@ == unit && e == obs.restart->Err_0,
        spec_report_severity(rep) == Severity::Error,
        report_matches(reference, unit, later, later_rep),
{
}

} // verus!
