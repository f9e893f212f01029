use hostmon::monitor::{
    CycleReport, CycleStep, Monitor, Observation, QueryError, RestartError, Severity,
};

const UNIT: &str = "avahi-daemon.service";
const JOB: &str = "/org/freedesktop/systemd1/job/1234";

fn monitor() -> Monitor {
    Monitor::new("myhost".to_string(), UNIT.to_string())
}

fn observed(hostname: &str) -> Observation {
    Observation {
        query: Ok(hostname.to_string()),
        restart: Ok(JOB.to_string()),
    }
}

#[test]
fn matching_hostname_converges() {
    let step = monitor().evaluate(&Ok("myhost".to_string()));
    assert_eq!(step, CycleStep::Converged);
    assert_eq!(step.severity(), Severity::Debug);
}

#[test]
fn mismatch_diverges_naming_the_unit() {
    let step = monitor().evaluate(&Ok("other".to_string()));
    assert_eq!(step, CycleStep::Diverge(UNIT.to_string()));
    assert_eq!(step.severity(), Severity::Info);
}

#[test]
fn mismatch_cycle_issues_one_restart_with_token_logged() {
    let reports = monitor().run_cycles(&vec![observed("other")]);
    assert_eq!(
        reports,
        vec![CycleReport::Restarted(UNIT.to_string(), JOB.to_string())]
    );
    assert_eq!(reports[0].severity(), Severity::Info);
}

#[test]
fn query_failure_skips_cycle_and_next_cycle_runs() {
    let m = monitor();
    let cycles = vec![
        Observation {
            query: Err(QueryError::ConnectionFailed),
            restart: Ok(JOB.to_string()),
        },
        observed("myhost"),
    ];
    let reports = m.run_cycles(&cycles);
    assert_eq!(
        reports,
        vec![
            CycleReport::Inconclusive(QueryError::ConnectionFailed),
            CycleReport::Consistent,
        ]
    );
    assert_eq!(reports[0].severity(), Severity::Error);
    assert_eq!(reports[1].severity(), Severity::Debug);
}

#[test]
fn whitespace_only_difference_counts_as_match() {
    let step = monitor().evaluate(&Ok("myhost ".to_string()));
    assert_eq!(step, CycleStep::Converged);
}

#[test]
fn empty_response_is_inconclusive_not_a_mismatch() {
    let m = monitor();
    assert_eq!(
        m.evaluate(&Ok(String::new())),
        CycleStep::Skip(QueryError::EmptyResponse)
    );
    assert_eq!(
        m.evaluate(&Ok("   ".to_string())),
        CycleStep::Skip(QueryError::EmptyResponse)
    );
}

#[test]
fn method_call_failure_is_reported_as_such() {
    let step = monitor().evaluate(&Err(QueryError::CallFailed));
    assert_eq!(step, CycleStep::Skip(QueryError::CallFailed));
    assert_eq!(step.severity(), Severity::Error);
}

#[test]
fn restart_failure_is_logged_and_loop_goes_on() {
    let m = monitor();
    let cycles = vec![
        Observation {
            query: Ok("other".to_string()),
            restart: Err(RestartError::CallRejected),
        },
        observed("other"),
    ];
    let reports = m.run_cycles(&cycles);
    assert_eq!(
        reports,
        vec![
            CycleReport::RestartFailed(UNIT.to_string(), RestartError::CallRejected),
            CycleReport::Restarted(UNIT.to_string(), JOB.to_string()),
        ]
    );
    assert_eq!(reports[0].severity(), Severity::Error);
    assert_eq!(m.reference_hostname(), "myhost");
}

#[test]
fn restart_bus_failure_is_reported_as_such() {
    let m = monitor();
    let cycles = vec![Observation {
        query: Ok("other".to_string()),
        restart: Err(RestartError::ConnectionFailed),
    }];
    let reports = m.run_cycles(&cycles);
    assert_eq!(
        reports,
        vec![CycleReport::RestartFailed(
            UNIT.to_string(),
            RestartError::ConnectionFailed
        )]
    );
}

#[test]
fn reference_is_never_recomputed_from_observations() {
    let m = monitor();
    let reports = m.run_cycles(&vec![observed("other"), observed("other"), observed("myhost")]);
    assert_eq!(
        reports,
        vec![
            CycleReport::Restarted(UNIT.to_string(), JOB.to_string()),
            CycleReport::Restarted(UNIT.to_string(), JOB.to_string()),
            CycleReport::Consistent,
        ]
    );
    assert_eq!(m.reference_hostname(), "myhost");
}

#[test]
fn comparison_is_case_sensitive() {
    let step = monitor().evaluate(&Ok("Myhost".to_string()));
    assert_eq!(step, CycleStep::Diverge(UNIT.to_string()));
}
