use distropack_cli::api::{rejected, ApiClient, BuildStatusResponse, JobStatus, Method, Payload};
use distropack_cli::commands::build_model::{
    Next, EXIT_JOB_FAILED, EXIT_SUCCESS, HEARTBEAT_PERIOD, POLL_INTERVAL_SECS,
};
use distropack_cli::commands::build_package::{build_package, triggered, BuildMonitor, PollOutcome};
use distropack_cli::config::Config;
use distropack_cli::error::{Error, Operation};
use distropack_cli::report::Report;

fn job(id: &str, status: &str) -> JobStatus {
    JobStatus {
        job_id: id.to_string(),
        status: status.to_string(),
        name: format!("job-{}", id),
        fail_message: None,
        technical_error: None,
    }
}

fn failed_job(id: &str, message: Option<&str>, detail: Option<&str>) -> JobStatus {
    JobStatus {
        job_id: id.to_string(),
        status: "failed".to_string(),
        name: format!("job-{}", id),
        fail_message: message.map(|text| text.to_string()),
        technical_error: detail.map(|text| text.to_string()),
    }
}

fn unfinished(jobs: Vec<JobStatus>) -> BuildStatusResponse {
    BuildStatusResponse { jobs, all_finished: false, any_failed: false }
}

fn monitor(ids: &[&str]) -> BuildMonitor {
    BuildMonitor::new(ids.iter().map(|id| id.to_string()).collect()).ok().unwrap()
}

fn building(id: &str) -> Report {
    Report::Building { name: format!("job-{}", id) }
}

fn completed(id: &str) -> Report {
    Report::Completed { name: format!("job-{}", id) }
}

fn client() -> ApiClient {
    let config = Config {
        api_token: Some("secret".to_string()),
        base_url: Some("https://svc.example".to_string()),
    };
    ApiClient::new(&config, None, None).ok().unwrap()
}

#[test]
fn constants_of_the_loop() {
    assert_eq!(POLL_INTERVAL_SECS, 5);
    assert_eq!(HEARTBEAT_PERIOD, 3);
    assert_eq!(EXIT_SUCCESS, 0);
    assert_eq!(EXIT_JOB_FAILED, 1);
}

#[test]
fn build_command_begins_with_announcement_and_request() {
    let (report, request) = build_package(&client(), 42, "1.2.3", Some("deb"));
    assert_eq!(
        report,
        Report::Triggering {
            package_id: 42,
            version: "1.2.3".to_string(),
            target: Some("deb".to_string()),
        }
    );
    assert_eq!(request.operation, Operation::Build);
    assert_eq!(request.method, Method::Post);
    assert_eq!(
        request.url,
        "https://svc.example/api/build_package_single?packageId=42&distroType=deb"
    );
    assert_eq!(
        request.payload,
        Payload::Field { name: "version".to_string(), value: "1.2.3".to_string() }
    );
    let (report, request) = build_package(&client(), 42, "1.2.3", None);
    assert_eq!(
        report,
        Report::Triggering { package_id: 42, version: "1.2.3".to_string(), target: None }
    );
    assert_eq!(request.url, "https://svc.example/api/build_package?packageId=42");
}

#[test]
fn a_build_without_jobs_is_not_followed() {
    assert_eq!(BuildMonitor::new(Vec::new()).err(), Some(Error::NoJobsCreated));
}

#[test]
fn no_jobs_created_ends_the_command_before_polling() {
    let (reports, started) = triggered(7, "2.0", Ok(Vec::new()));
    assert_eq!(
        reports,
        vec![Report::Triggered { package_id: 7, version: "2.0".to_string(), jobs: 0 }]
    );
    assert_eq!(started.err(), Some(Error::NoJobsCreated));
}

#[test]
fn created_jobs_are_followed() {
    let (reports, started) = triggered(7, "2.0", Ok(vec!["a".to_string(), "b".to_string()]));
    assert_eq!(
        reports,
        vec![
            Report::Triggered { package_id: 7, version: "2.0".to_string(), jobs: 2 },
            Report::Waiting { jobs: 2 },
        ]
    );
    let monitor = started.ok().unwrap();
    assert_eq!(monitor.job_ids(), &vec!["a".to_string(), "b".to_string()]);
    let request = monitor.status_request(&client());
    assert_eq!(request.operation, Operation::Status);
    assert_eq!(request.method, Method::Get);
    assert_eq!(request.url, "https://svc.example/api/build_status?jobIds=a,b");
    assert_eq!(request.token, "secret");
    assert_eq!(request.payload, Payload::Nothing);
}

#[test]
fn failed_build_request_ends_the_command() {
    let error = rejected(Operation::Build, 500, Some("boom".to_string()));
    let (reports, started) = triggered(7, "2.0", Err(error.clone()));
    assert_eq!(reports, Vec::new());
    assert_eq!(started.err(), Some(error));
}

#[test]
fn failed_status_query_ends_the_command() {
    let mut following = monitor(&["a"]);
    let error = rejected(Operation::Status, 502, None);
    assert_eq!(following.polled(Err(error.clone())), Err(error));
    // Nothing was counted or remembered: the next response is the first.
    let outcome = following.polled(Ok(unfinished(vec![job("a", "finished")]))).ok().unwrap();
    assert_eq!(outcome.reports, vec![completed("a")]);
}

#[test]
fn polled_goes_through_a_response() {
    let mut following = monitor(&["a"]);
    let outcome = following.polled(Ok(unfinished(vec![job("a", "running")])));
    assert_eq!(
        outcome,
        Ok(PollOutcome {
            reports: vec![building("a")],
            next: Next::PollAfter { seconds: 5 },
        })
    );
}

#[test]
fn first_sight_of_a_job_counts_as_a_change() {
    let mut following = monitor(&["a", "b", "c"]);
    let response = unfinished(vec![job("a", "running"), job("b", "finished"), job("c", "failed")]);
    let outcome = following.observe(&response);
    assert_eq!(
        outcome.reports,
        vec![
            building("a"),
            completed("b"),
            Report::Failed { name: "job-c".to_string(), fail_message: None },
        ]
    );
    assert_eq!(outcome.next, Next::PollAfter { seconds: POLL_INTERVAL_SECS });
}

#[test]
fn unchanged_running_status_is_not_repeated_between_heartbeats() {
    let mut following = monitor(&["a"]);
    let response = unfinished(vec![job("a", "running")]);
    // Iteration 0: first sight.
    assert_eq!(following.observe(&response).reports, vec![building("a")]);
    // Iterations 1 and 2: nothing has changed and no heartbeat is due.
    assert_eq!(following.observe(&response).reports, Vec::new());
    assert_eq!(following.observe(&response).reports, Vec::new());
}

#[test]
fn running_job_is_reported_again_at_each_heartbeat() {
    let mut following = monitor(&["a"]);
    let response = unfinished(vec![job("a", "running")]);
    let mut shown = Vec::new();
    for iteration in 0..10 {
        let outcome = following.observe(&response);
        if !outcome.reports.is_empty() {
            assert_eq!(outcome.reports, vec![building("a")]);
            shown.push(iteration);
        }
    }
    assert_eq!(shown, vec![0, 3, 6, 9]);
}

#[test]
fn changed_status_is_reported_exactly_once() {
    let mut following = monitor(&["a"]);
    assert_eq!(following.observe(&unfinished(vec![job("a", "pending")])).reports, Vec::new());
    // Iteration 1: pending to running.
    assert_eq!(
        following.observe(&unfinished(vec![job("a", "running")])).reports,
        vec![building("a")]
    );
    // Iteration 2: running to finished.
    assert_eq!(
        following.observe(&unfinished(vec![job("a", "finished")])).reports,
        vec![completed("a")]
    );
    // Iterations 3 and 4: finished stays finished, heartbeat or not.
    assert_eq!(following.observe(&unfinished(vec![job("a", "finished")])).reports, Vec::new());
    assert_eq!(following.observe(&unfinished(vec![job("a", "finished")])).reports, Vec::new());
}

#[test]
fn failure_is_reported_once_with_its_message() {
    let mut following = monitor(&["a"]);
    let response = unfinished(vec![failed_job("a", Some("compiler crashed"), Some("exit 139"))]);
    let outcome = following.observe(&response);
    assert_eq!(
        outcome.reports,
        vec![Report::Failed {
            name: "job-a".to_string(),
            fail_message: Some("compiler crashed".to_string()),
        }]
    );
    assert_eq!(
        outcome.reports[0].text(),
        "  job-a: \u{2717} Failed\n    Error: compiler crashed"
    );
    // One job has failed, but not all are finished: polling goes on.
    assert_eq!(outcome.next, Next::PollAfter { seconds: 5 });
    for _ in 0..5 {
        assert_eq!(following.observe(&response).reports, Vec::new());
    }
}

#[test]
fn unknown_status_is_passed_over_and_remembered() {
    let mut following = monitor(&["a"]);
    for status in ["pending", "queued", "", "RUNNING"] {
        assert_eq!(following.observe(&unfinished(vec![job("a", status)])).reports, Vec::new());
    }
}

#[test]
fn status_may_go_back_from_a_terminal_state() {
    let mut following = monitor(&["a"]);
    assert_eq!(
        following.observe(&unfinished(vec![job("a", "finished")])).reports,
        vec![completed("a")]
    );
    assert_eq!(
        following.observe(&unfinished(vec![job("a", "running")])).reports,
        vec![building("a")]
    );
    assert_eq!(
        following.observe(&unfinished(vec![job("a", "finished")])).reports,
        vec![completed("a")]
    );
}

#[test]
fn job_mentioned_twice_is_judged_against_its_earlier_mention() {
    let mut following = monitor(&["a"]);
    // Iteration 0 is a heartbeat: both running mentions are shown.
    let twice = unfinished(vec![job("a", "running"), job("a", "running")]);
    assert_eq!(following.observe(&twice).reports, vec![building("a"), building("a")]);
    // Iteration 1: running, then finished within one response.
    let turning = unfinished(vec![job("a", "running"), job("a", "finished")]);
    assert_eq!(following.observe(&turning).reports, vec![completed("a")]);
    // Iteration 2: the last mention was remembered.
    assert_eq!(following.observe(&unfinished(vec![job("a", "finished")])).reports, Vec::new());
}

#[test]
fn missing_job_is_counted_at_heartbeat() {
    let mut following = monitor(&["a", "b"]);
    let response = unfinished(vec![job("a", "running")]);
    let outcome = following.observe(&response);
    assert_eq!(outcome.reports, vec![building("a"), Report::Initializing { missing: 1 }]);
    assert_eq!(outcome.reports[1].text(), "  1 job(s) still initializing...");
    assert_eq!(outcome.next, Next::PollAfter { seconds: 5 });
}

#[test]
fn missing_job_is_not_mentioned_between_heartbeats() {
    let mut following = monitor(&["a", "b"]);
    let response = unfinished(vec![job("a", "running")]);
    following.observe(&response);
    assert_eq!(following.observe(&response).reports, Vec::new());
    assert_eq!(following.observe(&response).reports, Vec::new());
    assert_eq!(
        following.observe(&response).reports,
        vec![building("a"), Report::Initializing { missing: 1 }]
    );
}

#[test]
fn all_jobs_missing_are_all_counted() {
    let mut following = monitor(&["a", "b", "c"]);
    let outcome = following.observe(&unfinished(Vec::new()));
    assert_eq!(outcome.reports, vec![Report::Initializing { missing: 3 }]);
}

#[test]
fn jobs_that_were_not_asked_for_are_not_counted() {
    let mut following = monitor(&["a", "b"]);
    let response = unfinished(vec![job("x", "pending"), job("y", "pending"), job("z", "pending")]);
    let outcome = following.observe(&response);
    assert_eq!(outcome.reports, vec![Report::Initializing { missing: 2 }]);
    let mut following = monitor(&["a"]);
    let response = unfinished(vec![job("a", "pending"), job("x", "pending")]);
    assert_eq!(following.observe(&response).reports, Vec::new());
}

#[test]
fn build_without_failures_ends_with_success() {
    let mut following = monitor(&["a", "b"]);
    let response = BuildStatusResponse {
        jobs: vec![job("a", "finished"), job("b", "finished")],
        all_finished: true,
        any_failed: false,
    };
    let outcome = following.observe(&response);
    assert_eq!(
        outcome.reports,
        vec![completed("a"), completed("b"), Report::BuildCompleted, Report::AllSucceeded]
    );
    assert_eq!(outcome.next, Next::Exit { code: 0 });
    let summaries = outcome.reports.iter().filter(|report| **report == Report::AllSucceeded).count();
    assert_eq!(summaries, 1);
    assert!(outcome.reports.iter().all(|report| !report.is_error()));
}

#[test]
fn success_goes_by_the_flags_of_the_response() {
    let mut following = monitor(&["a"]);
    let response = BuildStatusResponse {
        jobs: vec![failed_job("a", Some("ignored"), None)],
        all_finished: true,
        any_failed: false,
    };
    let outcome = following.observe(&response);
    assert_eq!(
        outcome.reports,
        vec![
            Report::Failed { name: "job-a".to_string(), fail_message: Some("ignored".to_string()) },
            Report::BuildCompleted,
            Report::AllSucceeded,
        ]
    );
    assert_eq!(outcome.next, Next::Exit { code: EXIT_SUCCESS });
}

#[test]
fn build_with_failures_tells_the_error_stream_and_fails() {
    let mut following = monitor(&["a", "b", "c", "d", "e"]);
    following.observe(&unfinished(vec![job("a", "running"), job("b", "running")]));
    let response = BuildStatusResponse {
        jobs: vec![
            job("a", "finished"),
            failed_job("b", Some("compiler crashed"), Some("exit 139")),
            failed_job("c", None, Some("out of memory")),
            failed_job("d", Some("timed out"), None),
            failed_job("e", None, None),
        ],
        all_finished: true,
        any_failed: true,
    };
    let outcome = following.observe(&response);
    let name = |id: &str| format!("job-{}", id);
    assert_eq!(
        outcome.reports,
        vec![
            completed("a"),
            Report::Failed { name: name("b"), fail_message: Some("compiler crashed".to_string()) },
            Report::Failed { name: name("c"), fail_message: None },
            Report::Failed { name: name("d"), fail_message: Some("timed out".to_string()) },
            Report::Failed { name: name("e"), fail_message: None },
            Report::BuildCompleted,
            Report::FailureMessage { name: name("b"), message: "compiler crashed".to_string() },
            Report::TechnicalDetails { detail: "exit 139".to_string() },
            Report::TechnicalDetails { detail: "out of memory".to_string() },
            Report::FailureMessage { name: name("d"), message: "timed out".to_string() },
        ]
    );
    assert_eq!(outcome.next, Next::Exit { code: 1 });
    let errors: Vec<String> = outcome
        .reports
        .iter()
        .filter(|report| report.is_error())
        .map(|report| report.text())
        .collect();
    assert_eq!(
        errors,
        vec![
            "  job-b failed: compiler crashed".to_string(),
            "    Technical details: exit 139".to_string(),
            "    Technical details: out of memory".to_string(),
            "  job-d failed: timed out".to_string(),
        ]
    );
}

#[test]
fn failure_flag_without_failed_jobs_still_fails_the_build() {
    let mut following = monitor(&["a"]);
    let response = BuildStatusResponse {
        jobs: vec![job("a", "finished")],
        all_finished: true,
        any_failed: true,
    };
    let outcome = following.observe(&response);
    assert_eq!(outcome.reports, vec![completed("a"), Report::BuildCompleted]);
    assert_eq!(outcome.next, Next::Exit { code: EXIT_JOB_FAILED });
}

#[test]
fn one_failed_job_does_not_stop_the_polling() {
    let mut following = monitor(&["a", "b"]);
    let response = BuildStatusResponse {
        jobs: vec![failed_job("a", Some("broken"), None), job("b", "running")],
        all_finished: false,
        any_failed: true,
    };
    let outcome = following.observe(&response);
    assert_eq!(outcome.next, Next::PollAfter { seconds: 5 });
    assert!(outcome.reports.iter().all(|report| !report.is_error()));
    assert!(!outcome.reports.contains(&Report::BuildCompleted));
}

#[test]
fn finishing_poll_still_counts_missing_jobs() {
    let mut following = monitor(&["a", "b"]);
    let response = BuildStatusResponse {
        jobs: vec![job("a", "finished")],
        all_finished: true,
        any_failed: false,
    };
    let outcome = following.observe(&response);
    assert_eq!(
        outcome.reports,
        vec![
            completed("a"),
            Report::Initializing { missing: 1 },
            Report::BuildCompleted,
            Report::AllSucceeded,
        ]
    );
}

#[test]
fn text_of_each_report() {
    let cases = vec![
        (
            Report::Triggering {
                package_id: 42,
                version: "1.2.3".to_string(),
                target: Some("deb".to_string()),
            },
            "Triggering build for package 42 version 1.2.3 (target: deb)...",
        ),
        (
            Report::Triggering { package_id: 42, version: "1.2.3".to_string(), target: None },
            "Triggering build for package 42 version 1.2.3 (all targets)...",
        ),
        (
            Report::Triggered { package_id: 42, version: "1.2.3".to_string(), jobs: 3 },
            "Build triggered successfully for package 42 version 1.2.3 (3 job(s))",
        ),
        (Report::Waiting { jobs: 12 }, "Waiting for 12 build job(s) to complete..."),
        (Report::Building { name: "deb".to_string() }, "  deb: Building..."),
        (Report::Completed { name: "deb".to_string() }, "  deb: \u{2713} Completed"),
        (
            Report::Failed { name: "deb".to_string(), fail_message: None },
            "  deb: \u{2717} Failed",
        ),
        (
            Report::Failed { name: "deb".to_string(), fail_message: Some("no space".to_string()) },
            "  deb: \u{2717} Failed\n    Error: no space",
        ),
        (Report::Initializing { missing: 2 }, "  2 job(s) still initializing..."),
        (Report::BuildCompleted, "\nBuild completed!"),
        (Report::AllSucceeded, "All builds completed successfully!"),
        (
            Report::FailureMessage { name: "deb".to_string(), message: "no space".to_string() },
            "  deb failed: no space",
        ),
        (
            Report::TechnicalDetails { detail: "ENOSPC".to_string() },
            "    Technical details: ENOSPC",
        ),
    ];
    for (report, text) in cases {
        assert_eq!(report.text(), text);
    }
}

#[test]
fn only_failure_details_go_to_the_error_stream() {
    assert!(Report::FailureMessage { name: "n".to_string(), message: "m".to_string() }.is_error());
    assert!(Report::TechnicalDetails { detail: "d".to_string() }.is_error());
    assert!(!Report::Failed { name: "n".to_string(), fail_message: None }.is_error());
    assert!(!Report::BuildCompleted.is_error());
    assert!(!Report::AllSucceeded.is_error());
    assert!(!Report::Building { name: "n".to_string() }.is_error());
    assert!(!Report::Initializing { missing: 1 }.is_error());
}
