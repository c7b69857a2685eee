use brr::api::{
    check_response_status, drain_events, find_project_by_slug, pull_ready, ApiError, Project,
    PullChannel, PullEvent, PullOutput, PullStreamError,
};
use brr::run::{SyncAction, SyncMachine};

#[test]
fn retry_policy_pushes_once_then_fails() {
    // two empty pulls in a row: exactly one push, one re-pull, then failure
    let mut m = SyncMachine::new();
    assert_eq!(m.next_action(), SyncAction::Pull);
    m.on_pull(false);
    assert_eq!(m.next_action(), SyncAction::Push);
    m.on_push();
    assert_eq!(m.next_action(), SyncAction::Pull);
    m.on_pull(false);
    assert_eq!(m.next_action(), SyncAction::Fail);
    assert_eq!(m.pulls, 2);
    assert_eq!(m.pushes, 1);
}

#[test]
fn ready_pull_ends_the_run() {
    let mut m = SyncMachine::new();
    m.on_pull(true);
    assert_eq!(m.next_action(), SyncAction::Done);
    assert_eq!(m.pushes, 0);
}

#[test]
fn ready_retry_ends_the_run() {
    let mut m = SyncMachine::new();
    m.on_pull(false);
    m.on_push();
    m.on_pull(true);
    assert_eq!(m.next_action(), SyncAction::Done);
    assert_eq!(m.pulls, 2);
    assert_eq!(m.pushes, 1);
}

#[test]
fn log_line_is_delivered_before_the_terminal_event() {
    // stream: LogLine("building...") then Completed with no artifact
    let events = vec![
        PullEvent::LogLine("building...".to_string()),
        PullEvent::Completed(PullOutput {
            artifact_url: None,
            logs_url: "http://logs.example/logs".to_string(),
        }),
    ];
    let summary = drain_events(events).unwrap();
    assert_eq!(summary.logs, vec!["building...".to_string()]);
    assert!(summary.output.artifact_url.is_none());
    assert_eq!(summary.output.logs_url, "http://logs.example/logs");
    // no artifact location: the operation reports "not ready"
    assert!(!pull_ready(&summary.output));
}

#[test]
fn events_after_the_terminal_event_are_never_log_lines() {
    let events = vec![
        PullEvent::Completed(PullOutput {
            artifact_url: Some("http://s3.example/a.tar".to_string()),
            logs_url: "http://logs.example/logs".to_string(),
        }),
        PullEvent::LogLine("late".to_string()),
    ];
    let summary = drain_events(events).unwrap();
    assert!(summary.logs.is_empty());
    assert!(pull_ready(&summary.output));
}

#[test]
fn log_lines_keep_their_order() {
    let events = vec![
        PullEvent::LogLine("one".to_string()),
        PullEvent::LogLine("two".to_string()),
        PullEvent::LogLine("three".to_string()),
        PullEvent::Completed(PullOutput {
            artifact_url: None,
            logs_url: "http://logs.example/logs".to_string(),
        }),
    ];
    let summary = drain_events(events).unwrap();
    assert_eq!(
        summary.logs,
        vec!["one".to_string(), "two".to_string(), "three".to_string()]
    );
}

#[test]
fn stream_without_terminal_event_is_a_protocol_violation() {
    let events = vec![PullEvent::LogLine("building...".to_string())];
    let r = drain_events(events);
    assert!(matches!(r, Err(PullStreamError::UnexpectedEnd)));
    let r2 = drain_events(vec![]);
    assert!(matches!(r2, Err(PullStreamError::UnexpectedEnd)));
}

#[test]
fn pull_channel_forwards_lines_then_closes() {
    let mut c = PullChannel::new();
    let fwd = c.accept(PullEvent::LogLine("building...".to_string()));
    assert_eq!(fwd, Some("building...".to_string()));
    let fwd2 = c.accept(PullEvent::Completed(PullOutput {
        artifact_url: None,
        logs_url: "http://logs.example/logs".to_string(),
    }));
    assert!(fwd2.is_none());
    assert!(c.outcome.is_some());
    assert_eq!(c.logs, vec!["building...".to_string()]);
}

#[test]
fn response_status_maps_to_the_error_taxonomy() {
    assert!(check_response_status(200, "GET x".to_string()).is_ok());
    assert!(check_response_status(204, "GET x".to_string()).is_ok());
    assert!(matches!(
        check_response_status(401, "GET x".to_string()),
        Err(ApiError::Unauthorized)
    ));
    match check_response_status(404, "GET http://c.example/v1/cli/projects".to_string()) {
        Err(ApiError::BadResponse { status, request }) => {
            assert_eq!(status, 404);
            assert_eq!(request, "GET http://c.example/v1/cli/projects");
        }
        _ => panic!("a 404 must be a bad response"),
    }
    assert!(matches!(
        check_response_status(500, "POST y".to_string()),
        Err(ApiError::BadResponse { status: 500, .. })
    ));
}

#[test]
fn project_lookup_finds_the_first_match() {
    let projects = vec![
        Project {
            id: "11111111-1111-1111-1111-111111111111".to_string(),
            slug: "alpha".to_string(),
        },
        Project {
            id: "22222222-2222-2222-2222-222222222222".to_string(),
            slug: "beta".to_string(),
        },
        Project {
            id: "33333333-3333-3333-3333-333333333333".to_string(),
            slug: "beta".to_string(),
        },
    ];
    let found = find_project_by_slug(&projects, "beta").unwrap();
    assert_eq!(found.id, "22222222-2222-2222-2222-222222222222");
    assert!(find_project_by_slug(&projects, "gamma").is_none());
}
