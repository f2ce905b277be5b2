use hypergrab::error::CaptureError;
use hypergrab::executor::plan_capture;
use hypergrab::items::TestItem;
use hypergrab::orchestrator::{
    CaptureOutcome, Effect, Orchestrator, OrchestratorState, DEFAULT_SETTLE_MS,
};
use hypergrab::selector::MonitorDescriptor;

fn loaded_orchestrator() -> Orchestrator {
    let mut o = Orchestrator::new(DEFAULT_SETTLE_MS);
    let items = vec![TestItem {
        code: "TC-07".to_string(),
        description: "Login test".to_string(),
    }];
    o.load_items(items, "/data/evidence".to_string());
    o
}

#[test]
fn new_orchestrator_is_idle_and_ready() {
    let o = Orchestrator::new(DEFAULT_SETTLE_MS);
    assert_eq!(o.state, OrchestratorState::Idle);
    assert!(o.pending.is_none());
    assert!(o.items.is_empty());
    assert!(o.selected.is_none());
    assert!(o.last_capture.is_none());
    assert_eq!(o.status, "System ready. Load an Excel file to begin.");
}

#[test]
fn load_items_reports_count() {
    let mut o = Orchestrator::new(DEFAULT_SETTLE_MS);
    let items = vec![
        TestItem { code: "TC-01".to_string(), description: "a".to_string() },
        TestItem { code: "TC-02".to_string(), description: "b".to_string() },
    ];
    o.load_items(items, "/data".to_string());
    assert_eq!(o.status, "Loaded 2 records.");
    assert_eq!(o.directory.as_deref(), Some("/data"));
    assert_eq!(o.state, OrchestratorState::Idle);
}

#[test]
fn start_with_valid_selection_begins_waiting() {
    let mut o = loaded_orchestrator();
    o.select_item(0);
    let effects = o.start();
    assert_eq!(o.state, OrchestratorState::Waiting);
    assert_eq!(o.status, "Action: Minimizing and capturing...");
    assert_eq!(
        effects,
        vec![Effect::Minimize, Effect::StartDelay(DEFAULT_SETTLE_MS)]
    );
    let req = o.pending.clone().expect("a request is in flight");
    assert_eq!(req.identifier, "TC-07");
    assert_eq!(req.target_directory, "/data/evidence");
}

#[test]
fn settle_interval_is_configurable() {
    let mut o = Orchestrator::new(2000);
    o.load_items(
        vec![TestItem { code: "TC-01".to_string(), description: "a".to_string() }],
        "/data".to_string(),
    );
    o.select_item(0);
    let effects = o.start();
    assert_eq!(effects, vec![Effect::Minimize, Effect::StartDelay(2000)]);
}

#[test]
fn start_while_waiting_is_noop() {
    let mut o = loaded_orchestrator();
    o.select_item(0);
    let first = o.start();
    assert_eq!(first.len(), 2);
    let status_before = o.status.clone();
    let pending_before = o.pending.clone();
    let again = o.start();
    assert!(again.is_empty());
    assert_eq!(o.state, OrchestratorState::Waiting);
    assert_eq!(o.status, status_before);
    assert_eq!(o.pending, pending_before);
}

#[test]
fn start_without_selection_is_noop() {
    let mut o = loaded_orchestrator();
    let effects = o.start();
    assert!(effects.is_empty());
    assert_eq!(o.state, OrchestratorState::Idle);
    assert_eq!(o.status, "Loaded 1 records.");
}

#[test]
fn start_with_out_of_range_selection_is_noop() {
    let mut o = loaded_orchestrator();
    o.select_item(5);
    let effects = o.start();
    assert!(effects.is_empty());
    assert_eq!(o.state, OrchestratorState::Idle);
}

#[test]
fn trigger_key_without_selection_is_noop() {
    let mut o = loaded_orchestrator();
    let status_before = o.status.clone();
    let effects = o.on_trigger_key();
    assert!(effects.is_empty());
    assert_eq!(o.state, OrchestratorState::Idle);
    assert_eq!(o.status, status_before);
}

#[test]
fn trigger_key_with_selection_starts() {
    let mut o = loaded_orchestrator();
    o.select_item(0);
    let effects = o.on_trigger_key();
    assert_eq!(o.state, OrchestratorState::Waiting);
    assert_eq!(
        effects,
        vec![Effect::Minimize, Effect::StartDelay(DEFAULT_SETTLE_MS)]
    );
}

#[test]
fn delay_elapsed_while_waiting_runs_capture() {
    let mut o = loaded_orchestrator();
    o.select_item(0);
    o.start();
    let effects = o.on_delay_elapsed();
    assert_eq!(effects.len(), 1);
    match &effects[0] {
        Effect::RunCapture(req) => {
            assert_eq!(req.identifier, "TC-07");
            assert_eq!(req.target_directory, "/data/evidence");
        }
        other => panic!("expected a capture effect, got {:?}", other),
    }
    assert_eq!(o.state, OrchestratorState::Waiting);
}

#[test]
fn delay_elapsed_while_idle_is_ignored() {
    let mut o = loaded_orchestrator();
    let effects = o.on_delay_elapsed();
    assert!(effects.is_empty());
    assert_eq!(o.state, OrchestratorState::Idle);
}

#[test]
fn complete_returns_idle_on_success() {
    let mut o = loaded_orchestrator();
    o.select_item(0);
    o.start();
    let effects = o.on_capture_complete(CaptureOutcome::Success(
        "/data/evidence/TC_07.png".to_string(),
    ));
    assert_eq!(o.state, OrchestratorState::Idle);
    assert!(o.pending.is_none());
    assert_eq!(effects, vec![Effect::Restore]);
}

#[test]
fn complete_returns_idle_on_failure() {
    let mut o = loaded_orchestrator();
    o.select_item(0);
    o.start();
    let effects = o.on_capture_complete(CaptureOutcome::Failure("anything".to_string()));
    assert_eq!(o.state, OrchestratorState::Idle);
    assert!(o.pending.is_none());
    assert_eq!(effects, vec![Effect::Restore]);
}

#[test]
fn end_to_end_success_reports_saved_file() {
    let mut o = loaded_orchestrator();
    o.select_item(0);
    o.start();
    assert_eq!(o.state, OrchestratorState::Waiting);
    let effects = o.on_delay_elapsed();
    let req = match &effects[0] {
        Effect::RunCapture(req) => req.clone(),
        other => panic!("expected a capture effect, got {:?}", other),
    };
    let monitors = vec![MonitorDescriptor { x: 0, y: 0 }];
    let existing: Vec<String> = Vec::new();
    let plan = plan_capture(&monitors, &existing, &req.target_directory, &req.identifier)
        .expect("one display is present");
    let effects = o.on_capture_complete(CaptureOutcome::Success(plan.output_path.clone()));
    assert_eq!(o.state, OrchestratorState::Idle);
    assert!(o.status.contains("TC_07.png"));
    assert_eq!(o.last_capture.as_deref(), Some("/data/evidence/TC_07.png"));
    assert_eq!(effects, vec![Effect::Restore]);
}

#[test]
fn end_to_end_grab_failure_reports_reason() {
    let mut o = loaded_orchestrator();
    o.select_item(0);
    o.start();
    o.on_delay_elapsed();
    let reason = CaptureError::GrabError("no permission".to_string()).message();
    let effects = o.on_capture_complete(CaptureOutcome::Failure(reason));
    assert_eq!(o.state, OrchestratorState::Idle);
    assert!(o.status.contains("no permission"));
    assert!(o.last_capture.is_none());
    assert_eq!(effects, vec![Effect::Restore]);
}
