use softlight_agent::models::{CapturedState, ExecutionResult, ViewportInfo};
use softlight_agent::output::{build_index, task_metadata_of};

fn state(index: usize, name: &str) -> CapturedState {
    CapturedState {
        step_index: index,
        step_name: name.to_string(),
        screenshot_base64: "AQID".to_string(),
        url: Some("https://app.test/p".to_string()),
        has_url: true,
        viewport: ViewportInfo { width: 1024, height: 768, scroll_y: 5 },
        timestamp: "2024-01-01T00:00:00+00:00".to_string(),
        context: None,
        page_metadata: None,
    }
}

fn result(id: &str, success: bool, states: Vec<CapturedState>) -> ExecutionResult {
    ExecutionResult {
        task_id: id.to_string(),
        app: "demo".to_string(),
        description: "d".to_string(),
        success,
        captured_states: states,
        error: if success { None } else { Some("step 'x' failed: y".to_string()) },
        execution_time_ms: 9,
    }
}

#[test]
fn task_metadata_names_screenshot_files() {
    let r = result("t1", true, vec![state(0, "Open Page"), state(2, "Submit Form")]);
    let m = task_metadata_of(&r);
    assert_eq!(m.task_id, "t1");
    assert_eq!(m.app, "demo");
    assert!(m.success);
    assert_eq!(m.execution_time_ms, 9);
    assert!(m.error.is_none());
    assert_eq!(m.states.len(), 2);
    assert_eq!(m.states[0].filename, "01-open-page.png");
    assert_eq!(m.states[1].filename, "02-submit-form.png");
    assert_eq!(m.states[0].step_index, 0);
    assert_eq!(m.states[1].step_index, 2);
    assert_eq!(m.states[0].viewport.width, 1024);
}

#[test]
fn failed_task_metadata_keeps_the_error() {
    let r = result("t2", false, vec![]);
    let m = task_metadata_of(&r);
    assert!(!m.success);
    assert_eq!(m.error.as_deref(), Some("step 'x' failed: y"));
    assert!(m.states.is_empty());
}

#[test]
fn index_counts_tasks_successes_and_states() {
    let results = vec![
        result("t1", true, vec![state(0, "a"), state(1, "b")]),
        result("t2", false, vec![state(0, "a")]),
        result("t3", true, vec![]),
    ];
    let index = build_index(&results);
    assert_eq!(index.total_tasks, 3);
    assert_eq!(index.successful_tasks, 2);
    assert_eq!(index.total_states, 3);
    assert_eq!(index.tasks.len(), 3);
    assert_eq!(index.tasks[0].path, "demo/t1");
    assert_eq!(index.tasks[0].state_count, 2);
    assert!(index.tasks[0].success);
    assert!(!index.tasks[1].success);
    assert_eq!(index.tasks[2].state_count, 0);
}
