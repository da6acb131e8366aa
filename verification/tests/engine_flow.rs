use softlight_agent::capture::CaptureData;
use softlight_agent::engine::{TaskRun, record_batch_outcome, step_failed_message};
use softlight_agent::models::{
    Action, CapturedState, ExecutionResult, PageMetadata, Step, TaskDefinition, ViewportInfo,
};

fn step(name: &str, capture: bool) -> Step {
    Step {
        name: name.to_string(),
        action: Action::Navigate { url: "/page".to_string() },
        wait: None,
        capture,
        description: Some(format!("{} description", name)),
    }
}

fn three_step_task() -> TaskDefinition {
    TaskDefinition {
        id: "task-1".to_string(),
        app: "demo".to_string(),
        description: "walk three pages".to_string(),
        base_url: "https://app.test".to_string(),
        setup: None,
        steps: vec![step("first", true), step("second", false), step("third", true)],
    }
}

fn page_meta(url: &str) -> PageMetadata {
    PageMetadata {
        title: "Title".to_string(),
        url: url.to_string(),
        ready_sate: "complete".to_string(),
        active_element: None,
        has_modals: false,
        has_overlays: false,
    }
}

fn capture_data(url: &str) -> CaptureData {
    CaptureData {
        screenshot: vec![1, 2, 3],
        viewport: ViewportInfo { width: 1920, height: 1080, scroll_y: 0 },
        page: page_meta(url),
    }
}

#[test]
fn successful_run_captures_every_marked_step() {
    let task = three_step_task();
    let mut run = TaskRun::new(&task);
    run.record_step_success(&task, Some(capture_data("https://app.test/a")));
    run.record_step_success(&task, None);
    run.record_step_success(&task, Some(capture_data("https://app.test/b")));
    assert!(run.is_done(&task));
    let result = run.finish(&task, 42);
    assert!(result.success);
    assert!(result.error.is_none());
    assert_eq!(result.execution_time_ms, 42);
    assert_eq!(result.task_id, "task-1");
    assert_eq!(result.app, "demo");
    // exactly one state per capture-marked step, in step order
    assert_eq!(result.captured_states.len(), 2);
    assert_eq!(result.captured_states[0].step_index, 0);
    assert_eq!(result.captured_states[0].step_name, "first");
    assert_eq!(result.captured_states[1].step_index, 2);
    assert_eq!(result.captured_states[1].step_name, "third");
    // equality with the capture count holds on success
    let capture_count = task.steps.iter().filter(|s| s.capture).count();
    assert_eq!(result.captured_states.len(), capture_count);
}

#[test]
fn failed_step_stops_the_run_and_names_the_step() {
    let task = three_step_task();
    let mut run = TaskRun::new(&task);
    run.record_step_success(&task, Some(capture_data("https://app.test/a")));
    // step 1 fails: only captures of capture-marked steps before it remain
    let result = run.record_step_failure(&task, "element not found: #go", 17);
    assert!(!result.success);
    assert_eq!(result.captured_states.len(), 1);
    assert_eq!(result.captured_states[0].step_index, 0);
    let err = result.error.expect("a failed run must carry an error");
    assert_eq!(err, "step 'second' failed: element not found: #go");
    assert!(err.contains("second"));
    let capture_count = task.steps.iter().filter(|s| s.capture).count();
    assert!(result.captured_states.len() < capture_count);
}

#[test]
fn failure_at_step_zero_leaves_nothing_captured() {
    let task = three_step_task();
    let run = TaskRun::new(&task);
    let result = run.record_step_failure(&task, "timeout waiting for selector: #x", 5);
    assert!(!result.success);
    assert!(result.captured_states.is_empty());
    assert_eq!(
        result.error.as_deref(),
        Some("step 'first' failed: timeout waiting for selector: #x")
    );
}

#[test]
fn captured_state_assembly_encodes_and_flags() {
    let task = three_step_task();
    let mut run = TaskRun::new(&task);
    run.record_step_success(&task, Some(capture_data("https://app.test/a")));
    let result = run.record_step_failure(&task, "x", 0);
    let st: &CapturedState = &result.captured_states[0];
    // base64 of [1, 2, 3] under the standard alphabet
    assert_eq!(st.screenshot_base64, "AQID");
    assert_eq!(st.url.as_deref(), Some("https://app.test/a"));
    assert!(st.has_url);
    assert_eq!(st.viewport.width, 1920);
    assert_eq!(st.context.as_deref(), Some("first description"));
    let page = st.page_metadata.as_ref().expect("metadata is kept");
    assert_eq!(page.ready_sate, "complete");
}

#[test]
fn blank_page_has_no_url() {
    let mut task = three_step_task();
    task.steps.truncate(1);
    let mut run = TaskRun::new(&task);
    run.record_step_success(&task, Some(capture_data("about:blank")));
    let result = run.finish(&task, 1);
    assert!(!result.captured_states[0].has_url);
    assert_eq!(result.captured_states[0].url.as_deref(), Some("about:blank"));
}

#[test]
fn empty_url_has_no_url() {
    let mut task = three_step_task();
    task.steps.truncate(1);
    let mut run = TaskRun::new(&task);
    run.record_step_success(&task, Some(capture_data("")));
    let result = run.finish(&task, 1);
    assert!(!result.captured_states[0].has_url);
}

#[test]
fn step_failed_message_shape() {
    let m = step_failed_message("open menu", "input not found: #q");
    assert_eq!(m, "step 'open menu' failed: input not found: #q");
}

fn quick_result(id: &str, success: bool) -> ExecutionResult {
    ExecutionResult {
        task_id: id.to_string(),
        app: "demo".to_string(),
        description: "d".to_string(),
        success,
        captured_states: Vec::new(),
        error: None,
        execution_time_ms: 0,
    }
}

#[test]
fn batch_keeps_later_results_when_one_task_dies() {
    // task A fails fatally (no result), task B succeeds: the batch holds B.
    let mut results: Vec<ExecutionResult> = Vec::new();
    record_batch_outcome(&mut results, None);
    record_batch_outcome(&mut results, Some(quick_result("b", true)));
    assert_eq!(results.len(), 1);
    assert_eq!(results[0].task_id, "b");
    assert!(results[0].success);
}
