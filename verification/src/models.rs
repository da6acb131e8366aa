use vstd::prelude::*;

verus! {

/// Direction of a scroll action; translated to a signed (dx, dy) pair by the
/// dispatcher.
#[derive(Debug, Clone, Copy, PartialEq, Eq, Structural)]
pub enum ScrollDirection {
    Up,
    Down,
    Left,
    Right,
}

/// State an element can be awaited in by a `WaitCondition::Element`.
#[derive(Debug, Clone, Copy, PartialEq, Eq, Structural)]
pub enum ElementState {
    Visible,
    Hidden,
    Enabled,
    Disabled,
}

impl ElementState {
    /// The lower-case name of the state, as it appears in wait-timeout
    /// messages and in the task schema.
    pub fn name(&self) -> (r: &'static str)
        ensures
            r@ == element_state_name(*self),
    {
        match self {
            ElementState::Visible => "visible",
            ElementState::Hidden => "hidden",
            ElementState::Enabled => "enabled",
            ElementState::Disabled => "disabled",
        }
    }
}

pub open spec fn element_state_name(s: ElementState) -> Seq<char> {
    match s {
        ElementState::Visible => "visible"@,
        ElementState::Hidden => "hidden"@,
        ElementState::Enabled => "enabled"@,
        ElementState::Disabled => "disabled"@,
    }
}

/// One cookie applied during task setup.
#[derive(Debug, Clone)]
pub struct Cookie {
    pub name: String,
    pub value: String,
    pub domain: String,
}

/// Optional pre-conditions applied exactly once, before step 0: cookies,
/// local-storage entries, and an optional starting path appended to the
/// task's base URL.  Local storage is kept as a list of key/value pairs;
/// the order entries are applied in does not matter to the page.
#[derive(Debug, Clone)]
pub struct Setup {
    pub auth_required: bool,
    pub starting_url: Option<String>,
    pub cookies: Option<Vec<Cookie>>,
    pub local_storage: Option<Vec<(String, String)>>,
}

/// One declarative action of a step.
#[derive(Debug, Clone)]
pub enum Action {
    Navigate { url: String },
    Click { selector: String, wait_before_ms: Option<u64> },
    Type { selector: String, value: String, clear_first: bool },
    Wait { duration_ms: u64 },
    Scroll { direction: ScrollDirection, amount: i32 },
    Hover { selector: String },
    Press { key: String },
    Execute { script: String },
}

/// A condition evaluated after a step's action succeeds; the step fails if
/// the condition is not met within its timeout.
#[derive(Debug, Clone)]
pub enum WaitCondition {
    Selector { value: String, timeout_ms: u64, visible: bool },
    Duration { ms: u64 },
    NetworkIdle { timeout_ms: u64, max_connections: u8 },
    Url { pattern: String, timeout_ms: u64 },
    Element { selector: String, state: ElementState, timeout_ms: u64 },
}

/// Default used for the `clear_first` flag of a `Type` action when the task
/// definition leaves it out.
pub fn default_clear() -> (r: bool)
    ensures
        r == true,
{
    true
}

/// Default wait timeout in milliseconds when the task definition leaves a
/// timeout out.
pub fn default_timeout() -> (r: u64)
    ensures
        r == 5000,
{
    5000
}

/// Default `max_connections` of a `NetworkIdle` wait; kept for interface
/// stability, the approximate implementation does not read it.
pub fn default_max_connections() -> (r: u8)
    ensures
        r == 2,
{
    2
}

/// One ordered unit of a task: an action, an optional wait condition, a
/// capture flag, and an optional free-text description propagated into the
/// captured state.
#[derive(Debug, Clone)]
pub struct Step {
    pub name: String,
    pub action: Action,
    pub wait: Option<WaitCondition>,
    pub capture: bool,
    pub description: Option<String>,
}

/// Free-form annotations carried beside a task definition; never read by the
/// execution engine.
#[derive(Debug, Clone)]
pub struct Metadata {
    pub capture_elements: Vec<String>,
    pub notes: Option<String>,
    pub tags: Vec<String>,
    pub related_tasks: Vec<String>,
    pub ui_components: Vec<String>,
}

/// The immutable specification of one task.
#[derive(Debug, Clone)]
pub struct TaskDefinition {
    pub id: String,
    pub app: String,
    pub description: String,
    pub base_url: String,
    pub setup: Option<Setup>,
    pub steps: Vec<Step>,
}

/// A task definition together with its optional annotations.
#[derive(Debug, Clone)]
pub struct Task {
    pub task_def: TaskDefinition,
    pub metadata: Option<Metadata>,
}

/// Viewport dimensions and vertical scroll offset at capture time.
#[derive(Debug, Clone, Copy)]
pub struct ViewportInfo {
    pub width: u32,
    pub height: u32,
    pub scroll_y: u32,
}

/// Point-in-time snapshot of page-level facts taken by the capture pipeline.
#[derive(Debug, Clone)]
pub struct PageMetadata {
    pub title: String,
    pub url: String,
    pub ready_sate: String,
    pub active_element: Option<String>,
    pub has_modals: bool,
    pub has_overlays: bool,
}

/// One snapshot taken after a step: screenshot (as base64 text), resolved
/// URL, viewport, timestamp and page metadata.
#[derive(Debug, Clone)]
pub struct CapturedState {
    pub step_index: usize,
    pub step_name: String,
    pub screenshot_base64: String,
    pub url: Option<String>,
    pub has_url: bool,
    pub viewport: ViewportInfo,
    pub timestamp: String,
    pub context: Option<String>,
    pub page_metadata: Option<PageMetadata>,
}

/// The per-task record produced exactly once per execution.  `success` is
/// false iff a step failed, in which case `captured_states` holds only the
/// states captured before the failing step.
#[derive(Debug, Clone)]
pub struct ExecutionResult {
    pub task_id: String,
    pub app: String,
    pub description: String,
    pub success: bool,
    pub captured_states: Vec<CapturedState>,
    pub error: Option<String>,
    pub execution_time_ms: u64,
}

/// Per-state entry of the metadata record written beside the screenshots.
#[derive(Debug, Clone)]
pub struct StateMetadata {
    pub step_index: usize,
    pub step_name: String,
    pub filename: String,
    pub url: Option<String>,
    pub has_url: bool,
    pub viewport: ViewportInfo,
    pub context: Option<String>,
}

/// The metadata record written beside the screenshots of one task.
#[derive(Debug, Clone)]
pub struct TaskMetadata {
    pub task_id: String,
    pub app: String,
    pub description: String,
    pub success: bool,
    pub execution_time_ms: u64,
    pub error: Option<String>,
    pub states: Vec<StateMetadata>,
}

/// One line of the dataset index.
#[derive(Debug, Clone)]
pub struct TaskSummary {
    pub task_id: String,
    pub app: String,
    pub description: String,
    pub success: bool,
    pub state_count: usize,
    pub path: String,
}

/// The index record summarising a whole batch.
#[derive(Debug, Clone)]
pub struct DatasetIndex {
    pub generated_at: String,
    pub total_tasks: usize,
    pub successful_tasks: usize,
    pub total_states: usize,
    pub tasks: Vec<TaskSummary>,
}

/// A task's states grouped for transport.
#[derive(Debug, Clone)]
pub struct TaskOutput {
    pub task_id: String,
    pub app: String,
    pub description: String,
    pub captured_at: String,
    pub states: Vec<CapturedState>,
    pub metadata: Option<Metadata>,
}

} // verus!
