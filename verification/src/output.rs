use vstd::prelude::*;
use vstd::string::*;
use crate::capture::now_rfc3339;
use crate::models::{
    CapturedState, DatasetIndex, ExecutionResult, StateMetadata, TaskMetadata, TaskSummary,
};
use crate::text::{pad2, pad2_spec, string_of_chars};

verus! {

/// Writer of the per-task records and the batch index; holds the root
/// directory they are laid out under.
pub struct DatasetWriter {
    pub output_dir: String,
}

impl DatasetWriter {
    pub fn new(output_dir: &str) -> (r: DatasetWriter)
        ensures
            r.output_dir@ == output_dir@,
    {
        DatasetWriter { output_dir: String::from_str(output_dir) }
    }
}

/// The lower-case form of a character sequence, as Unicode case mapping
/// gives it.
pub uninterp spec fn lower_of(s: Seq<char>) -> Seq<char>;

/// Relies on `str::to_lowercase`: the result depends on the characters
/// alone.
#[verifier::external_body]
fn lower_chars(s: &str) -> (r: Vec<char>)
    ensures
        r@ == lower_of(s@),
{
    s.to_lowercase().chars().collect()
}

/// Whether a character is alphanumeric under Unicode's classification.
pub uninterp spec fn is_alnum_char(c: char) -> bool;

/// Relies on `char::is_alphanumeric`: the Unicode classification of one
/// character, a function of the character alone.
#[verifier::external_body]
fn char_is_alphanumeric(c: char) -> (r: bool)
    ensures
        r == is_alnum_char(c),
{
    c.is_alphanumeric()
}

/// Whether a character is whitespace under Unicode's classification.
pub uninterp spec fn is_ws_char(c: char) -> bool;

/// Relies on `char::is_whitespace`: the Unicode classification of one
/// character, a function of the character alone.
#[verifier::external_body]
fn char_is_whitespace(c: char) -> (r: bool)
    ensures
        r == is_ws_char(c),
{
    c.is_whitespace()
}

/// Where one lower-cased character lands in a slug: alphanumerics stay,
/// whitespace and hyphens become separators, anything else an underscore.
pub open spec fn slug_munge(c: char) -> char {
    if is_alnum_char(c) {
        c
    } else if is_ws_char(c) || c == '-' {
        '-'
    } else {
        '_'
    }
}

/// Folds the munged characters into a slug: runs of separators collapse to a
/// single hyphen between emitted characters, and leading or trailing
/// separators vanish.  The boolean records whether a separator is pending.
pub open spec fn slug_fold(s: Seq<char>) -> (Seq<char>, bool)
    decreases s.len(),
{
    if s.len() == 0 {
        (Seq::empty(), false)
    } else {
        let prev = slug_fold(s.drop_last());
        let c = slug_munge(s.last());
        if c == '-' {
            (prev.0, true)
        } else if prev.1 && prev.0.len() > 0 {
            (prev.0 + seq!['-', c], false)
        } else {
            (prev.0.push(c), false)
        }
    }
}

/// The slug of a string: its lower-case form with alphanumerics kept,
/// separator runs collapsed to single hyphens, other characters replaced by
/// underscores, and no hyphen at either end.
pub open spec fn slug_spec(s: Seq<char>) -> Seq<char> {
    slug_fold(lower_of(s)).0
}

/// Turns a step name into the slug used in its screenshot's file name.
pub fn slugify(s: &str) -> (r: String)
    ensures
        r@ == slug_spec(s@),
{
    let lowered = lower_chars(s);
    let mut out: Vec<char> = Vec::new();
    let mut pending = false;
    let mut i: usize = 0;
    while i < lowered.len()
        invariant
            i <= lowered@.len(),
            lowered@ == lower_of(s@),
            out@ == slug_fold(lower_of(s@).subrange(0, i as int)).0,
            pending == slug_fold(lower_of(s@).subrange(0, i as int)).1,
        decreases lowered@.len() - i,
    {
        let c = lowered[i];
        let m = if char_is_alphanumeric(c) {
            c
        } else if char_is_whitespace(c) || c == '-' {
            '-'
        } else {
            '_'
        };
        assert(m == slug_munge(c));
        let ghost pre = lower_of(s@).subrange(0, i as int);
        let ghost cur = lower_of(s@).subrange(0, i + 1 as int);
        proof {
            assert(cur.drop_last() =~= pre);
            assert(cur.last() == c);
        }
        if m == '-' {
            pending = true;
        } else if pending && out.len() > 0 {
            out.push('-');
            out.push(m);
            pending = false;
            proof {
                assert(out@ =~= slug_fold(pre).0 + seq!['-', m]);
            }
        } else {
            out.push(m);
            pending = false;
        }
        i = i + 1;
    }
    proof {
        assert(lower_of(s@).subrange(0, lowered@.len() as int) =~= lower_of(s@));
    }
    string_of_chars(&out)
}

/// The file name of one captured state: its one-based position among the
/// task's captures, padded to at least two digits, then the slug of its
/// step's name.
pub open spec fn state_filename_spec(position: int, name: Seq<char>) -> Seq<char> {
    pad2_spec(position) + "-"@ + slug_spec(name) + ".png"@
}

pub fn state_filename(position: usize, step_name: &str) -> (r: String)
    ensures
        r@ == state_filename_spec(position as int, step_name@),
{
    let mut s = pad2(position);
    s.append("-");
    let slug = slugify(step_name);
    s.append(slug.as_str());
    s.append(".png");
    s
}

/// What the per-state entry written beside the screenshots must hold:
/// everything of the captured state except the screenshot itself, plus the
/// file name the screenshot goes under.
pub open spec fn is_state_metadata_of(m: StateMetadata, st: CapturedState, position: int) -> bool {
    &&& m.step_index == st.step_index
    &&& m.step_name@ == st.step_name@
    &&& m.filename@ == state_filename_spec(position, st.step_name@)
    &&& m.url == st.url
    &&& m.has_url == st.has_url
    &&& m.viewport == st.viewport
    &&& m.context == st.context
}

fn state_metadata_of(st: &CapturedState, position: usize) -> (m: StateMetadata)
    ensures
        is_state_metadata_of(m, *st, position as int),
{
    let filename = state_filename(position, st.step_name.as_str());
    let url = match &st.url {
        Some(u) => Some(u.clone()),
        None => None,
    };
    let context = match &st.context {
        Some(c) => Some(c.clone()),
        None => None,
    };
    StateMetadata {
        step_index: st.step_index,
        step_name: st.step_name.clone(),
        filename,
        url,
        has_url: st.has_url,
        viewport: st.viewport,
        context,
    }
}

/// What the per-task record written beside the screenshots must hold: the
/// result's own fields, and one entry per captured state carrying the file
/// name its screenshot goes under (positions are one-based).
pub open spec fn is_task_metadata_of(m: TaskMetadata, r: ExecutionResult) -> bool {
    &&& m.task_id@ == r.task_id@
    &&& m.app@ == r.app@
    &&& m.description@ == r.description@
    &&& m.success == r.success
    &&& m.execution_time_ms == r.execution_time_ms
    &&& m.error == r.error
    &&& m.states@.len() == r.captured_states@.len()
    &&& forall|i: int|
        0 <= i < m.states@.len() ==> is_state_metadata_of(
            #[trigger] m.states@[i],
            r.captured_states@[i],
            i + 1,
        )
}

/// Builds the record saved for one task: its outcome and, for each captured
/// state, the metadata entry naming the screenshot file.
pub fn task_metadata_of(result: &ExecutionResult) -> (m: TaskMetadata)
    ensures
        is_task_metadata_of(m, *result),
{
    let mut states: Vec<StateMetadata> = Vec::new();
    let mut i: usize = 0;
    let n = result.captured_states.len();
    while i < n
        invariant
            i <= n,
            n == result.captured_states@.len(),
            states@.len() == i,
            forall|j: int|
                0 <= j < i ==> is_state_metadata_of(
                    #[trigger] states@[j],
                    result.captured_states@[j],
                    j + 1,
                ),
        decreases n - i,
    {
        let sm = state_metadata_of(&result.captured_states[i], i + 1);
        states.push(sm);
        i = i + 1;
    }
    let error = match &result.error {
        Some(e) => Some(e.clone()),
        None => None,
    };
    TaskMetadata {
        task_id: result.task_id.clone(),
        app: result.app.clone(),
        description: result.description.clone(),
        success: result.success,
        execution_time_ms: result.execution_time_ms,
        error,
        states,
    }
}

/// How many of the first `upto` results succeeded.
pub open spec fn success_count(rs: Seq<ExecutionResult>, upto: int) -> int
    decreases upto,
{
    if upto <= 0 {
        0
    } else {
        success_count(rs, upto - 1) + if rs[upto - 1].success {
            1int
        } else {
            0int
        }
    }
}

/// How many states the first `upto` results captured in all.
pub open spec fn states_total(rs: Seq<ExecutionResult>, upto: int) -> int
    decreases upto,
{
    if upto <= 0 {
        0
    } else {
        states_total(rs, upto - 1) + rs[upto - 1].captured_states@.len()
    }
}

proof fn lemma_states_total_mono(rs: Seq<ExecutionResult>, a: int, b: int)
    requires
        a <= b,
    ensures
        states_total(rs, a) <= states_total(rs, b),
    decreases b - a,
{
    if a < b {
        lemma_states_total_mono(rs, a, b - 1);
    }
}

/// The relative path a task's record is laid out under: its app, a slash,
/// its id.
pub open spec fn summary_path_spec(app: Seq<char>, task_id: Seq<char>) -> Seq<char> {
    app + "/"@ + task_id
}

/// What one line of the dataset index must hold of its result.
pub open spec fn is_summary_of(s: TaskSummary, r: ExecutionResult) -> bool {
    &&& s.task_id@ == r.task_id@
    &&& s.app@ == r.app@
    &&& s.description@ == r.description@
    &&& s.success == r.success
    &&& s.state_count == r.captured_states@.len()
    &&& s.path@ == summary_path_spec(r.app@, r.task_id@)
}

fn summary_of(result: &ExecutionResult) -> (s: TaskSummary)
    ensures
        is_summary_of(s, *result),
{
    let mut path = result.app.clone();
    path.append("/");
    path.append(result.task_id.as_str());
    TaskSummary {
        task_id: result.task_id.clone(),
        app: result.app.clone(),
        description: result.description.clone(),
        success: result.success,
        state_count: result.captured_states.len(),
        path,
    }
}

/// Builds the index record of a whole batch: the number of tasks, how many
/// succeeded, how many states were captured in all, and one summary line per
/// task in batch order.  The generation instant comes from the clock, so
/// nothing is promised of it.
pub fn build_index(results: &Vec<ExecutionResult>) -> (r: DatasetIndex)
    requires
        states_total(results@, results@.len() as int) <= usize::MAX,
    ensures
        r.total_tasks == results@.len(),
        r.successful_tasks == success_count(results@, results@.len() as int),
        r.total_states == states_total(results@, results@.len() as int),
        r.tasks@.len() == results@.len(),
        forall|i: int|
            0 <= i < results@.len() ==> is_summary_of(#[trigger] r.tasks@[i], results@[i]),
{
    let n = results.len();
    let mut successful: usize = 0;
    let mut total: usize = 0;
    let mut tasks: Vec<TaskSummary> = Vec::new();
    let mut i: usize = 0;
    while i < n
        invariant
            i <= n,
            n == results@.len(),
            successful == success_count(results@, i as int),
            total == states_total(results@, i as int),
            states_total(results@, n as int) <= usize::MAX,
            successful <= i,
            tasks@.len() == i,
            forall|j: int| 0 <= j < i ==> is_summary_of(#[trigger] tasks@[j], results@[j]),
        decreases n - i,
    {
        proof {
            lemma_states_total_mono(results@, i + 1, n as int);
        }
        let result = &results[i];
        if result.success {
            successful = successful + 1;
        }
        total = total + result.captured_states.len();
        let s = summary_of(result);
        tasks.push(s);
        i = i + 1;
    }
    DatasetIndex {
        generated_at: now_rfc3339(),
        total_tasks: n,
        successful_tasks: successful,
        total_states: total,
        tasks,
    }
}

} // verus!
