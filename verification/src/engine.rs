use vstd::prelude::*;
use vstd::string::*;
use crate::capture::{CaptureData, assemble_captured_state, base64_fits, is_capture_of};
use crate::models::{CapturedState, ExecutionResult, Setup, Step, TaskDefinition};
use crate::scripts::{storage_script, storage_script_spec};
use crate::text::{contains_seq, lemma_concat_contains_mid};

verus! {

/// How many of the first `upto` steps carry the capture flag.
pub open spec fn capture_count(steps: Seq<Step>, upto: int) -> int
    decreases upto,
{
    if upto <= 0 {
        0
    } else {
        capture_count(steps, upto - 1) + if steps[upto - 1].capture {
            1int
        } else {
            0int
        }
    }
}

pub proof fn lemma_capture_count_mono(steps: Seq<Step>, a: int, b: int)
    requires
        a <= b,
    ensures
        capture_count(steps, a) <= capture_count(steps, b),
    decreases b - a,
{
    if a < b {
        lemma_capture_count_mono(steps, a, b - 1);
    }
}

/// The states collected after the first `upto` steps are exactly one record
/// per capture-marked step among them, in step order, each carrying its
/// step's original index and name.
pub open spec fn captures_ok(states: Seq<CapturedState>, steps: Seq<Step>, upto: int) -> bool
    decreases upto,
{
    if upto <= 0 {
        states.len() == 0
    } else if steps[upto - 1].capture {
        &&& states.len() > 0
        &&& states.last().step_index == upto - 1
        &&& states.last().step_name@ == steps[upto - 1].name@
        &&& captures_ok(states.drop_last(), steps, upto - 1)
    } else {
        captures_ok(states, steps, upto - 1)
    }
}

/// A well-formed collection holds exactly one state per capture-marked step
/// already passed.
pub proof fn lemma_captures_len(states: Seq<CapturedState>, steps: Seq<Step>, upto: int)
    requires
        captures_ok(states, steps, upto),
    ensures
        states.len() == capture_count(steps, upto),
    decreases upto,
{
    if upto <= 0 {
    } else if steps[upto - 1].capture {
        lemma_captures_len(states.drop_last(), steps, upto - 1);
    } else {
        lemma_captures_len(states, steps, upto - 1);
    }
}

/// Every collected state belongs to a capture-marked step with index below
/// the stopping point, and carries that step's name: a failure at step k
/// leaves only captures of capture-marked steps with index < k.
pub proof fn lemma_captures_members(states: Seq<CapturedState>, steps: Seq<Step>, upto: int)
    requires
        captures_ok(states, steps, upto),
    ensures
        forall|j: int|
            0 <= j < states.len() ==> {
                &&& 0 <= #[trigger] states[j].step_index < upto
                &&& steps[states[j].step_index as int].capture
                &&& states[j].step_name@ == steps[states[j].step_index as int].name@
            },
    decreases upto,
{
    if upto <= 0 {
    } else if steps[upto - 1].capture {
        lemma_captures_members(states.drop_last(), steps, upto - 1);
        assert forall|j: int| 0 <= j < states.len() implies {
            &&& 0 <= #[trigger] states[j].step_index < upto
            &&& steps[states[j].step_index as int].capture
            &&& states[j].step_name@ == steps[states[j].step_index as int].name@
        } by {
            if j < states.len() - 1 {
                assert(states[j] == states.drop_last()[j]);
            }
        }
    } else {
        lemma_captures_members(states, steps, upto - 1);
    }
}

/// A run that stopped after `upto` steps holds exactly the captures of those
/// steps, never more than the task's full capture count; a run that
/// completed holds exactly the full count.
pub proof fn lemma_captured_bound(states: Seq<CapturedState>, steps: Seq<Step>, upto: int)
    requires
        captures_ok(states, steps, upto),
        0 <= upto <= steps.len(),
    ensures
        states.len() == capture_count(steps, upto),
        states.len() <= capture_count(steps, steps.len() as int),
        upto == steps.len() ==> states.len() == capture_count(steps, steps.len() as int),
{
    lemma_captures_len(states, steps, upto);
    lemma_capture_count_mono(steps, upto, steps.len() as int);
}

/// A run that stopped before a capture-marked step holds strictly fewer
/// states than the task's full capture count.  (When every capture-marked
/// step lies before the failing one, the count can be complete although the
/// run failed, so equality of the counts implies success only under this
/// premise.)
pub proof fn lemma_incomplete_run_misses_captures(
    states: Seq<CapturedState>,
    steps: Seq<Step>,
    upto: int,
    w: int,
)
    requires
        captures_ok(states, steps, upto),
        0 <= upto <= w < steps.len(),
        steps[w].capture,
    ensures
        states.len() < capture_count(steps, steps.len() as int),
{
    lemma_captures_len(states, steps, upto);
    lemma_capture_count_mono(steps, upto, w);
    assert(capture_count(steps, w + 1) == capture_count(steps, w) + 1);
    lemma_capture_count_mono(steps, w + 1, steps.len() as int);
}

/// The error text of a failed step: the step's name and the underlying
/// cause.
pub open spec fn step_failed_message_spec(name: Seq<char>, cause: Seq<char>) -> Seq<char> {
    "step '"@ + name + "' failed: "@ + cause
}

/// Builds the error text of a failed step; it always names the step.
pub fn step_failed_message(name: &str, cause: &str) -> (r: String)
    ensures
        r@ == step_failed_message_spec(name@, cause@),
        contains_seq(r@, name@),
{
    let mut s = String::from_str("step '");
    s.append(name);
    s.append("' failed: ");
    s.append(cause);
    proof {
        assert(s@ =~= "step '"@ + name@ + ("' failed: "@ + cause@));
        lemma_concat_contains_mid("step '"@, name@, "' failed: "@ + cause@);
        assert(s@ =~= "step '"@ + name@ + "' failed: "@ + cause@);
    }
    s
}

/// The state of one task's execution: the index of the next step to run and
/// the states captured so far.  The caller dispatches each step's action
/// (and wait, and capture probes) against the browser and records the
/// outcome here; the run decides what the result record is.
pub struct TaskRun {
    pub next_step: usize,
    pub captured_states: Vec<CapturedState>,
}

impl TaskRun {
    /// The captured states are exactly one record per capture-marked step
    /// already passed, in step order.
    pub open spec fn inv(self, task: TaskDefinition) -> bool {
        &&& self.next_step <= task.steps@.len()
        &&& captures_ok(self.captured_states@, task.steps@, self.next_step as int)
    }

    /// A fresh run: no step has run, nothing is captured.
    pub fn new(task: &TaskDefinition) -> (r: TaskRun)
        ensures
            r.inv(*task),
            r.next_step == 0,
            r.captured_states@.len() == 0,
    {
        TaskRun { next_step: 0, captured_states: Vec::new() }
    }

    /// Whether every step of the task has completed.
    pub fn is_done(&self, task: &TaskDefinition) -> (r: bool)
        ensures
            r == (self.next_step == task.steps@.len()),
    {
        self.next_step == task.steps.len()
    }

    /// Records that the current step's action (and wait, if any) succeeded.
    /// For a capture-marked step the browser's capture data must be handed
    /// in and is assembled into the step's captured state; for any other
    /// step nothing is captured.  Execution then moves to the next step.
    pub fn record_step_success(&mut self, task: &TaskDefinition, data: Option<CaptureData>)
        requires
            old(self).inv(*task),
            old(self).next_step < task.steps@.len(),
            data is Some <==> task.steps@[old(self).next_step as int].capture,
            data matches Some(d) ==> base64_fits(d.screenshot@),
        ensures
            final(self).inv(*task),
            final(self).next_step == old(self).next_step + 1,
            task.steps@[old(self).next_step as int].capture ==> {
                &&& final(self).captured_states@.len() == old(self).captured_states@.len() + 1
                &&& final(self).captured_states@.drop_last() == old(self).captured_states@
                &&& is_capture_of(
                    final(self).captured_states@.last(),
                    old(self).next_step as int,
                    task.steps@[old(self).next_step as int],
                    data.unwrap(),
                )
            },
            !task.steps@[old(self).next_step as int].capture ==> final(self).captured_states@
                == old(self).captured_states@,
    {
        let idx = self.next_step;
        let n = task.steps.len();
        assert(idx < n);
        match data {
            Some(d) => {
                let st = assemble_captured_state(idx, &task.steps[idx], d);
                self.captured_states.push(st);
                proof {
                    assert(self.captured_states@.drop_last() =~= old(self).captured_states@);
                }
            },
            None => {},
        }
        self.next_step = idx + 1;
    }

    /// Builds the failed result when the current step's action, wait or
    /// capture failed: no further step runs, success is false, the error
    /// names the failing step and the cause, and the captured states are
    /// exactly those collected before the failing step.
    pub fn record_step_failure(self, task: &TaskDefinition, cause: &str, elapsed_ms: u64) -> (r:
        ExecutionResult)
        requires
            self.inv(*task),
            self.next_step < task.steps@.len(),
        ensures
            r.success == false,
            r.captured_states@ == self.captured_states@,
            captures_ok(r.captured_states@, task.steps@, self.next_step as int),
            r.captured_states@.len() == capture_count(task.steps@, self.next_step as int),
            r.error matches Some(e) && e@ == step_failed_message_spec(
                task.steps@[self.next_step as int].name@,
                cause@,
            ),
            contains_seq(r.error.unwrap()@, task.steps@[self.next_step as int].name@),
            r.task_id@ == task.id@,
            r.app@ == task.app@,
            r.description@ == task.description@,
            r.execution_time_ms == elapsed_ms,
    {
        proof {
            lemma_captures_len(self.captured_states@, task.steps@, self.next_step as int);
        }
        let idx = self.next_step;
        let error = step_failed_message(task.steps[idx].name.as_str(), cause);
        ExecutionResult {
            task_id: task.id.clone(),
            app: task.app.clone(),
            description: task.description.clone(),
            success: false,
            captured_states: self.captured_states,
            error: Some(error),
            execution_time_ms: elapsed_ms,
        }
    }

    /// Builds the successful result once every step has completed: success
    /// is true, there is no error, and the captured states are exactly one
    /// record per capture-marked step of the task.
    pub fn finish(self, task: &TaskDefinition, elapsed_ms: u64) -> (r: ExecutionResult)
        requires
            self.inv(*task),
            self.next_step == task.steps@.len(),
        ensures
            r.success == true,
            r.error is None,
            r.captured_states@ == self.captured_states@,
            captures_ok(r.captured_states@, task.steps@, task.steps@.len() as int),
            r.captured_states@.len() == capture_count(task.steps@, task.steps@.len() as int),
            r.task_id@ == task.id@,
            r.app@ == task.app@,
            r.description@ == task.description@,
            r.execution_time_ms == elapsed_ms,
    {
        proof {
            lemma_captures_len(self.captured_states@, task.steps@, self.next_step as int);
        }
        ExecutionResult {
            task_id: task.id.clone(),
            app: task.app.clone(),
            description: task.description.clone(),
            success: true,
            captured_states: self.captured_states,
            error: None,
            execution_time_ms: elapsed_ms,
        }
    }
}

/// One browser call of the setup phase.
#[derive(Debug, Clone)]
pub enum SetupOp {
    SetCookie { name: String, value: String, domain: String },
    Evaluate { script: String },
    Navigate { url: String },
}

pub open spec fn setup_cookies(setup: Setup) -> Seq<crate::models::Cookie> {
    match setup.cookies {
        Some(c) => c@,
        None => Seq::empty(),
    }
}

pub open spec fn setup_storage(setup: Setup) -> Seq<(String, String)> {
    match setup.local_storage {
        Some(s) => s@,
        None => Seq::empty(),
    }
}

/// What the setup plan must be: every cookie in order, then every
/// local-storage assignment in order, then the navigation to the starting
/// URL appended to the base URL, each part present only when the setup names
/// it.
pub open spec fn setup_plan_matches(setup: Setup, base: Seq<char>, r: Seq<SetupOp>) -> bool {
    let cookies = setup_cookies(setup);
    let storage = setup_storage(setup);
    let nav: int = if setup.starting_url is Some {
        1
    } else {
        0
    };
    &&& r.len() == cookies.len() + storage.len() + nav
    &&& forall|i: int|
        0 <= i < cookies.len() ==> ((#[trigger] r[i]) matches SetupOp::SetCookie {
            name,
            value,
            domain,
        } && name@ == cookies[i].name@ && value@ == cookies[i].value@ && domain@
            == cookies[i].domain@)
    &&& forall|i: int|
        0 <= i < storage.len() ==> ((#[trigger] r[cookies.len() + i]) matches SetupOp::Evaluate {
            script,
        } && script@ == storage_script_spec(storage[i].0@, storage[i].1@))
    &&& (setup.starting_url matches Some(u) ==> r.last() matches SetupOp::Navigate { url } && url@
        == base + u@)
}

/// Maps a task's setup to the browser calls that apply it: cookies first,
/// then local storage, then the navigation to the starting URL, in that
/// order; each of these steps is fatal if it fails, since a broken setup
/// makes the task meaningless.
pub fn plan_setup(setup: &Setup, base_url: &str) -> (r: Vec<SetupOp>)
    ensures
        setup_plan_matches(*setup, base_url@, r@),
{
    let mut r: Vec<SetupOp> = Vec::new();
    match &setup.cookies {
        Some(cookies) => {
            let mut i: usize = 0;
            while i < cookies.len()
                invariant
                    i <= cookies@.len(),
                    r@.len() == i,
                    setup_cookies(*setup) == cookies@,
                    forall|j: int|
                        0 <= j < i ==> ((#[trigger] r@[j]) matches SetupOp::SetCookie {
                            name,
                            value,
                            domain,
                        } && name@ == cookies@[j].name@ && value@ == cookies@[j].value@ && domain@
                            == cookies@[j].domain@),
                decreases cookies@.len() - i,
            {
                let c = &cookies[i];
                r.push(
                    SetupOp::SetCookie {
                        name: c.name.clone(),
                        value: c.value.clone(),
                        domain: c.domain.clone(),
                    },
                );
                i = i + 1;
            }
        },
        None => {},
    }
    let ghost nc = setup_cookies(*setup).len();
    match &setup.local_storage {
        Some(storage) => {
            let mut i: usize = 0;
            while i < storage.len()
                invariant
                    i <= storage@.len(),
                    r@.len() == nc + i,
                    setup_storage(*setup) == storage@,
                    nc == setup_cookies(*setup).len(),
                    forall|j: int|
                        0 <= j < nc ==> ((#[trigger] r@[j]) matches SetupOp::SetCookie {
                            name,
                            value,
                            domain,
                        } && name@ == setup_cookies(*setup)[j].name@ && value@ == setup_cookies(
                            *setup,
                        )[j].value@ && domain@ == setup_cookies(*setup)[j].domain@),
                    forall|j: int|
                        0 <= j < i ==> ((#[trigger] r@[nc + j]) matches SetupOp::Evaluate { script }
                            && script@ == storage_script_spec(storage@[j].0@, storage@[j].1@)),
                decreases storage@.len() - i,
            {
                let script = storage_script(storage[i].0.as_str(), storage[i].1.as_str());
                r.push(SetupOp::Evaluate { script });
                i = i + 1;
            }
        },
        None => {},
    }
    match &setup.starting_url {
        Some(starting) => {
            let mut url = String::from_str(base_url);
            url.append(starting.as_str());
            r.push(SetupOp::Navigate { url });
        },
        None => {},
    }
    r
}

/// Appends one task's result to the batch.  A task whose fatal error
/// produced no result leaves the batch unchanged: one task's failure is
/// logged and skipped, it never keeps later tasks from running or from being
/// recorded.
pub fn record_batch_outcome(results: &mut Vec<ExecutionResult>, outcome: Option<ExecutionResult>)
    ensures
        outcome matches Some(r) ==> final(results)@ == old(results)@.push(r),
        outcome is None ==> final(results)@ == old(results)@,
{
    match outcome {
        Some(r) => results.push(r),
        None => {},
    }
}

} // verus!
