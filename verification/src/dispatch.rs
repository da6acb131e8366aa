use vstd::prelude::*;
use vstd::string::*;
use crate::models::{Action, ScrollDirection};
use crate::scripts::{keydown_script, keydown_script_spec, scroll_script, scroll_script_spec};
use crate::text::{starts_with, starts_with_spec};

verus! {

/// One primitive browser-session call.  The dispatcher maps each declarative
/// action to a short sequence of these; the caller performs them in order
/// against the page, stopping at the first failure.  A `Locate` that finds
/// no element fails with its `not_found` message; the element it finds is
/// the target of the `Click`, `Hover`, `TypeText` and `PressKeys` calls that
/// follow it.
#[derive(Debug, Clone)]
pub enum BrowserOp {
    Sleep { ms: u64 },
    Navigate { url: String },
    Locate { selector: String, not_found: String },
    Click,
    Hover,
    TypeText { text: String },
    PressKeys { combo: String },
    Evaluate { script: String },
}

pub open spec fn op_is_sleep(op: BrowserOp, ms: u64) -> bool {
    match op {
        BrowserOp::Sleep { ms: m } => m == ms,
        _ => false,
    }
}

pub open spec fn op_is_navigate(op: BrowserOp, url: Seq<char>) -> bool {
    match op {
        BrowserOp::Navigate { url: u } => u@ == url,
        _ => false,
    }
}

pub open spec fn op_is_locate(op: BrowserOp, sel: Seq<char>, msg: Seq<char>) -> bool {
    match op {
        BrowserOp::Locate { selector, not_found } => selector@ == sel && not_found@ == msg,
        _ => false,
    }
}

pub open spec fn op_is_type_text(op: BrowserOp, text: Seq<char>) -> bool {
    match op {
        BrowserOp::TypeText { text: t } => t@ == text,
        _ => false,
    }
}

pub open spec fn op_is_press_keys(op: BrowserOp, combo: Seq<char>) -> bool {
    match op {
        BrowserOp::PressKeys { combo: c } => c@ == combo,
        _ => false,
    }
}

pub open spec fn op_is_evaluate(op: BrowserOp, script: Seq<char>) -> bool {
    match op {
        BrowserOp::Evaluate { script: s } => s@ == script,
        _ => false,
    }
}

/// The `(dx, dy)` translation of a scroll: down and right move by the given
/// amount along their axis, up and left by its negation.
pub open spec fn scroll_delta_spec(direction: ScrollDirection, amount: int) -> (int, int) {
    match direction {
        ScrollDirection::Down => (0, amount),
        ScrollDirection::Up => (0, -amount),
        ScrollDirection::Left => (-amount, 0),
        ScrollDirection::Right => (amount, 0),
    }
}

/// Translates a scroll direction and signed amount into the `(dx, dy)` pair
/// handed to the relative-scroll call.
pub fn scroll_delta(direction: ScrollDirection, amount: i32) -> (r: (i32, i32))
    requires
        (direction == ScrollDirection::Up || direction == ScrollDirection::Left) ==> amount
            != i32::MIN,
    ensures
        (r.0 as int, r.1 as int) == scroll_delta_spec(direction, amount as int),
{
    match direction {
        ScrollDirection::Down => (0, amount),
        ScrollDirection::Up => (0, -amount),
        ScrollDirection::Left => (-amount, 0),
        ScrollDirection::Right => (amount, 0),
    }
}

/// An absolute URL (scheme-prefixed) is used as it stands; anything else is
/// appended to the task's base URL.
pub open spec fn resolve_url_spec(base: Seq<char>, url: Seq<char>) -> Seq<char> {
    if starts_with_spec(url, "http"@) {
        url
    } else {
        base + url
    }
}

pub fn resolve_url(base_url: &str, url: &str) -> (r: String)
    ensures
        r@ == resolve_url_spec(base_url@, url@),
{
    if starts_with(url, "http") {
        String::from_str(url)
    } else {
        let mut s = String::from_str(base_url);
        s.append(url);
        s
    }
}

/// The message a `Locate` fails with when an element addressed as a click or
/// hover target is absent.
pub open spec fn element_not_found_spec(sel: Seq<char>) -> Seq<char> {
    "element not found: "@ + sel
}

/// The message a `Locate` fails with when an element addressed as a typing
/// target is absent.
pub open spec fn input_not_found_spec(sel: Seq<char>) -> Seq<char> {
    "input not found: "@ + sel
}

fn element_not_found(selector: &str) -> (r: String)
    ensures
        r@ == element_not_found_spec(selector@),
{
    let mut s = String::from_str("element not found: ");
    s.append(selector);
    s
}

fn input_not_found(selector: &str) -> (r: String)
    ensures
        r@ == input_not_found_spec(selector@),
{
    let mut s = String::from_str("input not found: ");
    s.append(selector);
    s
}

/// The select-all key combination for the platform the browser runs on.
pub open spec fn select_all_combo_spec(macos: bool) -> Seq<char> {
    if macos {
        "Meta+a"@
    } else {
        "Control+a"@
    }
}

pub fn select_all_combo(macos: bool) -> (r: &'static str)
    ensures
        r@ == select_all_combo_spec(macos),
{
    if macos {
        "Meta+a"
    } else {
        "Control+a"
    }
}

/// What the plan of one action must be, case by case.
pub open spec fn plan_matches(action: Action, base: Seq<char>, macos: bool, r: Seq<BrowserOp>) -> bool {
    match action {
        Action::Navigate { url } => r.len() == 1 && op_is_navigate(r[0], resolve_url_spec(base, url@)),
        Action::Click { selector, wait_before_ms } => {
            let k: int = if wait_before_ms is Some {
                1
            } else {
                0
            };
            &&& r.len() == k + 2
            &&& (wait_before_ms matches Some(w) ==> op_is_sleep(r[0], w))
            &&& op_is_locate(r[k], selector@, element_not_found_spec(selector@))
            &&& r[k + 1] is Click
        },
        Action::Type { selector, value, clear_first } => {
            let k: int = if clear_first {
                3
            } else {
                0
            };
            &&& r.len() == k + 2
            &&& op_is_locate(r[0], selector@, input_not_found_spec(selector@))
            &&& (clear_first ==> r[1] is Click && op_is_press_keys(
                r[2],
                select_all_combo_spec(macos),
            ) && op_is_press_keys(r[3], "Backspace"@))
            &&& op_is_type_text(r[k + 1], value@)
        },
        Action::Wait { duration_ms } => r.len() == 1 && op_is_sleep(r[0], duration_ms),
        Action::Scroll { direction, amount } => {
            let (dx, dy) = scroll_delta_spec(direction, amount as int);
            r.len() == 1 && op_is_evaluate(r[0], scroll_script_spec(dx, dy))
        },
        Action::Hover { selector } => {
            &&& r.len() == 2
            &&& op_is_locate(r[0], selector@, element_not_found_spec(selector@))
            &&& r[1] is Hover
        },
        Action::Press { key } => r.len() == 1 && op_is_evaluate(r[0], keydown_script_spec(key@)),
        Action::Execute { script } => r.len() == 1 && op_is_evaluate(r[0], script@),
    }
}

/// Maps one declarative action into the browser-session calls that carry it
/// out, one case per variant.
pub fn plan_action(action: &Action, base_url: &str, macos: bool) -> (r: Vec<BrowserOp>)
    requires
        (action matches Action::Scroll { direction, amount } ==> ((direction
            == ScrollDirection::Up || direction == ScrollDirection::Left) ==> amount != i32::MIN)),
    ensures
        plan_matches(*action, base_url@, macos, r@),
{
    let mut r: Vec<BrowserOp> = Vec::new();
    match action {
        Action::Navigate { url } => {
            let full = resolve_url(base_url, url.as_str());
            r.push(BrowserOp::Navigate { url: full });
        },
        Action::Click { selector, wait_before_ms } => {
            if let Some(w) = wait_before_ms {
                r.push(BrowserOp::Sleep { ms: *w });
            }
            let msg = element_not_found(selector.as_str());
            r.push(BrowserOp::Locate { selector: selector.clone(), not_found: msg });
            r.push(BrowserOp::Click);
        },
        Action::Type { selector, value, clear_first } => {
            let msg = input_not_found(selector.as_str());
            r.push(BrowserOp::Locate { selector: selector.clone(), not_found: msg });
            if *clear_first {
                r.push(BrowserOp::Click);
                let combo = select_all_combo(macos);
                r.push(BrowserOp::PressKeys { combo: String::from_str(combo) });
                r.push(BrowserOp::PressKeys { combo: String::from_str("Backspace") });
            }
            r.push(BrowserOp::TypeText { text: value.clone() });
        },
        Action::Wait { duration_ms } => {
            r.push(BrowserOp::Sleep { ms: *duration_ms });
        },
        Action::Scroll { direction, amount } => {
            let (dx, dy) = scroll_delta(*direction, *amount);
            let script = scroll_script(dx, dy);
            r.push(BrowserOp::Evaluate { script });
        },
        Action::Hover { selector } => {
            let msg = element_not_found(selector.as_str());
            r.push(BrowserOp::Locate { selector: selector.clone(), not_found: msg });
            r.push(BrowserOp::Hover);
        },
        Action::Press { key } => {
            let script = keydown_script(key.as_str());
            r.push(BrowserOp::Evaluate { script });
        },
        Action::Execute { script } => {
            r.push(BrowserOp::Evaluate { script: script.clone() });
        },
    }
    r
}

} // verus!
