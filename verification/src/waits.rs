use vstd::prelude::*;
use vstd::string::*;
use crate::models::{ElementState, WaitCondition, element_state_name};
use crate::text::{contains_seq, contains_substring, lemma_concat_contains_suffix, str_eq};

verus! {

/// Milliseconds a polling wait suspends between two probes.
pub const POLL_INTERVAL_MS: u64 = 100;

/// The raw facts a visibility probe reports about one element: whether a
/// node matched the selector, its bounding-box width and height rounded up
/// to whole pixels, and its computed `visibility` and `display` styles.
#[derive(Debug, Clone)]
pub struct ElementProbe {
    pub exists: bool,
    pub width: u64,
    pub height: u64,
    pub visibility: String,
    pub display: String,
}

/// An element is visible iff it exists, its bounding rectangle has positive
/// width and height, and its computed style has `visibility` other than
/// `hidden` and `display` other than `none`.
pub open spec fn visible_spec(p: ElementProbe) -> bool {
    &&& p.exists
    &&& p.width > 0
    &&& p.height > 0
    &&& p.visibility@ != "hidden"@
    &&& p.display@ != "none"@
}

/// Evaluates the visibility predicate on one probe result.
pub fn element_visible(p: &ElementProbe) -> (r: bool)
    ensures
        r == visible_spec(*p),
{
    p.exists && p.width > 0 && p.height > 0 && !str_eq(p.visibility.as_str(), "hidden")
        && !str_eq(p.display.as_str(), "none")
}

/// An element with zero width or height, or `display:none`, or
/// `visibility:hidden`, is never visible; one that exists with positive
/// dimensions and visible styling always is, so reintroducing those makes
/// the next poll succeed.
pub proof fn lemma_visibility_predicate(p: ElementProbe)
    ensures
        (p.width == 0 || p.height == 0 || p.display@ == "none"@ || p.visibility@ == "hidden"@)
            ==> !visible_spec(p),
        (p.exists && p.width > 0 && p.height > 0 && p.visibility@ != "hidden"@ && p.display@
            != "none"@) ==> visible_spec(p),
{
}

/// Whether the current URL satisfies a URL wait: it contains the pattern as
/// a substring.
pub fn url_matches(url: &str, pattern: &str) -> (r: bool)
    ensures
        r == contains_seq(url@, pattern@),
{
    contains_substring(url, pattern)
}

/// A poll has run out of time only when the elapsed time strictly exceeds
/// the condition's timeout.
pub open spec fn timeout_expired_spec(elapsed: int, timeout: int) -> bool {
    elapsed > timeout
}

/// Whether a poll that has been waiting for `elapsed_ms` has passed its
/// timeout.  Checked before each probe, so a wait never fails earlier than
/// its timeout.
pub fn timeout_expired(elapsed_ms: u64, timeout_ms: u64) -> (r: bool)
    ensures
        r == timeout_expired_spec(elapsed_ms as int, timeout_ms as int),
{
    elapsed_ms > timeout_ms
}

/// A wait whose elapsed time has not yet passed the timeout is never
/// reported as timed out.
pub proof fn lemma_no_early_timeout(elapsed: int, timeout: int)
    requires
        elapsed <= timeout,
    ensures
        !timeout_expired_spec(elapsed, timeout),
{
}

/// For enabled/disabled waits the probe reports the element's `disabled`
/// attribute (negated for the enabled form); the wait is satisfied only by a
/// definite true, anything else (absent element, non-boolean answer) counts
/// as not yet satisfied.
pub fn attr_poll_satisfied(attr: Option<bool>) -> (r: bool)
    ensures
        r == (attr == Some(true)),
{
    match attr {
        Some(b) => b,
        None => false,
    }
}

pub open spec fn selector_timeout_message_spec(sel: Seq<char>) -> Seq<char> {
    "timeout waiting for selector: "@ + sel
}

/// The failure message of a selector wait that ran out of time; it carries
/// the selector text.
pub fn selector_timeout_message(selector: &str) -> (r: String)
    ensures
        r@ == selector_timeout_message_spec(selector@),
        contains_seq(r@, selector@),
{
    let mut s = String::from_str("timeout waiting for selector: ");
    s.append(selector);
    proof {
        lemma_concat_contains_suffix("timeout waiting for selector: "@, selector@);
    }
    s
}

/// A selector wait's timeout message always names the selector waited for.
pub proof fn lemma_selector_timeout_message_names_selector(sel: Seq<char>)
    ensures
        contains_seq(selector_timeout_message_spec(sel), sel),
{
    lemma_concat_contains_suffix("timeout waiting for selector: "@, sel);
}

pub open spec fn url_timeout_message_spec(pattern: Seq<char>) -> Seq<char> {
    "timeout waiting for url pattern: "@ + pattern
}

/// The failure message of a URL wait that ran out of time; it carries the
/// pattern waited for.
pub fn url_timeout_message(pattern: &str) -> (r: String)
    ensures
        r@ == url_timeout_message_spec(pattern@),
        contains_seq(r@, pattern@),
{
    let mut s = String::from_str("timeout waiting for url pattern: ");
    s.append(pattern);
    proof {
        lemma_concat_contains_suffix("timeout waiting for url pattern: "@, pattern@);
    }
    s
}

pub open spec fn element_timeout_message_spec(state: ElementState) -> Seq<char> {
    "timeout waiting for element state: "@ + element_state_name(state)
}

/// The failure message of an element-state wait that ran out of time; it
/// names the requested state.
pub fn element_timeout_message(state: ElementState) -> (r: String)
    ensures
        r@ == element_timeout_message_spec(state),
{
    let mut s = String::from_str("timeout waiting for element state: ");
    s.append(state.name());
    s
}

/// How one wait condition is evaluated: a plain sleep, a single existence
/// check, or a poll every `POLL_INTERVAL_MS` until its probe is satisfied or
/// `timeout_ms` has passed, failing with `timeout_message`.
#[derive(Debug, Clone)]
pub enum WaitPlan {
    Sleep { ms: u64 },
    RequireExists { selector: String },
    Poll { probe: ProbeKind, timeout_ms: u64, timeout_message: String },
}

/// What a polling wait probes on each round.
#[derive(Debug, Clone)]
pub enum ProbeKind {
    /// The visibility predicate on the selector's element; satisfied when it
    /// equals `expect_visible`.
    Visibility { selector: String, expect_visible: bool },
    /// The element's `disabled` attribute, negated for the enabled form;
    /// satisfied by a definite true.
    DisabledAttr { selector: String, negate: bool },
    /// The current URL; satisfied when it contains `pattern`.
    UrlContains { pattern: String },
}

pub open spec fn probe_is_visibility(p: ProbeKind, sel: Seq<char>, expect: bool) -> bool {
    match p {
        ProbeKind::Visibility { selector, expect_visible } => selector@ == sel && expect_visible
            == expect,
        _ => false,
    }
}

pub open spec fn probe_is_disabled_attr(p: ProbeKind, sel: Seq<char>, neg: bool) -> bool {
    match p {
        ProbeKind::DisabledAttr { selector, negate } => selector@ == sel && negate == neg,
        _ => false,
    }
}

pub open spec fn probe_is_url(p: ProbeKind, pat: Seq<char>) -> bool {
    match p {
        ProbeKind::UrlContains { pattern } => pattern@ == pat,
        _ => false,
    }
}

/// What the plan of one wait condition must be, case by case.
pub open spec fn wait_plan_matches(c: WaitCondition, p: WaitPlan) -> bool {
    match c {
        WaitCondition::Selector { value, timeout_ms, visible } => {
            if visible {
                p matches WaitPlan::Poll {
                    probe,
                    timeout_ms: t,
                    timeout_message,
                } && probe_is_visibility(probe, value@, true) && t == timeout_ms
                    && timeout_message@ == selector_timeout_message_spec(value@)
            } else {
                p matches WaitPlan::RequireExists { selector } && selector@ == value@
            }
        },
        WaitCondition::Duration { ms } => p matches WaitPlan::Sleep { ms: m } && m == ms,
        WaitCondition::NetworkIdle { timeout_ms, .. } => p matches WaitPlan::Sleep { ms: m } && m
            == timeout_ms,
        WaitCondition::Url { pattern, timeout_ms } => p matches WaitPlan::Poll {
            probe,
            timeout_ms: t,
            timeout_message,
        } && probe_is_url(probe, pattern@) && t == timeout_ms && timeout_message@
            == url_timeout_message_spec(pattern@),
        WaitCondition::Element { selector, state, timeout_ms } => p matches WaitPlan::Poll {
            probe,
            timeout_ms: t,
            timeout_message,
        } && t == timeout_ms && timeout_message@ == element_timeout_message_spec(state) && (match state {
            ElementState::Visible => probe_is_visibility(probe, selector@, true),
            ElementState::Hidden => probe_is_visibility(probe, selector@, false),
            ElementState::Enabled => probe_is_disabled_attr(probe, selector@, true),
            ElementState::Disabled => probe_is_disabled_attr(probe, selector@, false),
        }),
    }
}

/// Resolves one wait condition into its evaluation plan: a selector wait
/// with `visible` polls the visibility predicate and a plain selector wait
/// is a single existence check; a duration wait sleeps; a network-idle wait
/// is approximated by a sleep for its timeout (no in-flight-request
/// accounting); a URL wait polls for the pattern; an element wait polls the
/// state's probe.
pub fn wait_plan(condition: &WaitCondition) -> (r: WaitPlan)
    ensures
        wait_plan_matches(*condition, r),
{
    match condition {
        WaitCondition::Selector { value, timeout_ms, visible } => {
            if *visible {
                let msg = selector_timeout_message(value.as_str());
                WaitPlan::Poll {
                    probe: ProbeKind::Visibility { selector: value.clone(), expect_visible: true },
                    timeout_ms: *timeout_ms,
                    timeout_message: msg,
                }
            } else {
                WaitPlan::RequireExists { selector: value.clone() }
            }
        },
        WaitCondition::Duration { ms } => WaitPlan::Sleep { ms: *ms },
        WaitCondition::NetworkIdle { timeout_ms, max_connections: _ } => WaitPlan::Sleep {
            ms: *timeout_ms,
        },
        WaitCondition::Url { pattern, timeout_ms } => {
            let msg = url_timeout_message(pattern.as_str());
            WaitPlan::Poll {
                probe: ProbeKind::UrlContains { pattern: pattern.clone() },
                timeout_ms: *timeout_ms,
                timeout_message: msg,
            }
        },
        WaitCondition::Element { selector, state, timeout_ms } => {
            let msg = element_timeout_message(*state);
            let probe = match state {
                ElementState::Visible => ProbeKind::Visibility {
                    selector: selector.clone(),
                    expect_visible: true,
                },
                ElementState::Hidden => ProbeKind::Visibility {
                    selector: selector.clone(),
                    expect_visible: false,
                },
                ElementState::Enabled => ProbeKind::DisabledAttr {
                    selector: selector.clone(),
                    negate: true,
                },
                ElementState::Disabled => ProbeKind::DisabledAttr {
                    selector: selector.clone(),
                    negate: false,
                },
            };
            WaitPlan::Poll { probe, timeout_ms: *timeout_ms, timeout_message: msg }
        },
    }
}

} // verus!
