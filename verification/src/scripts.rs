use vstd::prelude::*;
use vstd::string::*;
use crate::text::{escape_quotes_spec, escape_single_quotes, int_rep, i32_to_string};

verus! {

// Every task-authored value (selector, key, storage entry) is escaped before
// it is placed inside a single-quoted literal of generated script source, so
// that no such value can close the literal and inject script of its own.

/// Source of a relative scroll by `(dx, dy)` pixels.
pub open spec fn scroll_script_spec(dx: int, dy: int) -> Seq<char> {
    "window.scrollBy("@ + int_rep(dx) + ", "@ + int_rep(dy) + ")"@
}

pub fn scroll_script(dx: i32, dy: i32) -> (r: String)
    ensures
        r@ == scroll_script_spec(dx as int, dy as int),
{
    let mut s = String::from_str("window.scrollBy(");
    let xs = i32_to_string(dx);
    s.append(xs.as_str());
    s.append(", ");
    let ys = i32_to_string(dy);
    s.append(ys.as_str());
    s.append(")");
    s
}

/// Source of a document-level keydown event for the given key name.
pub open spec fn keydown_script_spec(key: Seq<char>) -> Seq<char> {
    "window.dispatchEvent(new KeyboardEvent('keydown', { key: '"@ + escape_quotes_spec(key)
        + "' }))"@
}

pub fn keydown_script(key: &str) -> (r: String)
    ensures
        r@ == keydown_script_spec(key@),
{
    let mut s = String::from_str("window.dispatchEvent(new KeyboardEvent('keydown', { key: '");
    let k = escape_single_quotes(key);
    s.append(k.as_str());
    s.append("' }))");
    s
}

/// Source of one local-storage assignment.
pub open spec fn storage_script_spec(key: Seq<char>, value: Seq<char>) -> Seq<char> {
    "localStorage.setItem('"@ + escape_quotes_spec(key) + "', '"@ + escape_quotes_spec(value)
        + "');"@
}

pub fn storage_script(key: &str, value: &str) -> (r: String)
    ensures
        r@ == storage_script_spec(key@, value@),
{
    let mut s = String::from_str("localStorage.setItem('");
    let k = escape_single_quotes(key);
    s.append(k.as_str());
    s.append("', '");
    let v = escape_single_quotes(value);
    s.append(v.as_str());
    s.append("');");
    s
}

/// Source of a probe that reports the raw facts the visibility predicate
/// reads: existence, rounded bounding-box dimensions, and the computed
/// `visibility` and `display` styles.
pub open spec fn visibility_probe_script_spec(selector: Seq<char>) -> Seq<char> {
    "(() => { const el = document.querySelector('"@ + escape_quotes_spec(selector)
        + "'); if (!el) { return { exists: false, width: 0, height: 0, visibility: '', display: '' }; } const rect = el.getBoundingClientRect(); const style = window.getComputedStyle(el); return { exists: true, width: Math.ceil(rect.width), height: Math.ceil(rect.height), visibility: style.visibility, display: style.display }; })()"@
}

pub fn visibility_probe_script(selector: &str) -> (r: String)
    ensures
        r@ == visibility_probe_script_spec(selector@),
{
    let mut s = String::from_str("(() => { const el = document.querySelector('");
    let sel = escape_single_quotes(selector);
    s.append(sel.as_str());
    s.append(
        "'); if (!el) { return { exists: false, width: 0, height: 0, visibility: '', display: '' }; } const rect = el.getBoundingClientRect(); const style = window.getComputedStyle(el); return { exists: true, width: Math.ceil(rect.width), height: Math.ceil(rect.height), visibility: style.visibility, display: style.display }; })()",
    );
    s
}

/// Source of a probe for an element's `disabled` attribute; `negate` asks
/// for the enabled (negated) form.
pub open spec fn disabled_probe_script_spec(selector: Seq<char>, negate: bool) -> Seq<char> {
    (if negate {
        "!"@
    } else {
        Seq::<char>::empty()
    }) + "document.querySelector('"@ + escape_quotes_spec(selector) + "')?.disabled"@
}

pub fn disabled_probe_script(selector: &str, negate: bool) -> (r: String)
    ensures
        r@ == disabled_probe_script_spec(selector@, negate),
{
    let mut s = if negate {
        String::from_str("!")
    } else {
        String::new()
    };
    s.append("document.querySelector('");
    let sel = escape_single_quotes(selector);
    s.append(sel.as_str());
    s.append("')?.disabled");
    s
}

/// Source of the settle request: two consecutive animation-frame callbacks,
/// to flush pending layout and paint before a screenshot.
pub fn settle_script() -> (r: String)
    ensures
        r@
            == "new Promise(resolve => { requestAnimationFrame(() => { requestAnimationFrame(resolve); }); })"@,
{
    String::from_str(
        "new Promise(resolve => { requestAnimationFrame(() => { requestAnimationFrame(resolve); }); })",
    )
}

/// Source of the viewport probe: inner width and height and vertical scroll
/// offset.
pub fn viewport_probe_script() -> (r: String)
    ensures
        r@
            == "({ width: window.innerWidth, height: window.innerHeight, scrollY: window.scrollY })"@,
{
    String::from_str(
        "({ width: window.innerWidth, height: window.innerHeight, scrollY: window.scrollY })",
    )
}

/// Source of the page-metadata probe: title, URL, ready state, focused
/// element, and the modal and overlay heuristics.
pub fn page_metadata_probe_script() -> (r: String)
    ensures
        r@
            == "({ title: document.title, url: document.location.href, readyState: document.readyState, activeElement: document.activeElement ? document.activeElement.id : null, hasModals: document.querySelectorAll('[role=\"dialog\"]').length > 0, hasOverlays: document.querySelectorAll('[class*=\"overlay\"]').length > 0 })"@,
{
    String::from_str(
        "({ title: document.title, url: document.location.href, readyState: document.readyState, activeElement: document.activeElement ? document.activeElement.id : null, hasModals: document.querySelectorAll('[role=\"dialog\"]').length > 0, hasOverlays: document.querySelectorAll('[class*=\"overlay\"]').length > 0 })",
    )
}

} // verus!
