use vstd::prelude::*;
use vstd::string::*;
use crate::models::{CapturedState, PageMetadata, Step, ViewportInfo};
use crate::text::str_eq;

verus! {

/// Milliseconds the capture pipeline sleeps after the animation-frame pair,
/// a heuristic substitute for a true idle signal.
pub const SETTLE_DELAY_MS: u64 = 300;

/// Options of one screenshot: full page against viewport only, and
/// background omission.
#[derive(Debug, Clone)]
pub struct CaptureOptions {
    pub full_page: bool,
    pub omit_background: bool,
}

impl Default for CaptureOptions {
    fn default() -> (r: CaptureOptions)
        ensures
            r.full_page == false,
            r.omit_background == false,
    {
        CaptureOptions { full_page: false, omit_background: false }
    }
}

/// The base64 text of a byte string, standard alphabet with padding.
pub uninterp spec fn base64_standard_of(b: Seq<u8>) -> Seq<char>;

/// The encoded form of a byte string fits in a `usize`-sized buffer; base64
/// refuses (by panic) inputs beyond this.
pub open spec fn base64_fits(b: Seq<u8>) -> bool {
    (b.len() / 3) * 4 + 4 <= usize::MAX
}

/// Relies on base64's `Engine::encode` with the `STANDARD` engine: the text
/// depends on the input bytes alone, four characters for every started group
/// of three bytes, padded.
#[verifier::external_body]
fn base64_encode(b: &Vec<u8>) -> (r: String)
    requires
        base64_fits(b@),
    ensures
        r@ == base64_standard_of(b@),
        r@.len() == ((b@.len() + 2) / 3) * 4,
{
    base64::engine::Engine::encode(&base64::engine::general_purpose::STANDARD, b.as_slice())
}

/// Relies on chrono's `Utc::now().to_rfc3339()`: the capture instant in
/// ISO-8601 form.  The value depends on the clock, so nothing is promised of
/// it.
#[verifier::external_body]
pub fn now_rfc3339() -> String {
    chrono::Utc::now().to_rfc3339()
}

/// What the browser hands back for one capture: the PNG screenshot bytes,
/// the viewport, and the page metadata.
#[derive(Debug, Clone)]
pub struct CaptureData {
    pub screenshot: Vec<u8>,
    pub viewport: ViewportInfo,
    pub page: PageMetadata,
}

/// A captured URL counts as one unless it is empty or the blank-page
/// placeholder.
pub open spec fn has_url_spec(url: Seq<char>) -> bool {
    url.len() > 0 && url != "about:blank"@
}

/// What the captured state assembled from one step's data must hold.
pub open spec fn is_capture_of(st: CapturedState, idx: int, step: Step, data: CaptureData) -> bool {
    &&& st.step_index == idx
    &&& st.step_name@ == step.name@
    &&& st.screenshot_base64@ == base64_standard_of(data.screenshot@)
    &&& st.url == Some(data.page.url)
    &&& st.has_url == has_url_spec(data.page.url@)
    &&& st.viewport == data.viewport
    &&& st.context == step.description
    &&& st.page_metadata == Some(data.page)
}

/// Assembles the captured-state record of one step from what the browser
/// reported: encodes the screenshot to its base64 transport form, computes
/// the `has_url` flag, and stamps the capture instant.
pub fn assemble_captured_state(step_index: usize, step: &Step, data: CaptureData) -> (r:
    CapturedState)
    requires
        base64_fits(data.screenshot@),
    ensures
        is_capture_of(r, step_index as int, *step, data),
{
    let screenshot_base64 = base64_encode(&data.screenshot);
    let url = data.page.url.clone();
    let has_url = !url.as_str().is_empty() && !str_eq(url.as_str(), "about:blank");
    let context = match &step.description {
        Some(d) => Some(d.clone()),
        None => None,
    };
    CapturedState {
        step_index,
        step_name: step.name.clone(),
        screenshot_base64,
        url: Some(url),
        has_url,
        viewport: data.viewport,
        timestamp: now_rfc3339(),
        context,
        page_metadata: Some(data.page),
    }
}

} // verus!
