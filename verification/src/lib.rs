pub mod capture;
pub mod codec;
pub mod dispatch;
pub mod engine;
pub mod models;
pub mod output;
pub mod scripts;
pub mod text;
pub mod waits;

use vstd::prelude::*;

verus! {

/// Configuration for a capture run: the viewport the browser pages are
/// opened with.
pub struct CaptureEngine {
    pub viewport_width: u32,
    pub viewport_height: u32,
}

impl Default for CaptureEngine {
    fn default() -> (r: CaptureEngine)
        ensures
            r.viewport_width == 1920,
            r.viewport_height == 1080,
    {
        CaptureEngine::new()
    }
}

impl CaptureEngine {
    pub fn new() -> (r: CaptureEngine)
        ensures
            r.viewport_width == 1920,
            r.viewport_height == 1080,
    {
        CaptureEngine { viewport_width: 1920, viewport_height: 1080 }
    }

    pub fn with_viewport(width: u32, height: u32) -> (r: CaptureEngine)
        ensures
            r.viewport_width == width,
            r.viewport_height == height,
    {
        CaptureEngine { viewport_width: width, viewport_height: height }
    }
}

} // verus!
