use vstd::prelude::*;

verus! {

/// A size in logical (scale-independent) pixels.
#[derive(Clone, Copy, Debug, PartialEq, Eq, Structural)]
pub struct LogicalSize {
    pub width: u32,
    pub height: u32,
}

/// Minimum width of a window surface.
pub const MIN_WINDOW_WIDTH: u32 = 2;

/// Minimum height of a window surface.
pub const MIN_WINDOW_HEIGHT: u32 = 1;

/// Minimum window surface size.
pub open spec fn spec_min_window_size() -> LogicalSize {
    LogicalSize { width: MIN_WINDOW_WIDTH, height: MIN_WINDOW_HEIGHT }
}

/// Minimum window surface size.
#[verifier::when_used_as_spec(spec_min_window_size)]
pub fn min_window_size() -> (s: LogicalSize)
    ensures
        s == spec_min_window_size(),
{
    LogicalSize { width: MIN_WINDOW_WIDTH, height: MIN_WINDOW_HEIGHT }
}

impl LogicalSize {
    pub fn new(width: u32, height: u32) -> (s: LogicalSize)
        ensures
            s.width == width,
            s.height == height,
    {
        LogicalSize { width, height }
    }

    /// At least as large as the minimum window size in both dimensions.
    pub open spec fn covers_minimum(self) -> bool {
        self.width >= MIN_WINDOW_WIDTH && self.height >= MIN_WINDOW_HEIGHT
    }
}

/// A position in logical (scale-independent) pixels.
#[derive(Clone, Copy, Debug, PartialEq, Eq, Structural)]
pub struct LogicalPosition {
    pub x: u32,
    pub y: u32,
}

} // verus!
