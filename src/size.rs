use vstd::prelude::*;

verus! {

/// The size of the visible display area of a pseudo-terminal.
#[derive(Debug, Clone, Copy, PartialEq, Eq, Structural)]
pub struct PtySize {
    /// The number of lines of text.
    pub rows: u16,
    /// The number of columns of text.
    pub cols: u16,
    /// The width of a cell in pixels; some systems never fill it.
    pub pixel_width: u16,
    /// The height of a cell in pixels; some systems never fill it.
    pub pixel_height: u16,
}

/// The geometry used when none is given: 24 rows of 80 columns.
pub open spec fn default_size() -> PtySize {
    PtySize { rows: 24, cols: 80, pixel_width: 0, pixel_height: 0 }
}

impl PtySize {
    pub fn new(rows: u16, cols: u16, pixel_width: u16, pixel_height: u16) -> (r: PtySize)
        ensures
            r == (PtySize { rows, cols, pixel_width, pixel_height }),
    {
        PtySize { rows, cols, pixel_width, pixel_height }
    }
}

impl Default for PtySize {
    fn default() -> (r: PtySize)
        ensures
            r == default_size(),
    {
        PtySize { rows: 24, cols: 80, pixel_width: 0, pixel_height: 0 }
    }
}

} // verus!
