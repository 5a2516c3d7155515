//! The logical terminal size that the virtual backend reports in place of a
//! real terminal's.

use vstd::prelude::*;

verus! {

/// Columns reported before the first resize.
pub const INITIAL_COLUMNS: u16 = 80;

/// Rows reported before the first resize.
pub const INITIAL_ROWS: u16 = 24;

/// What a window-size query answers: the grid, and a pixel size that a
/// window-hosted terminal does not report (zero).
#[derive(Clone, Copy, Debug, PartialEq, Eq)]
pub struct WindowGeometry {
    pub columns: u16,
    pub rows: u16,
    pub pixel_width: u16,
    pub pixel_height: u16,
}

/// The (columns, rows) pair that resize notifications overwrite and size
/// queries read. Both halves are written together by one call.
#[derive(Clone, Copy, Debug, PartialEq, Eq)]
pub struct SharedGeometry {
    pub columns: u16,
    pub rows: u16,
}

impl SharedGeometry {
    pub open spec fn view(&self) -> (u16, u16) {
        (self.columns, self.rows)
    }

    pub fn new() -> (r: SharedGeometry)
        ensures
            r@ == (INITIAL_COLUMNS, INITIAL_ROWS),
    {
        SharedGeometry { columns: INITIAL_COLUMNS, rows: INITIAL_ROWS }
    }

    /// Overwrites both halves of the pair.
    pub fn resize(&mut self, columns: u16, rows: u16)
        ensures
            final(self)@ == (columns, rows),
    {
        self.columns = columns;
        self.rows = rows;
    }

    /// The size query: the pair as last written.
    pub fn size(&self) -> (r: (u16, u16))
        ensures
            r == self@,
    {
        (self.columns, self.rows)
    }

    /// The window-size query: the pair as last written, with no pixel size.
    pub fn window_size(&self) -> (r: WindowGeometry)
        ensures
            r == window_geometry_of(self@),
    {
        WindowGeometry { columns: self.columns, rows: self.rows, pixel_width: 0, pixel_height: 0 }
    }
}

/// The window-size answer for a grid size.
pub open spec fn window_geometry_of(size: (u16, u16)) -> WindowGeometry {
    WindowGeometry { columns: size.0, rows: size.1, pixel_width: 0, pixel_height: 0 }
}

} // verus!
