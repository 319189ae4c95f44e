//! Per-run configuration: the window descriptor, the scan options and the
//! repository grid geometry.

use vstd::prelude::*;
use crate::positioning::{Pos, Rect, Size};

verus! {

#[derive(Clone, Copy, Debug, PartialEq, Eq, Structural)]
pub enum Platform {
    Windows,
    Linux,
    MacOS,
}

#[derive(Clone, Copy, Debug, PartialEq, Eq, Structural)]
pub enum UI {
    Desktop,
    Mobile,
}

/// What is known about the game window when a scan session starts.
#[derive(Clone, Copy, Debug)]
pub struct GameInfo {
    /// Top-left corner of the window in desktop coordinates.
    pub window_origin: Pos,
    pub window_size: Size,
    pub ui: UI,
    pub platform: Platform,
    /// Cloud-streamed clients never settle their detail panel locally, so
    /// change detection is replaced by a fixed delay.
    pub is_cloud: bool,
}

impl GameInfo {
    pub open spec fn wf(self) -> bool {
        &&& self.window_origin.wf()
        &&& self.window_size.wf()
    }
}

/// Scan options.
#[derive(Clone, Copy, Debug)]
pub struct ScanConfig {
    /// Hard cap on the number of rows scanned before early termination.
    pub max_row: usize,
    /// Budget in milliseconds for the pool-scalar switch detector.
    pub max_wait_switch_item: u64,
    /// Fixed delay in milliseconds substituted for the switch detector in
    /// cloud mode.
    pub cloud_wait_switch_item: u64,
    /// Sleep in milliseconds between consecutive wheel ticks while a scroll
    /// is measured one tick at a time.
    pub scroll_delay: u64,
}

impl ScanConfig {
    pub open spec fn wf(self) -> bool {
        &&& 1 <= self.max_row <= 0xFFFF
    }
}

/// The repository grid: where the item cells, the flag strip and the detail
/// pool sit, relative to the window origin.
#[derive(Clone, Copy, Debug)]
pub struct GridLayout {
    /// Item rows visible on one screen.
    pub rows: usize,
    /// Item columns visible on one screen.
    pub cols: usize,
    /// Offset from the window origin to the top-left of the first cell.
    pub margin: Pos,
    /// Pixel size of one cell.
    pub item_size: Size,
    /// Spacing between neighboring cells.
    pub item_gap: Size,
    /// The flag strip, relative to the window origin: a thin vertical slice
    /// above the first row, used as a scroll sentinel.
    pub flag_rect: Rect,
    /// The detail-panel region sampled for animation stability, relative to
    /// the window origin.
    pub pool_rect: Rect,
}

impl GridLayout {
    pub open spec fn wf(self) -> bool {
        &&& 1 <= self.rows <= 0xFFF
        &&& 1 <= self.cols <= 0xFFF
        &&& self.margin.wf()
        &&& self.item_size.wf()
        &&& self.item_gap.wf()
        &&& self.flag_rect.wf()
        &&& self.pool_rect.wf()
        &&& self.flag_rect.width >= 1
        &&& self.flag_rect.height >= 1
        &&& self.pool_rect.width >= 1
        &&& self.pool_rect.height >= 1
    }

    /// Where a cell's x coordinate lands: margin, then whole cells with their
    /// gaps, then half a cell.
    pub open spec fn spec_cell_center_x(self, origin: Pos, col: int) -> int {
        origin.x + self.margin.x + (self.item_gap.width + self.item_size.width) * col
            + self.item_size.width / 2
    }

    pub open spec fn spec_cell_center_y(self, origin: Pos, row: int) -> int {
        origin.y + self.margin.y + (self.item_gap.height + self.item_size.height) * row
            + self.item_size.height / 2
    }

    /// The desktop coordinates of the center of cell `(row, col)` of the
    /// visible grid, for a window whose top-left corner is at `origin`.
    pub fn cell_center(&self, origin: Pos, row: usize, col: usize) -> (p: Pos)
        requires
            self.wf(),
            origin.wf(),
            row < 0xFFF,
            col < 0xFFF,
        ensures
            p.x == self.spec_cell_center_x(origin, col as int),
            p.y == self.spec_cell_center_y(origin, row as int),
            -0x8000_0000 < p.x < 0x8000_0000,
            -0x8000_0000 < p.y < 0x8000_0000,
    {
        let stride_x: i64 = self.item_gap.width + self.item_size.width;
        let stride_y: i64 = self.item_gap.height + self.item_size.height;
        assert(stride_x * col <= 0x2_0000 * 0xFFF && stride_x * col >= 0) by (nonlinear_arith)
            requires
                0 <= stride_x <= 0x2_0000,
                0 <= col < 0xFFF,
        ;
        assert(stride_y * row <= 0x2_0000 * 0xFFF && stride_y * row >= 0) by (nonlinear_arith)
            requires
                0 <= stride_y <= 0x2_0000,
                0 <= row < 0xFFF,
        ;
        let x: i64 = origin.x + self.margin.x + stride_x * (col as i64) + self.item_size.width / 2;
        let y: i64 = origin.y + self.margin.y + stride_y * (row as i64) + self.item_size.height / 2;
        Pos { x, y }
    }

    /// The flag strip in desktop coordinates.
    pub fn flag_rect_absolute(&self, origin: Pos) -> (r: Rect)
        requires
            self.wf(),
            origin.wf(),
        ensures
            r.left == self.flag_rect.left + origin.x,
            r.top == self.flag_rect.top + origin.y,
            r.width == self.flag_rect.width,
            r.height == self.flag_rect.height,
    {
        self.flag_rect.translate(origin)
    }

    /// The detail-pool region in desktop coordinates.
    pub fn pool_rect_absolute(&self, origin: Pos) -> (r: Rect)
        requires
            self.wf(),
            origin.wf(),
        ensures
            r.left == self.pool_rect.left + origin.x,
            r.top == self.pool_rect.top + origin.y,
            r.width == self.pool_rect.width,
            r.height == self.pool_rect.height,
    {
        self.pool_rect.translate(origin)
    }
}

} // verus!
