//! The repository-grid scan controller.
//!
//! The controller drives a grid of item icons row by row: it clicks each
//! cell, waits until the detail panel has settled, and hands control back to
//! the caller (one `advance` call per scanned cell), scrolling the list when
//! the visible grid is exhausted. It owns all of its mutable state and talks
//! to the outside world only through the capability traits, so the whole
//! protocol is ordinary sequential code.
//!
//! The walk is resumable: `scan` opens a session, and each call of `advance`
//! performs exactly one click-and-settle and reports either `Scanned` (the
//! caller may now read the detail panel), a final `Done` verdict, or a fatal
//! error.

use vstd::prelude::*;
use crate::capability::{Capturer, Clock, InputDriver, InterruptSource, CaptureError, InputError};
use crate::color::Rgb;
use crate::config::{GameInfo, GridLayout, Platform, ScanConfig, UI};
use crate::positioning::{Pos, Rect};

verus! {

/// How a finished scan ended: all requested items visited, or the user
/// interrupted the walk.
#[derive(Clone, Copy, Debug, PartialEq, Eq, Structural)]
pub enum ReturnResult {
    Interrupted,
    Finished,
}

/// A fatal scan failure.
#[derive(Clone, Copy, Debug, PartialEq, Eq, Structural)]
pub enum ScanError {
    /// A screen capture failed.
    Capture,
    /// An input injection failed.
    Input,
    /// A single-row scroll did not take effect within the tick budget.
    ScrollTimeout,
}

/// The outcome of one `advance` call.
#[derive(Clone, Copy, Debug, PartialEq, Eq, Structural)]
pub enum ScanStep {
    /// One more cell was clicked and settled; the caller may read the detail
    /// panel before advancing again.
    Scanned,
    /// The session is over.
    Done(ReturnResult),
    /// The session died on an I/O failure or a scroll timeout.
    Failed(ScanError),
}

/// The outcome of a scroll request.
#[derive(Clone, Copy, Debug, PartialEq, Eq, Structural)]
pub enum ScrollResult {
    /// Scrolled row by row, each row confirmed against the flag strip.
    Success,
    /// Scrolled in one calibrated batch and re-aligned.
    Skip,
    /// The user interrupted the scroll.
    Interrupt,
    /// A single row failed to advance within the tick budget.
    TimeLimitExceeded,
}

/// Where a session stands.
#[derive(Clone, Copy, Debug, PartialEq, Eq, Structural)]
pub enum Phase {
    /// Constructed; `scan` has not been called.
    NotStarted,
    /// Mid-walk: the next cell to click is identified by the cursor fields.
    Scanning,
    /// Mid-walk: the cell under the cursor has just been scanned and
    /// counted; the cursor bookkeeping (and any scrolling the walk needs
    /// next) runs when the caller advances again.
    Settled,
    /// The session's verdict is in: the next `advance` delivers this step
    /// and closes the session.
    Ending(ScanStep),
    /// The session is over.
    Done,
}

/// Every scroll calibration may observe at most this many wheel ticks before
/// it gives up on the row.
pub const MAX_TICKS_PER_ROW: u64 = 25;

/// Batch scrolls deliberately undershoot the tick estimate by this many
/// ticks; the cheap re-alignment loop closes the gap.
pub const SCROLL_UNDERSHOOT_TICKS: u64 = 3;

/// The plain state of a scan session. Everything the controller decides is
/// a function of this state and of the values the capabilities hand back.
pub struct ScanState {
    /// Last observed pool scalar (sum of red channel over the pool rect).
    pub pool: u64,
    /// Reference sample of the flag strip, captured once per session right
    /// after the first click, never mutated during the walk.
    pub initial_flag: Vec<Rgb>,
    /// How many single-row scrolls have been measured (calibration samples).
    pub scrolled_rows: u64,
    /// Total wheel ticks over all measured single-row scrolls. The average
    /// ticks per row is `tick_total / scrolled_rows`.
    pub tick_total: u64,
    /// The individual calibration observations behind `tick_total`.
    pub observed_ticks: Ghost<Seq<int>>,
    /// Total settle time in milliseconds over all detected item switches.
    pub switch_time_total_ms: u64,
    /// Number of detected item switches behind `switch_time_total_ms`.
    pub switch_count: u64,
    /// Number of cells scanned (equals the number of `Scanned` steps
    /// delivered so far).
    pub scanned_count: usize,
    /// The cells delivered so far: (screen row, column, rows scrolled off
    /// above the screen when the cell was scanned).
    pub visited: Ghost<Seq<(int, int, int)>>,
    /// Visible rows of the grid (mirror of the layout).
    pub row: usize,
    /// Visible columns of the grid (mirror of the layout).
    pub col: usize,
    pub config: ScanConfig,
    pub layout: GridLayout,
    pub game_info: GameInfo,
    pub phase: Phase,
    /// Session parameters, set by `scan`.
    pub item_count: usize,
    /// Total logical rows of the session: `ceil(item_count / col)`.
    pub total_row: usize,
    /// Items in the last logical row.
    pub last_row_col: usize,
    /// Rows walked per screen: `min(row, total_row)`.
    pub row_lim: usize,
    /// Logical rows fully scanned so far.
    pub scanned_row: usize,
    /// Screen row of the next cell to scan.
    pub cur_row: usize,
    /// Column of the next cell to scan.
    pub cur_col: usize,
    /// Logical rows scrolled off above the visible screen.
    pub rows_off: Ghost<int>,
}

/// Sum of a sequence of tick observations.
pub open spec fn ticks_sum(s: Seq<int>) -> int
    decreases s.len(),
{
    if s.len() == 0 {
        0
    } else {
        ticks_sum(s.drop_last()) + s.last()
    }
}

pub proof fn lemma_ticks_sum_push(s: Seq<int>, x: int)
    ensures
        ticks_sum(s.push(x)) == ticks_sum(s) + x,
{
    assert(s.push(x).drop_last() =~= s);
    assert(s.push(x).last() == x);
}

/// A sequence of observations, each within the per-row tick budget, sums to
/// at most the budget times the number of observations.
pub proof fn lemma_ticks_sum_bounds(s: Seq<int>)
    requires
        forall|i: int| 0 <= i < s.len() ==> 1 <= #[trigger] s[i] <= MAX_TICKS_PER_ROW,
    ensures
        s.len() <= ticks_sum(s) <= MAX_TICKS_PER_ROW * s.len(),
    decreases s.len(),
{
    if s.len() > 0 {
        assert(forall|i: int|
            0 <= i < s.drop_last().len() ==> 1 <= #[trigger] s.drop_last()[i]
                <= MAX_TICKS_PER_ROW);
        lemma_ticks_sum_bounds(s.drop_last());
    }
}

/// How many wheel ticks a batch scroll of `count` rows sends: the average
/// observed ticks per row (`tick_total / scrolled_rows`) times the row
/// count, minus the deliberate undershoot, rounded to the nearest whole
/// tick (halves away from zero) and clamped at zero.
pub open spec fn spec_estimate_scroll_length(tick_total: int, scrolled_rows: int, count: int) -> int {
    let numer = tick_total * count - SCROLL_UNDERSHOOT_TICKS * scrolled_rows;
    if numer >= 0 {
        (2 * numer + scrolled_rows) / (2 * scrolled_rows)
    } else {
        0
    }
}

/// How many cells a clean run visits: every requested item, unless the row
/// cap cuts the walk short first.
pub open spec fn spec_scan_limit(item_count: int, max_row: int, cols: int) -> int {
    vstd::math::min(item_count, max_row * cols)
}

/// Items in logical row `r` of a session with `total_row` rows, `col`
/// columns and `last_row_col` items in the final row.
pub open spec fn spec_row_items(r: int, total_row: int, col: int, last_row_col: int) -> int {
    if r == total_row - 1 {
        last_row_col
    } else {
        col
    }
}

/// The shape of a session grid: `total_row - 1` full rows of `col` items
/// plus a final row of `last_row_col` items account for exactly
/// `item_count` items.
pub proof fn lemma_grid_shape(item_count: int, col: int)
    requires
        1 <= item_count,
        1 <= col,
    ensures
        ({
            let total_row = (item_count + col - 1) / col;
            let last_row_col = if item_count % col == 0 {
                col
            } else {
                item_count % col
            };
            &&& 1 <= total_row
            &&& 1 <= last_row_col <= col
            &&& (total_row - 1) * col + last_row_col == item_count
            &&& (total_row - 1) * col < item_count <= total_row * col
        }),
{
    let q = item_count / col;
    let r = item_count % col;
    vstd::arithmetic::div_mod::lemma_fundamental_div_mod(item_count, col);
    vstd::arithmetic::div_mod::lemma_mod_division_less_than_divisor(item_count, col);
    if r == 0 {
        assert(item_count + col - 1 == q * col + (col - 1)) by (nonlinear_arith)
            requires
                item_count == col * q + 0,
        ;
        vstd::arithmetic::div_mod::lemma_fundamental_div_mod_converse(
            item_count + col - 1,
            col,
            q,
            col - 1,
        );
        assert((q - 1) * col + col == item_count) by (nonlinear_arith)
            requires
                item_count == col * q,
        ;
        assert(q >= 1 && (q - 1) * col < item_count <= q * col) by (nonlinear_arith)
            requires
                item_count == col * q,
                1 <= col,
                1 <= item_count,
        ;
    } else {
        assert(item_count + col - 1 == (q + 1) * col + (r - 1)) by (nonlinear_arith)
            requires
                item_count == col * q + r,
        ;
        vstd::arithmetic::div_mod::lemma_fundamental_div_mod_converse(
            item_count + col - 1,
            col,
            q + 1,
            r - 1,
        );
        assert(q * col + r == item_count) by (nonlinear_arith)
            requires
                item_count == col * q + r,
        ;
        assert(q >= 0 && q * col < item_count <= (q + 1) * col) by (nonlinear_arith)
            requires
                item_count == col * q + r,
                0 < r < col,
                1 <= col,
                1 <= item_count,
        ;
    }
}

/// While the walk invariant holds, at least one cell is still owed: the
/// cursor's cell itself has not been counted yet.
pub proof fn lemma_next_cell_exists(s: ScanState)
    requires
        s.session_wf(),
        s.cursor_wf(),
        s.scanned_row * s.col + s.cur_col == s.scanned_count,
        1 <= s.col,
    ensures
        s.scanned_count < s.item_count,
{
    let sr = s.scanned_row as int;
    let c = s.col as int;
    let tr = s.total_row as int;
    let ic = s.item_count as int;
    lemma_grid_shape(ic, c);
    if sr == tr - 1 {
        assert(s.scanned_count < sr * c + s.last_row_col);
    } else {
        assert(tr - sr >= s.row_lim - s.cur_row);
        assert(sr <= tr - 2);
        assert(sr * c + s.cur_col + 1 <= (sr + 1) * c && (sr + 1) * c <= (tr - 1) * c)
            by (nonlinear_arith)
            requires
                0 <= s.cur_col < c,
                sr + 1 <= tr - 1,
                1 <= c,
        ;
    }
}

/// Right after a scanned cell has been counted, the count can have reached
/// `item_count` only by finishing the final row.
pub proof fn lemma_mid_scanned_le(s: ScanState)
    requires
        s.mid_wf(),
        1 <= s.col,
    ensures
        s.scanned_count <= s.item_count,
        s.scanned_count == s.item_count ==> s.scanned_row == s.total_row - 1 && s.cur_col + 1
            == s.last_row_col,
{
    let sr = s.scanned_row as int;
    let c = s.col as int;
    let tr = s.total_row as int;
    let ic = s.item_count as int;
    lemma_grid_shape(ic, c);
    if sr == tr - 1 {
        assert(s.scanned_count <= sr * c + s.last_row_col);
    } else {
        assert(sr <= tr - 2);
        assert(sr * c + s.cur_col + 1 <= (sr + 1) * c && (sr + 1) * c <= (tr - 1) * c)
            by (nonlinear_arith)
            requires
                0 <= s.cur_col < c,
                sr + 1 <= tr - 1,
                1 <= c,
        ;
    }
}

/// One step of the two-phase switch decision over a fresh pool sample. The
/// result is (new stored scalar, change seen so far, switched now): a sample
/// that differs from the stored scalar replaces it and records that the
/// panel has changed; a sample equal to the stored scalar, once a change has
/// been seen, means the panel has settled on the new item — that is the
/// switch.
pub open spec fn spec_switch_step(stored: u64, change_seen: bool, sample: u64) -> (u64, bool, bool) {
    if sample != stored {
        (sample, true, false)
    } else {
        (stored, change_seen, change_seen)
    }
}

/// The executable twin of `spec_switch_step`; the poll loop of
/// `wait_until_switched` advances its detector state with it.
pub fn switch_step(stored: u64, change_seen: bool, sample: u64) -> (r: (u64, bool, bool))
    ensures
        r == spec_switch_step(stored, change_seen, sample),
{
    if sample != stored {
        (sample, true, false)
    } else {
        (stored, change_seen, change_seen)
    }
}

impl ScanState {
    /// Facts that hold of every session state, whatever the phase.
    pub open spec fn base_wf(self) -> bool {
        &&& self.config.wf()
        &&& self.layout.wf()
        &&& self.game_info.wf()
        &&& self.row == self.layout.rows
        &&& self.col == self.layout.cols
        &&& self.tick_wf()
        &&& self.visited_wf()
    }

    /// The calibration bookkeeping: the stored totals really are the length
    /// and the sum of the individual observations, and every observation
    /// came from a scroll that succeeded within the tick budget.
    pub open spec fn tick_wf(self) -> bool {
        &&& self.scrolled_rows == self.observed_ticks@.len()
        &&& self.tick_total == ticks_sum(self.observed_ticks@)
        &&& forall|i: int|
            0 <= i < self.observed_ticks@.len() ==> 1 <= #[trigger] self.observed_ticks@[i]
                <= MAX_TICKS_PER_ROW
    }

    /// The emission history is row-major: the `k`-th cell delivered sat in
    /// column `k % col`, and its screen row plus the rows scrolled off above
    /// it give logical row `k / col`.
    pub open spec fn visited_wf(self) -> bool {
        &&& self.scanned_count == self.visited@.len()
        &&& forall|k: int|
            0 <= k < self.visited@.len() ==> {
                &&& (#[trigger] self.visited@[k]).2 >= 0
                &&& self.visited@[k].0 + self.visited@[k].2 == k / (self.col as int)
                &&& self.visited@[k].1 == k % (self.col as int)
            }
    }

    /// The per-session constants, fixed when `scan` opens the session.
    pub open spec fn session_wf(self) -> bool {
        &&& 1 <= self.item_count <= 0x1000_0000
        &&& self.total_row == (self.item_count + self.col - 1) as int / self.col as int
        &&& self.last_row_col == (if self.item_count as int % self.col as int == 0 {
            self.col as int
        } else {
            self.item_count as int % self.col as int
        })
        &&& self.row_lim == vstd::math::min(self.row as int, self.total_row as int)
    }

    /// Where the cursor may stand mid-walk, independent of how many cells of
    /// its row it has already covered.
    pub open spec fn cursor_wf(self) -> bool {
        &&& self.cur_col < spec_row_items(
            self.scanned_row as int,
            self.total_row as int,
            self.col as int,
            self.last_row_col as int,
        )
        &&& self.rows_off@ >= 0
        &&& self.scanned_row == self.cur_row + self.rows_off@
        &&& self.cur_row < self.row_lim
        &&& self.total_row - self.scanned_row >= self.row_lim - self.cur_row
        &&& self.scanned_row < self.config.max_row
        &&& (self.rows_off@ > 0 ==> self.row_lim == self.row)
        &&& self.scrolled_rows <= self.rows_off@
    }

    /// The walk invariant: holds whenever the phase is `Scanning`, with the
    /// cursor on the next cell to click.
    pub open spec fn pos_wf(self) -> bool {
        &&& self.session_wf()
        &&& self.cursor_wf()
        &&& self.scanned_row * self.col + self.cur_col == self.scanned_count
    }

    /// The state right after the cell under the cursor has been scanned and
    /// counted, before the cursor moves on.
    pub open spec fn mid_wf(self) -> bool {
        &&& self.session_wf()
        &&& self.cursor_wf()
        &&& self.scanned_row * self.col + self.cur_col + 1 == self.scanned_count
    }

    /// A stored `Finished` verdict is only ever stored once the scan has
    /// visited exactly as many cells as a clean run owes.
    pub open spec fn end_wf(self) -> bool {
        &&& self.phase == Phase::Ending(ScanStep::Done(ReturnResult::Finished))
            ==> self.scanned_count == spec_scan_limit(
            self.item_count as int,
            self.config.max_row as int,
            self.col as int,
        )
        &&& (self.phase matches Phase::Ending(v) ==> v != ScanStep::Scanned)
    }

    pub open spec fn wf(self) -> bool {
        &&& self.base_wf()
        &&& (self.phase == Phase::Scanning ==> self.pos_wf())
        &&& (self.phase == Phase::Settled ==> self.mid_wf())
        &&& self.end_wf()
        &&& (self.phase == Phase::NotStarted ==> self.scanned_count == 0 && self.scrolled_rows
            == 0)
    }
}

/// Cells are delivered in row-major order: the `k`-th cell delivered sat in
/// column `k % cols`, and its screen row, plus the rows the list had been
/// scrolled off above the screen at that moment, give logical row
/// `k / cols`. Scrolling is thus transparent to the consumer: the logical
/// positions climb monotonically through the grid.
pub proof fn lemma_emission_row_major(s: ScanState, k: int)
    requires
        s.base_wf(),
        0 <= k < s.visited@.len(),
    ensures
        s.visited@[k].1 == k % (s.col as int),
        s.visited@[k].0 + s.visited@[k].2 == k / (s.col as int),
        s.visited@[k].2 >= 0,
{
}

/// The scanned counter always equals the number of cells delivered so far.
pub proof fn lemma_scanned_count_is_emission_count(s: ScanState)
    requires
        s.base_wf(),
    ensures
        s.scanned_count == s.visited@.len(),
{
}

/// The average ticks per row (`tick_total / scrolled_rows`) is the weighted
/// mean of the individual single-row observations: the stored totals are
/// exactly their count and their sum, and every observation lay within the
/// per-row tick budget.
pub proof fn lemma_avg_ticks_is_weighted_mean(s: ScanState)
    requires
        s.base_wf(),
    ensures
        s.scrolled_rows == s.observed_ticks@.len(),
        s.tick_total == ticks_sum(s.observed_ticks@),
        s.observed_ticks@.len() <= s.tick_total,
        s.tick_total <= MAX_TICKS_PER_ROW * s.observed_ticks@.len(),
{
    lemma_ticks_sum_bounds(s.observed_ticks@);
}

/// A run that reaches its `Finished` verdict has scanned exactly
/// `min(item_count, max_row * cols)` cells: every requested item, unless
/// the row cap cut the walk short first.
pub proof fn lemma_finished_at_limit(s: ScanState)
    requires
        s.wf(),
        s.phase == Phase::Ending(ScanStep::Done(ReturnResult::Finished)),
    ensures
        s.scanned_count == spec_scan_limit(
            s.item_count as int,
            s.config.max_row as int,
            s.col as int,
        ),
{
}

/// The scan controller: the session state plus the four capabilities it
/// drives.
pub struct StarRailRepositoryScanController<C: Capturer, I: InputDriver, T: Clock, R:
    InterruptSource> {
    pub state: ScanState,
    pub capturer: C,
    pub input: I,
    pub clock: T,
    pub interrupt: R,
}

impl<C: Capturer, I: InputDriver, T: Clock, R: InterruptSource> StarRailRepositoryScanController<
    C,
    I,
    T,
    R,
> {
    /// A fresh controller, ready for one scan session.
    pub fn new(layout: GridLayout, config: ScanConfig, game_info: GameInfo, capturer: C, input: I, clock: T, interrupt: R) -> (c: Self)
        requires
            layout.wf(),
            config.wf(),
            game_info.wf(),
        ensures
            c.state.wf(),
            c.state.phase == Phase::NotStarted,
            c.state.pool == 0,
            c.state.initial_flag@ =~= Seq::<Rgb>::empty(),
            c.state.scanned_count == 0,
            c.state.scrolled_rows == 0,
            c.state.tick_total == 0,
            c.state.switch_count == 0,
            c.state.switch_time_total_ms == 0,
            c.state.visited@ =~= Seq::<(int, int, int)>::empty(),
            c.state.observed_ticks@ =~= Seq::<int>::empty(),
            c.state.config == config,
            c.state.layout == layout,
            c.state.game_info == game_info,
    {
        let state = ScanState {
            pool: 0,
            initial_flag: Vec::new(),
            scrolled_rows: 0,
            tick_total: 0,
            observed_ticks: Ghost(Seq::empty()),
            switch_time_total_ms: 0,
            switch_count: 0,
            scanned_count: 0,
            visited: Ghost(Seq::empty()),
            row: layout.rows,
            col: layout.cols,
            config,
            layout,
            game_info,
            phase: Phase::NotStarted,
            item_count: 0,
            total_row: 0,
            last_row_col: 0,
            row_lim: 0,
            scanned_row: 0,
            cur_row: 0,
            cur_col: 0,
            rows_off: Ghost(0),
        };
        StarRailRepositoryScanController { state, capturer, input, clock, interrupt }
    }

    /// Move the cursor to the center of visible cell `(row, col)`, with the
    /// platform settle delay some desktops require after an input event.
    pub fn move_to(&mut self, row: usize, col: usize) -> (r: Result<(), InputError>)
        requires
            old(self).state.layout.wf(),
            old(self).state.game_info.wf(),
            row < 0xFFF,
            col < 0xFFF,
        ensures
            final(self).state == old(self).state,
    {
        let p: Pos = self.state.layout.cell_center(
            self.state.game_info.window_origin,
            row,
            col,
        );
        let r = self.input.move_to(p.x as i32, p.y as i32);
        if matches!(self.state.game_info.platform, Platform::MacOS) {
            self.clock.sleep_ms(20);
        }
        r
    }

    /// Send wheel ticks through the platform's preferred path: plain wheel
    /// events on desktop (with a settle delay on some platforms), the fast or
    /// slow touch-emulated path on mobile UIs, chosen by `try_find`.
    pub fn mouse_scroll(&mut self, length: i32, try_find: bool) -> (r: Result<(), InputError>)
        ensures
            final(self).state == old(self).state,
    {
        match self.state.game_info.platform {
            Platform::Windows => self.input.scroll(length, try_find),
            Platform::Linux => self.input.scroll(length, try_find),
            Platform::MacOS => {
                match self.state.game_info.ui {
                    UI::Desktop => {
                        let r = self.input.scroll(length, false);
                        self.clock.sleep_ms(20);
                        r
                    },
                    UI::Mobile => self.input.scroll(length, try_find),
                }
            },
        }
    }

    /// Capture the flag strip and read its leftmost pixel column, top to
    /// bottom.
    pub fn capture_flag(&mut self) -> (r: Result<Vec<Rgb>, CaptureError>)
        requires
            old(self).state.layout.wf(),
            old(self).state.game_info.wf(),
        ensures
            final(self).state == old(self).state,
            (r matches Ok(v) ==> v@.len() == old(self).state.layout.flag_rect.height),
    {
        let rect: Rect = self.state.layout.flag_rect_absolute(self.state.game_info.window_origin);
        match self.capturer.capture(rect) {
            Ok(frame) => Ok(frame.first_column()),
            Err(e) => Err(e),
        }
    }

    /// Capture the flag strip and store it as the session's reference
    /// sample.
    pub fn sample_initial_color(&mut self) -> (r: Result<(), CaptureError>)
        requires
            old(self).state.layout.wf(),
            old(self).state.game_info.wf(),
        ensures
            (r matches Ok(()) ==> final(self).state == (ScanState {
                initial_flag: final(self).state.initial_flag,
                ..old(self).state
            }) && final(self).state.initial_flag@.len()
                == old(self).state.layout.flag_rect.height),
            (r is Err ==> final(self).state == old(self).state),
    {
        match self.capture_flag() {
            Ok(flag) => {
                self.state.initial_flag = flag;
                Ok(())
            },
            Err(e) => Err(e),
        }
    }

    /// Capture the flag strip and compare it against the session's reference
    /// sample: `Ok(true)` means the strip still matches (the list sits at a
    /// row boundary), `Ok(false)` means it has visibly shifted.
    pub fn check_flag(&mut self) -> (r: Result<bool, CaptureError>)
        requires
            old(self).state.layout.wf(),
            old(self).state.game_info.wf(),
        ensures
            final(self).state == old(self).state,
    {
        match self.capture_flag() {
            Ok(flag) => Ok(crate::color::flag_matches(&flag, &self.state.initial_flag)),
            Err(e) => Err(e),
        }
    }

    /// Record one calibration observation: a single-row scroll took `count`
    /// wheel ticks.
    fn update_avg_row(&mut self, count: u64)
        requires
            old(self).state.tick_wf(),
            1 <= count <= MAX_TICKS_PER_ROW,
            old(self).state.scrolled_rows <= 0x2_0000_0000,
        ensures
            final(self).state == (ScanState {
                scrolled_rows: final(self).state.scrolled_rows,
                tick_total: final(self).state.tick_total,
                observed_ticks: final(self).state.observed_ticks,
                ..old(self).state
            }),
            final(self).state.tick_wf(),
            final(self).state.scrolled_rows == old(self).state.scrolled_rows + 1,
            final(self).state.observed_ticks@ == old(self).state.observed_ticks@.push(
                count as int,
            ),
    {
        proof {
            lemma_ticks_sum_bounds(self.state.observed_ticks@);
            lemma_ticks_sum_push(self.state.observed_ticks@, count as int);
        }
        self.state.tick_total = self.state.tick_total + count;
        self.state.scrolled_rows = self.state.scrolled_rows + 1;
        let ghost pushed = self.state.observed_ticks@.push(count as int);
        self.state.observed_ticks = Ghost(pushed);
    }

    /// The tick count a batch scroll of `count` rows will send, from the
    /// calibration gathered so far.
    pub fn estimate_scroll_length(&self, count: usize) -> (n: u64)
        requires
            1 <= self.state.scrolled_rows <= 0x2_0000_0000,
            self.state.tick_total <= MAX_TICKS_PER_ROW * self.state.scrolled_rows,
            count <= 0xFFF,
        ensures
            n == spec_estimate_scroll_length(
                self.state.tick_total as int,
                self.state.scrolled_rows as int,
                count as int,
            ),
    {
        assert(self.state.tick_total * count <= MAX_TICKS_PER_ROW * 0x2_0000_0000 * 0xFFF)
            by (nonlinear_arith)
            requires
                self.state.tick_total <= MAX_TICKS_PER_ROW * self.state.scrolled_rows,
                self.state.scrolled_rows <= 0x2_0000_0000,
                0 <= count <= 0xFFF,
        ;
        let a: u64 = self.state.tick_total * (count as u64);
        let b: u64 = self.state.scrolled_rows;
        if a >= SCROLL_UNDERSHOOT_TICKS * b {
            let numer: u64 = a - SCROLL_UNDERSHOOT_TICKS * b;
            (2 * numer + b) / (2 * b)
        } else {
            0
        }
    }

    /// Wait until the detail panel has switched to a new item: poll the pool
    /// scalar, advancing the two-phase decision of `switch_step` on every
    /// sample, within the configured millisecond budget (the poll loop is
    /// also capped at one poll per budget millisecond as a termination
    /// backstop). `Ok(true)` is a detected switch, `Ok(false)` a timeout —
    /// the caller treats a timeout as non-fatal, since an identical item may
    /// never animate the panel. In cloud mode polling is bypassed: sleep the
    /// fixed delay, report switched.
    pub fn wait_until_switched(&mut self) -> (r: Result<bool, CaptureError>)
        requires
            old(self).state.layout.wf(),
            old(self).state.game_info.wf(),
        ensures
            final(self).state == (ScanState {
                pool: final(self).state.pool,
                switch_time_total_ms: final(self).state.switch_time_total_ms,
                switch_count: final(self).state.switch_count,
                ..old(self).state
            }),
            (old(self).state.game_info.is_cloud ==> r == Ok::<bool, CaptureError>(true) && final(self).state == old(self).state),
            (r == Ok::<bool, CaptureError>(false) ==> final(self).state.switch_count == old(self).state.switch_count && final(self).state.switch_time_total_ms == old(self).state.switch_time_total_ms),
            (r is Err ==> final(self).state.switch_count == old(self).state.switch_count && final(self).state.switch_time_total_ms == old(self).state.switch_time_total_ms),
            (!old(self).state.game_info.is_cloud && r == Ok::<bool, CaptureError>(true) ==> final(self).state.switch_count == vstd::math::min(
                old(self).state.switch_count as int + 1,
                u64::MAX as int,
            ) && final(self).state.switch_time_total_ms >= old(self).state.switch_time_total_ms),
    {
        if self.state.game_info.is_cloud {
            self.clock.sleep_ms(self.state.config.cloud_wait_switch_item);
            return Ok(true);
        }
        let ghost pre = self.state;
        let start: u64 = self.clock.now_ms();
        let budget: u64 = self.state.config.max_wait_switch_item;
        let rect: Rect = self.state.layout.pool_rect_absolute(self.state.game_info.window_origin);
        let mut fuel: u64 = budget;
        let mut diff_flag: bool = false;
        while fuel > 0
            invariant
                pre == old(self).state,
                !old(self).state.game_info.is_cloud,
                rect.abs_wf(),
                rect.width >= 1,
                rect.height >= 1,
                self.state == (ScanState { pool: self.state.pool, ..pre }),
            decreases fuel,
        {
            fuel = fuel - 1;
            let now: u64 = self.clock.now_ms();
            let elapsed: u64 = if now >= start {
                now - start
            } else {
                0
            };
            if elapsed >= budget {
                return Ok(false);
            }
            let captured = match self.capturer.capture(rect) {
                Ok(f) => f,
                Err(e) => { return Err(e) },
            };
            assert(captured.data@.len() < 0x4_0000_0000) by (nonlinear_arith)
                requires
                    captured.data@.len() == captured.width * captured.height * 3,
                    captured.width <= 0xFFF,
                    captured.height <= 0xFFF,
            ;
            let pool: u64 = crate::frame::calc_pool(&captured.data);
            let step = switch_step(self.state.pool, diff_flag, pool);
            self.state.pool = step.0;
            diff_flag = step.1;
            if step.2 {
                let now2: u64 = self.clock.now_ms();
                let settle: u64 = if now2 >= start {
                    now2 - start
                } else {
                    0
                };
                self.state.switch_time_total_ms = if self.state.switch_time_total_ms <= u64::MAX
                    - settle {
                    self.state.switch_time_total_ms + settle
                } else {
                    u64::MAX
                };
                self.state.switch_count = if self.state.switch_count < u64::MAX {
                    self.state.switch_count + 1
                } else {
                    u64::MAX
                };
                return Ok(true);
            }
        }
        Ok(false)
    }

    /// Scroll the list down by exactly one row, closed loop: send one wheel
    /// tick at a time and watch the flag strip. The strip must first change
    /// (the gap has left its place) and then match the reference again (a
    /// new row has settled into it); the tick count that achieved this is
    /// recorded as a calibration observation. Gives up after
    /// `MAX_TICKS_PER_ROW` ticks.
    pub fn scroll_one_row(&mut self) -> (r: Result<ScrollResult, ScanError>)
        requires
            old(self).state.layout.wf(),
            old(self).state.game_info.wf(),
            old(self).state.tick_wf(),
            old(self).state.scrolled_rows <= 0x2_0000_0000,
        ensures
            final(self).state == (ScanState {
                scrolled_rows: final(self).state.scrolled_rows,
                tick_total: final(self).state.tick_total,
                observed_ticks: final(self).state.observed_ticks,
                ..old(self).state
            }),
            final(self).state.tick_wf(),
            (r == Ok::<ScrollResult, ScanError>(ScrollResult::Success) ==> final(self).state.scrolled_rows == old(self).state.scrolled_rows + 1 && final(self).state.observed_ticks@.len() == old(self).state.observed_ticks@.len() + 1),
            (r != Ok::<ScrollResult, ScanError>(ScrollResult::Success) ==> final(self).state == old(self).state),
            (r matches Ok(s) ==> s != ScrollResult::Skip),
            forall|k: int|
                0 <= k < old(self).state.observed_ticks@.len() ==> final(self).state.observed_ticks@[k] == old(self).state.observed_ticks@[k],
    {
        let ghost pre = self.state;
        let mut gap_moved: bool = false;
        let mut count: u64 = 0;
        while count < MAX_TICKS_PER_ROW
            invariant
                pre == old(self).state,
                self.state == pre,
                pre.layout.wf(),
                pre.game_info.wf(),
                pre.tick_wf(),
                pre.scrolled_rows <= 0x2_0000_0000,
                count <= MAX_TICKS_PER_ROW,
            decreases MAX_TICKS_PER_ROW - count,
        {
            if self.interrupt.is_rmb_down() {
                return Ok(ScrollResult::Interrupt);
            }
            match self.mouse_scroll(1, false) {
                Ok(()) => {},
                Err(_) => { return Err(ScanError::Input) },
            }
            self.clock.sleep_ms(self.state.config.scroll_delay);
            count = count + 1;
            let aligned = match self.check_flag() {
                Ok(b) => b,
                Err(_) => { return Err(ScanError::Capture) },
            };
            if !gap_moved {
                if !aligned {
                    gap_moved = true;
                }
            } else {
                if aligned {
                    self.update_avg_row(count);
                    return Ok(ScrollResult::Success);
                }
            }
        }
        Ok(ScrollResult::TimeLimitExceeded)
    }

    /// After a batch scroll, nudge the list one tick at a time (at most ten)
    /// until the flag strip matches the reference again.
    pub fn align_row(&mut self) -> (r: Result<(), ScanError>)
        requires
            old(self).state.layout.wf(),
            old(self).state.game_info.wf(),
        ensures
            final(self).state == old(self).state,
    {
        let ghost pre = self.state;
        let mut i: u64 = 0;
        while i < 10
            invariant
                pre == old(self).state,
                self.state == pre,
                pre.layout.wf(),
                pre.game_info.wf(),
                i <= 10,
            decreases 10 - i,
        {
            let aligned = match self.check_flag() {
                Ok(b) => b,
                Err(_) => { return Err(ScanError::Capture) },
            };
            if aligned {
                return Ok(());
            }
            match self.mouse_scroll(1, false) {
                Ok(()) => {},
                Err(_) => { return Err(ScanError::Input) },
            }
            self.clock.sleep_ms(self.state.config.scroll_delay);
            i = i + 1;
        }
        Ok(())
    }

    /// Scroll the list down by `count` rows. Once at least five single rows
    /// have been measured (and the platform is not macOS, whose scroll path
    /// stays closed loop), the rows are scrolled in one estimated batch and
    /// re-aligned; before that, each row is scrolled closed loop and feeds
    /// the calibration.
    pub fn scroll_rows(&mut self, count: usize) -> (r: Result<ScrollResult, ScanError>)
        requires
            old(self).state.layout.wf(),
            old(self).state.game_info.wf(),
            old(self).state.tick_wf(),
            old(self).state.scrolled_rows <= 0x1_0000_0000,
            count <= 0xFFF,
        ensures
            final(self).state == (ScanState {
                scrolled_rows: final(self).state.scrolled_rows,
                tick_total: final(self).state.tick_total,
                observed_ticks: final(self).state.observed_ticks,
                ..old(self).state
            }),
            final(self).state.tick_wf(),
            old(self).state.scrolled_rows <= final(self).state.scrolled_rows <= old(self).state.scrolled_rows + count,
            forall|k: int|
                0 <= k < old(self).state.observed_ticks@.len() ==> final(self).state.observed_ticks@[k] == old(self).state.observed_ticks@[k],
            (count == 0 && (old(self).state.game_info.platform == Platform::MacOS || old(self).state.scrolled_rows < 5)
                ==> r == Ok::<ScrollResult, ScanError>(ScrollResult::Success) && final(self).state
                == old(self).state),
            (r == Ok::<ScrollResult, ScanError>(ScrollResult::Success) ==> final(self).state.scrolled_rows
                == old(self).state.scrolled_rows + count && (old(self).state.game_info.platform
                == Platform::MacOS || old(self).state.scrolled_rows < 5)),
            (r == Ok::<ScrollResult, ScanError>(ScrollResult::Skip) ==> old(self).state.game_info.platform
                != Platform::MacOS && old(self).state.scrolled_rows >= 5 && final(self).state
                == old(self).state),
    {
        let ghost pre = self.state;
        if !matches!(self.state.game_info.platform, Platform::MacOS) && self.state.scrolled_rows
            >= 5 {
            proof {
                lemma_ticks_sum_bounds(self.state.observed_ticks@);
            }
            let length: u64 = self.estimate_scroll_length(count);
            let mut i: u64 = 0;
            while i < length
                invariant
                    pre == old(self).state,
                    self.state == pre,
                    pre.tick_wf(),
                    pre.game_info.platform != Platform::MacOS,
                    pre.scrolled_rows >= 5,
                    i <= length,
                decreases length - i,
            {
                match self.input.scroll(1, false) {
                    Ok(()) => {},
                    Err(_) => { return Err(ScanError::Input) },
                }
                i = i + 1;
            }
            self.clock.sleep_ms(self.state.config.scroll_delay);
            match self.align_row() {
                Ok(()) => {},
                Err(e) => { return Err(e) },
            }
            return Ok(ScrollResult::Skip);
        }
        let mut i: usize = 0;
        while i < count
            invariant
                pre == old(self).state,
                self.state == (ScanState {
                    scrolled_rows: self.state.scrolled_rows,
                    tick_total: self.state.tick_total,
                    observed_ticks: self.state.observed_ticks,
                    ..pre
                }),
                self.state.tick_wf(),
                pre.layout.wf(),
                pre.game_info.wf(),
                pre.tick_wf(),
                i <= count,
                count <= 0xFFF,
                self.state.scrolled_rows == pre.scrolled_rows + i,
                pre.game_info.platform == Platform::MacOS || pre.scrolled_rows < 5,
                pre.scrolled_rows <= 0x1_0000_0000,
                forall|k: int|
                    0 <= k < pre.observed_ticks@.len() ==> self.state.observed_ticks@[k]
                        == pre.observed_ticks@[k],
            decreases count - i,
        {
            match self.scroll_one_row() {
                Err(e) => { return Err(e) },
                Ok(ScrollResult::Success) => {},
                Ok(ScrollResult::Skip) => {},
                Ok(ScrollResult::Interrupt) => { return Ok(ScrollResult::Interrupt) },
                Ok(ScrollResult::TimeLimitExceeded) => {
                    return Ok(ScrollResult::TimeLimitExceeded)
                },
            }
            i = i + 1;
        }
        proof {
            if count == 0 {
                assert(self.state.observed_ticks@ =~= pre.observed_ticks@);
                assert(self.state == pre);
            }
        }
        Ok(ScrollResult::Success)
    }

    /// Open a scan session over `item_count` items: click the first cell,
    /// give the window a moment to settle, and take the reference sample of
    /// the flag strip. After a successful `scan`, each call of `advance`
    /// visits one cell.
    pub fn scan(&mut self, item_count: usize) -> (r: Result<(), ScanError>)
        requires
            old(self).state.wf(),
            old(self).state.phase == Phase::NotStarted,
            item_count <= 0x1000_0000,
        ensures
            final(self).state.wf(),
            final(self).state.config == old(self).state.config,
            final(self).state.layout == old(self).state.layout,
            final(self).state.game_info == old(self).state.game_info,
            final(self).state.scanned_count == 0,
            final(self).state.visited@ == old(self).state.visited@,
            final(self).state.scrolled_rows == 0,
            (r matches Ok(()) ==> final(self).state.item_count == item_count && final(self).state.initial_flag@.len() == old(self).state.layout.flag_rect.height),
            (r matches Ok(()) && item_count == 0 ==> final(self).state.phase == Phase::Ending(
                ScanStep::Done(ReturnResult::Finished),
            )),
            (r matches Ok(()) && item_count > 0 ==> final(self).state.phase == Phase::Scanning
                && final(self).state.cur_row == 0 && final(self).state.cur_col == 0 && final(self).state.rows_off@ == 0),
            (r is Err ==> final(self).state.phase == Phase::Done),
    {
        match self.move_to(0, 0) {
            Ok(()) => {},
            Err(_) => {
                self.state.phase = Phase::Done;
                return Err(ScanError::Input);
            },
        }
        match self.input.click() {
            Ok(()) => {},
            Err(_) => {
                self.state.phase = Phase::Done;
                return Err(ScanError::Input);
            },
        }
        self.clock.sleep_ms(1000);
        match self.sample_initial_color() {
            Ok(()) => {},
            Err(_) => {
                self.state.phase = Phase::Done;
                return Err(ScanError::Capture);
            },
        }
        self.state.item_count = item_count;
        self.state.scanned_row = 0;
        self.state.cur_row = 0;
        self.state.cur_col = 0;
        self.state.rows_off = Ghost(0);
        if item_count == 0 {
            self.state.total_row = 0;
            self.state.last_row_col = 0;
            self.state.row_lim = 0;
            self.state.phase = Phase::Ending(ScanStep::Done(ReturnResult::Finished));
            return Ok(());
        }
        let c: usize = self.state.col;
        let total_row: usize = (item_count + c - 1) / c;
        let last_row_col: usize = if item_count % c == 0 {
            c
        } else {
            item_count % c
        };
        let row_lim: usize = if self.state.row < total_row {
            self.state.row
        } else {
            total_row
        };
        self.state.total_row = total_row;
        self.state.last_row_col = last_row_col;
        self.state.row_lim = row_lim;
        self.state.phase = Phase::Scanning;
        proof {
            lemma_grid_shape(item_count as int, c as int);
        }
        Ok(())
    }

    /// Move the cursor bookkeeping past the cell that was just scanned:
    /// step along the row, close the row, stop at the row cap or at the last
    /// item, or scroll fresh rows into view. Returns the session's verdict
    /// if the walk is over (or died while scrolling), `None` when the next
    /// cell is ready.
    fn advance_position(&mut self) -> (e: Option<ScanStep>)
        requires
            old(self).state.base_wf(),
            old(self).state.mid_wf(),
            old(self).state.phase == Phase::Settled,
        ensures
            final(self).state == (ScanState {
                scrolled_rows: final(self).state.scrolled_rows,
                tick_total: final(self).state.tick_total,
                observed_ticks: final(self).state.observed_ticks,
                scanned_row: final(self).state.scanned_row,
                cur_row: final(self).state.cur_row,
                cur_col: final(self).state.cur_col,
                rows_off: final(self).state.rows_off,
                ..old(self).state
            }),
            final(self).state.base_wf(),
            final(self).state.session_wf(),
            final(self).state.scrolled_rows >= old(self).state.scrolled_rows,
            (e is None ==> final(self).state.pos_wf()),
            (e == Some(ScanStep::Done(ReturnResult::Finished)) ==> final(self).state.scanned_count
                == spec_scan_limit(
                final(self).state.item_count as int,
                final(self).state.config.max_row as int,
                final(self).state.col as int,
            )),
            (e matches Some(v) ==> v == ScanStep::Done(ReturnResult::Finished) || v
                == ScanStep::Done(ReturnResult::Interrupted) || v matches ScanStep::Failed(_)),
    {
        let ghost pre = self.state;
        proof {
            lemma_grid_shape(self.state.item_count as int, self.state.col as int);
            lemma_mid_scanned_le(pre);
        }
        let row_items: usize = if self.state.scanned_row == self.state.total_row - 1 {
            self.state.last_row_col
        } else {
            self.state.col
        };
        self.state.cur_col = self.state.cur_col + 1;
        if self.state.cur_col < row_items {
            return None;
        }
        // the row under the cursor is complete
        self.state.cur_col = 0;
        self.state.cur_row = self.state.cur_row + 1;
        self.state.scanned_row = self.state.scanned_row + 1;
        let ghost sr = pre.scanned_row as int;
        let ghost c = pre.col as int;
        let ghost tr = pre.total_row as int;
        let ghost ic = pre.item_count as int;
        let ghost mr = pre.config.max_row as int;
        proof {
            // completing a non-final row lands the count on a row boundary
            if sr != tr - 1 {
                assert(self.state.scanned_count == (sr + 1) * c) by (nonlinear_arith)
                    requires
                        self.state.scanned_count == sr * c + pre.cur_col + 1,
                        pre.cur_col + 1 == c,
                ;
            }
        }
        if self.state.scanned_row >= self.state.config.max_row {
            // the row cap cuts the walk short after exactly this row
            proof {
                assert(sr + 1 == mr);
                if sr == tr - 1 {
                    assert(self.state.scanned_count == ic);
                    assert(ic <= tr * c);
                    assert(tr * c <= mr * c) by (nonlinear_arith)
                        requires
                            tr <= mr,
                            c >= 0,
                    ;
                } else {
                    assert(self.state.scanned_count == mr * c);
                    assert(mr * c <= (tr - 1) * c) by (nonlinear_arith)
                        requires
                            mr <= tr - 1,
                            c >= 0,
                    ;
                    assert((tr - 1) * c < ic);
                }
            }
            return Some(ScanStep::Done(ReturnResult::Finished));
        }
        if self.state.cur_row < self.state.row_lim {
            // more rows on this screen; the completed row cannot have been
            // the final one
            proof {
                assert(tr - sr >= pre.row_lim - pre.cur_row);
                assert(sr != tr - 1);
            }
            return None;
        }
        // the visible screen is exhausted
        if self.state.scanned_count >= self.state.item_count {
            proof {
                assert(self.state.scanned_count == ic);
                assert(sr == tr - 1);
                assert(ic <= tr * c);
                assert(tr * c <= mr * c) by (nonlinear_arith)
                    requires
                        tr <= mr,
                        c >= 0,
                ;
            }
            return Some(ScanStep::Done(ReturnResult::Finished));
        }
        proof {
            // items remain, so the completed row was not the final one and
            // the count sits on the row boundary below it
            assert(sr != tr - 1);
            assert(self.state.scanned_count == (sr + 1) * c);
        }
        let remain: usize = self.state.item_count - self.state.scanned_count;
        let remain_row: usize = (remain + self.state.col - 1) / self.state.col;
        let scroll_row: usize = if remain_row < self.state.row {
            remain_row
        } else {
            self.state.row
        };
        let start_row: usize = self.state.row - scroll_row;
        proof {
            lemma_grid_shape(remain as int, c as int);
            // remaining rows: at least one, at most the rows still owed
            assert(remain <= (tr - (sr + 1)) * c) by (nonlinear_arith)
                requires
                    remain == ic - (sr + 1) * c,
                    ic <= tr * c,
            ;
            assert(remain_row <= tr - (sr + 1)) by {
                assert((remain + c - 1) / c <= ((tr - (sr + 1)) * c + c - 1) / c) by {
                    vstd::arithmetic::div_mod::lemma_div_is_ordered(
                        remain + c - 1,
                        (tr - (sr + 1)) * c + c - 1,
                        c,
                    );
                }
                vstd::arithmetic::div_mod::lemma_fundamental_div_mod_converse(
                    (tr - (sr + 1)) * c + c - 1,
                    c,
                    tr - (sr + 1),
                    c - 1,
                );
            }
            // the walk is mid-list, so the screen is full height
            if pre.rows_off@ == 0 {
                assert(sr + 1 == pre.row_lim);
                assert((sr + 1) * c < ic);
                assert(tr > sr + 1) by (nonlinear_arith)
                    requires
                        (sr + 1) * c < ic,
                        ic <= tr * c,
                        c >= 1,
                ;
            }
            assert(pre.row_lim == pre.row);
        }
        match self.scroll_rows(scroll_row) {
            Err(v) => { return Some(ScanStep::Failed(v)) },
            Ok(ScrollResult::Interrupt) => {
                return Some(ScanStep::Done(ReturnResult::Interrupted))
            },
            Ok(ScrollResult::TimeLimitExceeded) => {
                return Some(ScanStep::Failed(ScanError::ScrollTimeout))
            },
            Ok(ScrollResult::Success) => {},
            Ok(ScrollResult::Skip) => {},
        }
        self.clock.sleep_ms(100);
        self.state.cur_row = start_row;
        let ghost shifted = self.state.rows_off@ + scroll_row as int;
        self.state.rows_off = Ghost(shifted);
        proof {
            assert(self.state.scanned_count == (self.state.cur_row + self.state.rows_off@) * c)
                by (nonlinear_arith)
                requires
                    self.state.scanned_count == (sr + 1) * c,
                    self.state.cur_row + self.state.rows_off@ == sr + 1,
            ;
        }
        None
    }

    /// Visit one more cell of the grid. A call first completes the
    /// bookkeeping left from the previous cell — stepping the cursor,
    /// closing rows, scrolling fresh rows into view — and reports the
    /// verdict at once if the walk ends or dies there; otherwise it checks
    /// for a user interrupt, clicks the cell under the cursor and waits for
    /// the detail panel to settle (a settle timeout is tolerated: the cell
    /// may show an item identical to the previous one). `Scanned` hands
    /// control back with the panel stable and the cursor still on the
    /// scanned cell, so the suspension point is exactly after each
    /// click-and-settle; the caller may read the panel before advancing
    /// again.
    pub fn advance(&mut self) -> (s: ScanStep)
        requires
            old(self).state.wf(),
            old(self).state.phase == Phase::Scanning || old(self).state.phase == Phase::Settled
                || (old(self).state.phase matches Phase::Ending(_)),
        ensures
            final(self).state.wf(),
            final(self).state.config == old(self).state.config,
            final(self).state.layout == old(self).state.layout,
            final(self).state.game_info == old(self).state.game_info,
            final(self).state.item_count == old(self).state.item_count,
            final(self).state.initial_flag == old(self).state.initial_flag,
            final(self).state.scrolled_rows >= old(self).state.scrolled_rows,
            (s == ScanStep::Scanned ==> {
                &&& final(self).state.scanned_count == old(self).state.scanned_count + 1
                &&& final(self).state.scanned_count <= old(self).state.item_count
                &&& final(self).state.visited@ == old(self).state.visited@.push(
                    (
                        final(self).state.cur_row as int,
                        final(self).state.cur_col as int,
                        final(self).state.rows_off@,
                    ),
                )
            }),
            (s != ScanStep::Scanned ==> final(self).state.scanned_count == old(self).state.scanned_count && final(self).state.visited@ == old(self).state.visited@),
            (s == ScanStep::Done(ReturnResult::Finished) ==> old(self).state.scanned_count
                == spec_scan_limit(
                old(self).state.item_count as int,
                old(self).state.config.max_row as int,
                old(self).state.col as int,
            )),
            (old(self).state.phase matches Phase::Ending(v) ==> s == v && final(self).state == (
            ScanState { phase: Phase::Done, ..old(self).state })),
            (s != ScanStep::Scanned ==> final(self).state.phase == Phase::Done),
            (s == ScanStep::Scanned ==> final(self).state.phase == Phase::Settled),
    {
        match self.state.phase {
            Phase::Ending(v) => {
                self.state.phase = Phase::Done;
                return v;
            },
            Phase::Settled => {
                match self.advance_position() {
                    None => {
                        self.state.phase = Phase::Scanning;
                    },
                    Some(v) => {
                        self.state.phase = Phase::Done;
                        return v;
                    },
                }
            },
            _ => {},
        }
        proof {
            lemma_next_cell_exists(self.state);
        }
        if self.interrupt.is_rmb_down() {
            self.state.phase = Phase::Done;
            return ScanStep::Done(ReturnResult::Interrupted);
        }
        match self.move_to(self.state.cur_row, self.state.cur_col) {
            Ok(()) => {},
            Err(_) => {
                self.state.phase = Phase::Done;
                return ScanStep::Failed(ScanError::Input);
            },
        }
        match self.input.click() {
            Ok(()) => {},
            Err(_) => {
                self.state.phase = Phase::Done;
                return ScanStep::Failed(ScanError::Input);
            },
        }
        if matches!(self.state.game_info.platform, Platform::MacOS) {
            self.clock.sleep_ms(20);
        }
        match self.wait_until_switched() {
            Ok(_) => {},
            Err(_) => {
                self.state.phase = Phase::Done;
                return ScanStep::Failed(ScanError::Capture);
            },
        }
        let ghost pre = self.state;
        self.state.scanned_count = self.state.scanned_count + 1;
        let ghost cell = (pre.cur_row as int, pre.cur_col as int, pre.rows_off@);
        let ghost trail = self.state.visited@.push(cell);
        self.state.visited = Ghost(trail);
        proof {
            let k = pre.scanned_count as int;
            let c = pre.col as int;
            lemma_grid_shape(pre.item_count as int, c);
            assert(0 <= pre.cur_col < c);
            vstd::arithmetic::div_mod::lemma_fundamental_div_mod_converse(
                k,
                c,
                pre.scanned_row as int,
                pre.cur_col as int,
            );
            assert(forall|j: int|
                0 <= j < trail.len() - 1 ==> trail[j] == pre.visited@[j]);
        }
        self.state.phase = Phase::Settled;
        ScanStep::Scanned
    }
}

} // verus!
