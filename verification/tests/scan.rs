use std::cell::RefCell;
use std::rc::Rc;

use yas_scanner::capability::{CaptureError, Capturer, Clock, InputDriver, InputError, InterruptSource};
use yas_scanner::config::{GameInfo, GridLayout, Platform, ScanConfig, UI};
use yas_scanner::controller::{
    switch_step, ReturnResult, ScanError, ScanStep, StarRailRepositoryScanController,
};
use yas_scanner::frame::Frame;
use yas_scanner::positioning::{Pos, Rect, Size};

#[derive(Clone, Copy, PartialEq)]
enum PoolMode {
    /// Each click settles the panel on a fresh scalar: two polls detect it.
    PerClick,
    /// The panel never changes: every wait times out.
    Frozen,
}

struct SharedLog {
    moves: Vec<(i32, i32)>,
    clicks: usize,
    scroll_events: usize,
    time_ms: u64,
    rmb: bool,
    rmb_at_clicks: Option<usize>,
    /// Flag strip matches its reference iff `scroll_events` is a multiple of
    /// this; zero means the strip never changes (always matches).
    ticks_per_row: usize,
    pool_mode: PoolMode,
    pool_captures: usize,
    flag_captures: usize,
}

impl SharedLog {
    fn new(ticks_per_row: usize, pool_mode: PoolMode) -> Rc<RefCell<SharedLog>> {
        Rc::new(RefCell::new(SharedLog {
            moves: Vec::new(),
            clicks: 0,
            scroll_events: 0,
            time_ms: 0,
            rmb: false,
            rmb_at_clicks: None,
            ticks_per_row,
            pool_mode,
            pool_captures: 0,
            flag_captures: 0,
        }))
    }
}

struct MockInput(Rc<RefCell<SharedLog>>);
struct MockCap(Rc<RefCell<SharedLog>>);
struct MockClock(Rc<RefCell<SharedLog>>);
struct MockRmb(Rc<RefCell<SharedLog>>);

impl InputDriver for MockInput {
    fn move_to(&mut self, x: i32, y: i32) -> Result<(), InputError> {
        self.0.borrow_mut().moves.push((x, y));
        Ok(())
    }
    fn click(&mut self) -> Result<(), InputError> {
        self.0.borrow_mut().clicks += 1;
        Ok(())
    }
    fn scroll(&mut self, ticks: i32, _fast_hint: bool) -> Result<(), InputError> {
        self.0.borrow_mut().scroll_events += ticks as usize;
        Ok(())
    }
}

impl Capturer for MockCap {
    fn capture(&mut self, rect: Rect) -> Result<Frame, CaptureError> {
        let mut s = self.0.borrow_mut();
        let w = rect.width as usize;
        let h = rect.height as usize;
        // the flag strip is the only one-pixel-wide region the scan reads
        let byte: u8 = if w == 1 {
            s.flag_captures += 1;
            let matches = s.ticks_per_row == 0 || s.scroll_events % s.ticks_per_row == 0;
            if matches {
                10
            } else {
                200
            }
        } else {
            s.pool_captures += 1;
            match s.pool_mode {
                PoolMode::Frozen => 0,
                PoolMode::PerClick => ((s.clicks * 37) % 200 + 1) as u8,
            }
        };
        Ok(Frame { width: w, height: h, data: vec![byte; w * h * 3] })
    }
}

impl Clock for MockClock {
    fn now_ms(&mut self) -> u64 {
        let mut s = self.0.borrow_mut();
        s.time_ms += 1;
        s.time_ms
    }
    fn sleep_ms(&mut self, ms: u64) {
        self.0.borrow_mut().time_ms += ms;
    }
}

impl InterruptSource for MockRmb {
    fn is_rmb_down(&mut self) -> bool {
        let s = self.0.borrow();
        s.rmb || s.rmb_at_clicks.map_or(false, |n| s.clicks >= n)
    }
}

fn layout() -> GridLayout {
    GridLayout {
        rows: 4,
        cols: 5,
        margin: Pos { x: 10, y: 20 },
        item_size: Size { width: 96, height: 126 },
        item_gap: Size { width: 4, height: 4 },
        flag_rect: Rect { left: 10, top: 5, width: 1, height: 10 },
        pool_rect: Rect { left: 500, top: 100, width: 2, height: 2 },
    }
}

fn config() -> ScanConfig {
    ScanConfig { max_row: 1000, max_wait_switch_item: 50, cloud_wait_switch_item: 10, scroll_delay: 1 }
}

fn game_info(is_cloud: bool) -> GameInfo {
    GameInfo {
        window_origin: Pos { x: 100, y: 200 },
        window_size: Size { width: 1920, height: 1080 },
        ui: UI::Desktop,
        platform: Platform::Windows,
        is_cloud,
    }
}

fn controller(
    shared: &Rc<RefCell<SharedLog>>,
    cfg: ScanConfig,
    info: GameInfo,
) -> StarRailRepositoryScanController<MockCap, MockInput, MockClock, MockRmb> {
    StarRailRepositoryScanController::new(
        layout(),
        cfg,
        info,
        MockCap(shared.clone()),
        MockInput(shared.clone()),
        MockClock(shared.clone()),
        MockRmb(shared.clone()),
    )
}

/// The pixel center of visible cell `(row, col)` under the test layout.
fn expected_center(row: usize, col: usize) -> (i32, i32) {
    (158 + 100 * col as i32, 283 + 130 * row as i32)
}

/// Drive a session to its end, returning every step observed.
fn run_scan(
    c: &mut StarRailRepositoryScanController<MockCap, MockInput, MockClock, MockRmb>,
    item_count: usize,
) -> (usize, ScanStep) {
    c.scan(item_count).expect("scan session should open");
    let mut yields = 0usize;
    loop {
        match c.advance() {
            ScanStep::Scanned => yields += 1,
            step => return (yields, step),
        }
        assert!(yields <= item_count, "more yields than items");
    }
}

#[test]
fn single_screen_full_grid() {
    let shared = SharedLog::new(7, PoolMode::PerClick);
    let mut c = controller(&shared, config(), game_info(false));
    let (yields, end) = run_scan(&mut c, 20);
    assert_eq!(yields, 20);
    assert_eq!(end, ScanStep::Done(ReturnResult::Finished));
    assert_eq!(c.state.scanned_count, 20);
    let s = shared.borrow();
    assert_eq!(s.scroll_events, 0, "a full single screen needs no scrolling");
    // one initial move plus one per cell, row-major
    assert_eq!(s.moves.len(), 21);
    assert_eq!(s.moves[0], expected_center(0, 0));
    let mut i = 1;
    for row in 0..4 {
        for col in 0..5 {
            assert_eq!(s.moves[i], expected_center(row, col));
            i += 1;
        }
    }
}

#[test]
fn two_screen_partial_tail() {
    let shared = SharedLog::new(7, PoolMode::PerClick);
    let mut c = controller(&shared, config(), game_info(false));
    let (yields, end) = run_scan(&mut c, 27);
    assert_eq!(yields, 27);
    assert_eq!(end, ScanStep::Done(ReturnResult::Finished));
    let s = shared.borrow();
    // after the first 20 cells the controller scrolls two rows and resumes
    // at screen row 2; the tail row holds 27 mod 5 = 2 cells
    let tail: Vec<(i32, i32)> = s.moves[21..].to_vec();
    let mut expected = Vec::new();
    for col in 0..5 {
        expected.push(expected_center(2, col));
    }
    expected.push(expected_center(3, 0));
    expected.push(expected_center(3, 1));
    assert_eq!(tail, expected);
    // two warmup rows at seven ticks each
    assert_eq!(s.scroll_events, 14);
}

#[test]
fn item_count_zero_finishes_after_initial_click() {
    let shared = SharedLog::new(7, PoolMode::PerClick);
    let mut c = controller(&shared, config(), game_info(false));
    let (yields, end) = run_scan(&mut c, 0);
    assert_eq!(yields, 0);
    assert_eq!(end, ScanStep::Done(ReturnResult::Finished));
    let s = shared.borrow();
    assert_eq!(s.clicks, 1, "only the initial alignment click happens");
    assert_eq!(s.flag_captures, 1, "only the reference flag sample is taken");
}

#[test]
fn item_count_one_yields_once() {
    let shared = SharedLog::new(7, PoolMode::PerClick);
    let mut c = controller(&shared, config(), game_info(false));
    let (yields, end) = run_scan(&mut c, 1);
    assert_eq!(yields, 1);
    assert_eq!(end, ScanStep::Done(ReturnResult::Finished));
}

#[test]
fn tail_row_uses_last_row_cols() {
    let shared = SharedLog::new(7, PoolMode::PerClick);
    let mut c = controller(&shared, config(), game_info(false));
    let (yields, end) = run_scan(&mut c, 7);
    assert_eq!(yields, 7);
    assert_eq!(end, ScanStep::Done(ReturnResult::Finished));
    let s = shared.borrow();
    // row 0 in full, then only two cells of row 1
    assert_eq!(s.moves.len(), 8);
    assert_eq!(s.moves[6], expected_center(1, 0));
    assert_eq!(s.moves[7], expected_center(1, 1));
}

#[test]
fn max_row_truncates_the_walk() {
    let shared = SharedLog::new(7, PoolMode::PerClick);
    let mut cfg = config();
    cfg.max_row = 2;
    let mut c = controller(&shared, cfg, game_info(false));
    let (yields, end) = run_scan(&mut c, 20);
    assert_eq!(yields, 10, "two rows of five cells");
    assert_eq!(end, ScanStep::Done(ReturnResult::Finished));
    assert_eq!(shared.borrow().scroll_events, 0);
}

#[test]
fn scroll_timeout_is_fatal() {
    // the flag strip never changes, so a single-row scroll runs out its
    // twenty-five tick budget
    let shared = SharedLog::new(0, PoolMode::PerClick);
    let mut c = controller(&shared, config(), game_info(false));
    let (yields, end) = run_scan(&mut c, 27);
    assert_eq!(yields, 20, "the first screen is still delivered");
    assert_eq!(end, ScanStep::Failed(ScanError::ScrollTimeout));
    assert_eq!(shared.borrow().scroll_events, 25);
}

#[test]
fn switch_timeout_is_not_fatal() {
    // the pool scalar never moves, so every wait times out, yet every cell
    // is still delivered
    let shared = SharedLog::new(7, PoolMode::Frozen);
    let mut c = controller(&shared, config(), game_info(false));
    let (yields, end) = run_scan(&mut c, 20);
    assert_eq!(yields, 20);
    assert_eq!(end, ScanStep::Done(ReturnResult::Finished));
    assert!(shared.borrow().pool_captures > 0);
}

#[test]
fn calibration_converges_and_batches() {
    let shared = SharedLog::new(7, PoolMode::PerClick);
    let mut c = controller(&shared, config(), game_info(false));
    let (yields, end) = run_scan(&mut c, 80);
    assert_eq!(yields, 80);
    assert_eq!(end, ScanStep::Done(ReturnResult::Finished));
    // every measured row took exactly seven ticks
    assert!(c.state.scrolled_rows >= 5);
    assert_eq!(c.state.tick_total, 7 * c.state.scrolled_rows);
    // a calibrated batch of k rows sends round(7k - 3) ticks
    assert_eq!(c.estimate_scroll_length(4), 25);
    assert_eq!(c.estimate_scroll_length(2), 11);
}

#[test]
fn estimate_clamps_at_zero() {
    let shared = SharedLog::new(7, PoolMode::PerClick);
    let mut c = controller(&shared, config(), game_info(false));
    c.state.tick_total = 5;
    c.state.scrolled_rows = 5;
    // average one tick per row: round(1*1 - 3) is negative, clamped to zero
    assert_eq!(c.estimate_scroll_length(1), 0);
    assert_eq!(c.estimate_scroll_length(4), 1);
}

#[test]
fn interrupt_mid_walk() {
    let shared = SharedLog::new(7, PoolMode::PerClick);
    shared.borrow_mut().rmb_at_clicks = Some(14);  // initial click + 13 cells
    let mut c = controller(&shared, config(), game_info(false));
    let (yields, end) = run_scan(&mut c, 20);
    assert_eq!(yields, 13);
    assert_eq!(end, ScanStep::Done(ReturnResult::Interrupted));
    assert_eq!(c.state.scanned_count, 13);
}

#[test]
fn interrupt_during_scroll_calibration() {
    let shared = SharedLog::new(7, PoolMode::PerClick);
    // right button goes down once the whole first screen has been clicked:
    // the scroll calibrator sees it before sending a single tick
    shared.borrow_mut().rmb_at_clicks = Some(21);
    let mut c = controller(&shared, config(), game_info(false));
    let (yields, end) = run_scan(&mut c, 27);
    assert_eq!(yields, 20);
    assert_eq!(end, ScanStep::Done(ReturnResult::Interrupted));
    let s = shared.borrow();
    assert_eq!(s.scroll_events, 0, "no tick is sent after the interrupt");
    assert_eq!(s.clicks, 21, "no further clicks after the interrupt");
}

#[test]
fn cloud_mode_skips_polling() {
    let shared = SharedLog::new(7, PoolMode::Frozen);
    let mut c = controller(&shared, config(), game_info(true));
    let (yields, end) = run_scan(&mut c, 6);
    assert_eq!(yields, 6);
    assert_eq!(end, ScanStep::Done(ReturnResult::Finished));
    assert_eq!(shared.borrow().pool_captures, 0);
}

#[test]
fn replay_is_deterministic() {
    let run = || {
        let shared = SharedLog::new(7, PoolMode::PerClick);
        let mut c = controller(&shared, config(), game_info(false));
        let (yields, end) = run_scan(&mut c, 27);
        let s = shared.borrow();
        (yields, end, s.moves.clone(), s.clicks, s.scroll_events)
    };
    let first = run();
    let second = run();
    assert_eq!(first, second);
}

#[test]
fn scrolled_rows_is_monotone() {
    let shared = SharedLog::new(7, PoolMode::PerClick);
    let mut c = controller(&shared, config(), game_info(false));
    c.scan(80).expect("scan session should open");
    let mut last = c.state.scrolled_rows;
    loop {
        match c.advance() {
            ScanStep::Scanned => {
                assert!(c.state.scrolled_rows >= last);
                last = c.state.scrolled_rows;
            }
            _ => break,
        }
    }
}

#[test]
fn switch_step_two_phase() {
    // equal sample before any change: keep waiting
    assert_eq!(switch_step(100, false, 100), (100, false, false));
    // a differing sample records the change and the new scalar
    assert_eq!(switch_step(100, false, 250), (250, true, false));
    // still animating: the scalar keeps moving
    assert_eq!(switch_step(250, true, 260), (260, true, false));
    // one stable sample after a change: the item has switched
    assert_eq!(switch_step(260, true, 260), (260, true, true));
}
