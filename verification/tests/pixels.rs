use yas_scanner::color::{color_distance, flag_matches, Rgb};
use yas_scanner::config::GridLayout;
use yas_scanner::draw::DrawCaptureRegion;
use yas_scanner::frame::{calc_pool, Frame};
use yas_scanner::positioning::{Pos, Rect, Size};

#[test]
fn color_distance_sums_channel_differences() {
    let a = Rgb { r: 10, g: 20, b: 30 };
    let b = Rgb { r: 13, g: 18, b: 35 };
    assert_eq!(color_distance(&a, &b), 3 + 2 + 5);
    assert_eq!(color_distance(&a, &a), 0);
    let black = Rgb { r: 0, g: 0, b: 0 };
    let white = Rgb { r: 255, g: 255, b: 255 };
    assert_eq!(color_distance(&black, &white), 765);
}

#[test]
fn flag_matches_itself() {
    let sample = vec![
        Rgb { r: 1, g: 2, b: 3 },
        Rgb { r: 200, g: 100, b: 50 },
        Rgb { r: 0, g: 0, b: 0 },
    ];
    assert!(flag_matches(&sample, &sample));
}

#[test]
fn flag_matches_needs_one_close_scanline() {
    let reference = vec![Rgb { r: 0, g: 0, b: 0 }, Rgb { r: 100, g: 100, b: 100 }];
    let shifted = vec![Rgb { r: 90, g: 90, b: 90 }, Rgb { r: 103, g: 100, b: 100 }];
    // the second scanline is within distance 10, so the strip still matches
    assert!(flag_matches(&shifted, &reference));
    let moved = vec![Rgb { r: 90, g: 90, b: 90 }, Rgb { r: 104, g: 100, b: 107 }];
    // every scanline is at distance 10 or more: the strip has shifted
    assert!(!flag_matches(&moved, &reference));
    // an empty sample has no scanline to witness a match
    assert!(!flag_matches(&Vec::new(), &Vec::new()));
}

#[test]
fn pool_scalar_sums_red_channel() {
    // two pixels: red channels 7 and 9, other channels ignored
    let data = vec![7, 255, 255, 9, 1, 2];
    assert_eq!(calc_pool(&data), 16);
    assert_eq!(calc_pool(&Vec::new()), 0);
}

#[test]
fn first_column_reads_leftmost_pixels() {
    // two columns, two rows; the left column pixels are (1,2,3) and (7,8,9)
    let frame = Frame { width: 2, height: 2, data: vec![1, 2, 3, 4, 5, 6, 7, 8, 9, 10, 11, 12] };
    let col = frame.first_column();
    assert_eq!(col, vec![Rgb { r: 1, g: 2, b: 3 }, Rgb { r: 7, g: 8, b: 9 }]);
}

#[test]
fn cell_center_formula() {
    let layout = GridLayout {
        rows: 4,
        cols: 5,
        margin: Pos { x: 10, y: 20 },
        item_size: Size { width: 96, height: 126 },
        item_gap: Size { width: 4, height: 4 },
        flag_rect: Rect { left: 10, top: 5, width: 1, height: 10 },
        pool_rect: Rect { left: 500, top: 100, width: 2, height: 2 },
    };
    let origin = Pos { x: 100, y: 200 };
    let p = layout.cell_center(origin, 0, 0);
    assert_eq!((p.x, p.y), (158, 283));
    let p = layout.cell_center(origin, 3, 4);
    assert_eq!((p.x, p.y), (158 + 400, 283 + 390));
    let flag = layout.flag_rect_absolute(origin);
    assert_eq!((flag.left, flag.top, flag.width, flag.height), (110, 205, 1, 10));
    let pool = layout.pool_rect_absolute(origin);
    assert_eq!((pool.left, pool.top), (600, 300));
}

fn blank_frame(w: usize, h: usize) -> Frame {
    Frame { width: w, height: h, data: vec![9; w * h * 3] }
}

fn pixel(frame: &Frame, x: usize, y: usize) -> (u8, u8, u8) {
    let base = (y * frame.width + x) * 3;
    (frame.data[base], frame.data[base + 1], frame.data[base + 2])
}

#[test]
fn draw_pos_marks_crosshair() {
    let mut frame = blank_frame(32, 32);
    let p = Pos { x: 16, y: 16 };
    p.draw_capture_region(&mut frame);
    let blue = (0, 0, 255);
    let untouched = (9, 9, 9);
    // the center block
    assert_eq!(pixel(&frame, 16, 16), blue);
    assert_eq!(pixel(&frame, 15, 17), blue);
    // the square edges five pixels out
    assert_eq!(pixel(&frame, 11, 11), blue);
    assert_eq!(pixel(&frame, 21, 16), blue);
    assert_eq!(pixel(&frame, 16, 21), blue);
    // inside the square but outside block and edges: untouched
    assert_eq!(pixel(&frame, 13, 13), untouched);
    // outside the square: untouched
    assert_eq!(pixel(&frame, 22, 16), untouched);
}

#[test]
fn draw_rect_marks_border() {
    let mut frame = blank_frame(32, 32);
    let r = Rect { left: 4, top: 6, width: 10, height: 8 };
    r.draw_capture_region(&mut frame);
    let red = (255, 0, 0);
    let untouched = (9, 9, 9);
    assert_eq!(pixel(&frame, 4, 6), red);
    assert_eq!(pixel(&frame, 13, 6), red);
    assert_eq!(pixel(&frame, 4, 14), red);
    assert_eq!(pixel(&frame, 14, 10), red);
    // interior untouched
    assert_eq!(pixel(&frame, 8, 10), untouched);
    // outside untouched
    assert_eq!(pixel(&frame, 15, 15), untouched);
}
