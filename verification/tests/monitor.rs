//! Monitor selection tests: center ordering from the primary, clamping, and
//! fullscreen selection by display number or device name.

use kakistocracy::monitor::{
    fullscreen_area_by_number, select_monitor, MonitorArea, MonitorEntry, Selector,
};
use kakistocracy::rect::Rect;

fn utf16(s: &str) -> Vec<u16> {
    s.encode_utf16().collect()
}

fn row() -> Vec<MonitorArea> {
    // Left of primary, primary, right of primary; enumerated out of order.
    vec![
        MonitorArea { rect: Rect::new(1920, 0, 3840, 1080) },
        MonitorArea { rect: Rect::new(-1920, 0, 0, 1080) },
        MonitorArea { rect: Rect::new(0, 0, 1920, 1080) },
    ]
}

#[test]
fn primary_selects_origin_monitor() {
    let m = select_monitor(&row(), Selector::Primary).unwrap();
    assert_eq!(m.rect, Rect::new(0, 0, 1920, 1080));
}

#[test]
fn by_order_x_walks_the_row() {
    let ms = row();
    let left = select_monitor(&ms, Selector::ByOrderX(-1)).unwrap();
    assert_eq!(left.rect, Rect::new(-1920, 0, 0, 1080));
    let right = select_monitor(&ms, Selector::ByOrderX(1)).unwrap();
    assert_eq!(right.rect, Rect::new(1920, 0, 3840, 1080));

    // Out-of-range steps clamp to the nearest end instead of failing.
    let far_left = select_monitor(&ms, Selector::ByOrderX(-7)).unwrap();
    assert_eq!(far_left.rect, Rect::new(-1920, 0, 0, 1080));
    let far_right = select_monitor(&ms, Selector::ByOrderX(7)).unwrap();
    assert_eq!(far_right.rect, Rect::new(1920, 0, 3840, 1080));
}

#[test]
fn by_order_y_walks_a_column() {
    let ms = vec![
        MonitorArea { rect: Rect::new(0, 0, 1920, 1080) },
        MonitorArea { rect: Rect::new(0, -1080, 1920, 0) },
        MonitorArea { rect: Rect::new(0, 1080, 1920, 2160) },
    ];
    let above = select_monitor(&ms, Selector::ByOrderY(-1)).unwrap();
    assert_eq!(above.rect, Rect::new(0, -1080, 1920, 0));
    let below = select_monitor(&ms, Selector::ByOrderY(1)).unwrap();
    assert_eq!(below.rect, Rect::new(0, 1080, 1920, 2160));
}

#[test]
fn equal_centers_keep_enumeration_order() {
    // A two-by-one stack: both monitors share the center x, so the x order
    // falls back to the y coordinate, and fully equal keys would keep
    // enumeration order.  Here the primary is above, its neighbor below.
    let ms = vec![
        MonitorArea { rect: Rect::new(0, 1080, 1920, 2160) },
        MonitorArea { rect: Rect::new(0, 0, 1920, 1080) },
    ];
    let below = select_monitor(&ms, Selector::ByOrderX(1)).unwrap();
    assert_eq!(below.rect, Rect::new(0, 1080, 1920, 2160));
    let clamped = select_monitor(&ms, Selector::ByOrderX(-1)).unwrap();
    assert_eq!(clamped.rect, Rect::new(0, 0, 1920, 1080));
}

#[test]
fn no_primary_means_no_selection() {
    let ms = vec![MonitorArea { rect: Rect::new(100, 100, 200, 200) }];
    assert!(select_monitor(&ms, Selector::Primary).is_none());
    assert!(select_monitor(&Vec::new(), Selector::Primary).is_none());
}

#[test]
fn fullscreen_by_device_name() {
    let ms = vec![
        MonitorEntry { rect: Rect::new(0, 0, 10, 10), device: utf16(r"\\.\DISPLAY2") },
        MonitorEntry { rect: Rect::new(10, 0, 20, 10), device: utf16(r"\\.\DISPLAY1") },
    ];
    // The device name wins over the enumeration ordinal.
    let r = fullscreen_area_by_number(&ms, 1).unwrap();
    assert_eq!(r, Rect::new(10, 0, 20, 10));
    let r = fullscreen_area_by_number(&ms, 2).unwrap();
    assert_eq!(r, Rect::new(0, 0, 10, 10));
}

#[test]
fn fullscreen_by_ordinal_fallback() {
    let ms = vec![
        MonitorEntry { rect: Rect::new(0, 0, 10, 10), device: utf16("display-a") },
        MonitorEntry { rect: Rect::new(10, 0, 20, 10), device: utf16("display-b") },
    ];
    // No device name matches: monitor *number* n is the nth enumerated.
    let r = fullscreen_area_by_number(&ms, 2).unwrap();
    assert_eq!(r, Rect::new(10, 0, 20, 10));
    assert!(fullscreen_area_by_number(&ms, 3).is_none());
}
