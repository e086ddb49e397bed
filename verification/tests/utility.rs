//! Tests for the utility types, the error model, and the per-frame callback
//! bookkeeping.

use kakistocracy::error::{Decomposed, Error, Severity};
use kakistocracy::frame::{quit_code, WM_QUIT};
use kakistocracy::registry::{hook_action, HookAction, WM_NCCREATE, WM_NCDESTROY};
use kakistocracy::rect::Rect;
use kakistocracy::frame::FrameCallbacks;
use kakistocracy::utility::{FrameRateCounter, SendSyncCell, StaticBytesRef};

#[test]
fn static_bytes_ref_identity() {
    let a: &'static [u8] = Box::leak(vec![1u8, 2, 3].into_boxed_slice());
    let b: &'static [u8] = Box::leak(vec![1u8, 2, 3].into_boxed_slice());
    let ra = StaticBytesRef(a);
    let rb = StaticBytesRef(b);

    // Identity, not content: two allocations of equal bytes are distinct.
    assert_ne!(ra.cmp_data(), rb.cmp_data());
    assert_ne!(ra.key(), rb.key());
    // The same allocation always answers the same identity.
    assert_eq!(ra.cmp_data(), StaticBytesRef(a).cmp_data());
    assert_eq!(ra.cmp_data().1, 3);
    assert_eq!(ra.key() % (1u128 << 64), 3);
    assert_eq!(ra.as_bytes(), a);
}

#[test]
fn send_sync_cell_holds_value() {
    let mut cell = SendSyncCell::new(41);
    assert_eq!(*cell.get(), 41);
    *cell.get_mut() += 1;
    assert_eq!(*cell.get(), 42);
}

#[test]
fn frame_rate_counter_averages() {
    let mut counter = FrameRateCounter::new(3, 0);
    // One remembered frame spanning 10 time units.
    assert_eq!(counter.frame(10), 10);
    // Two frames spanning 30 units: 15 each on average.
    assert_eq!(counter.frame(30), 15);
    // Window is full: the oldest timestamp falls out.
    assert_eq!(counter.frame(60), 20);
    assert_eq!(counter.frame(100), 30);
}

#[test]
fn error_carries_the_raw_code() {
    let e = Error::new_hr("SomeCall", -0x7785_fffe, "went wrong");
    assert_eq!(e.u32(), 0x887a_0002);
    assert_eq!(e.hresult(), -0x7785_fffe);
    assert_eq!(e.method(), "SomeCall");

    assert!(Error::check_hr("Fine", 0, "").is_ok());
    assert!(Error::check_hr("Info", 0x0007_0001, "").is_ok());
    assert!(Error::check_hr("Bad", -1, "").is_err());
}

#[test]
fn error_code_hex_digits() {
    let e = Error::new_hr("Call", 0x1A2B_3C4Du32 as i32, "");
    assert_eq!(e.code_hex(), b"1A2B3C4D".to_vec());
    assert_eq!(kakistocracy::error::hex_u32(0), b"00000000".to_vec());
    assert_eq!(kakistocracy::error::hex_u32(0xFFFF_FFFF), b"FFFFFFFF".to_vec());
    assert_eq!(kakistocracy::error::hex_u32(0x8876_0868), b"88760868".to_vec());
}

#[test]
fn hresult_decomposition() {
    // The severity field is the top two bits: a plain failure bit decomposes
    // to the third severity, a set bit 30 on top of it to the fourth.
    let d = Decomposed::from_hresult(0x8876_0868u32 as i32);
    assert!(matches!(d.sev, Severity::Warning));
    assert_eq!(d.facility, 0x876);
    assert_eq!(d.code, 0x868);
    assert!(!d.customer);
    assert!(!d.reserved);

    let worst = Decomposed::from_hresult(0xC076_0868u32 as i32);
    assert!(matches!(worst.sev, Severity::Error));

    let ok = Decomposed::from_hresult(0);
    assert!(matches!(ok.sev, Severity::Success));
    let info = Decomposed::from_hresult(0x4000_0001u32 as i32);
    assert!(matches!(info.sev, Severity::Informational));

    let made = kakistocracy::error::make_hresult(1, 0x876, 0x868);
    assert_eq!(made as u32, 0x8876_0868);
}

#[test]
fn frame_callbacks_run_and_retire() {
    let mut cbs = FrameCallbacks::new();
    let a = cbs.each_frame();
    let b = cbs.each_frame();
    assert_ne!(a, b);

    // Both join the first frame, in registration order.
    let order = cbs.begin_frame();
    assert_eq!(order, vec![a, b]);

    // `a` answers false and is unregistered; `b` stays.
    cbs.end_frame(&vec![false, true]);
    let c = cbs.each_frame();
    let order = cbs.begin_frame();
    assert_eq!(order, vec![b, c]);
    cbs.end_frame(&vec![true, true]);
    let order = cbs.begin_frame();
    assert_eq!(order, vec![b, c]);
    cbs.end_frame(&vec![true, true]);
}

#[test]
fn message_classification() {
    assert_eq!(quit_code(WM_QUIT, 42), Some(42));
    assert_eq!(quit_code(WM_QUIT, (-9001i32) as usize), Some(-9001));
    assert_eq!(quit_code(0x000F, 42), None);
    assert!(matches!(hook_action(WM_NCCREATE), HookAction::Register));
    assert!(matches!(hook_action(WM_NCDESTROY), HookAction::Unregister));
    assert!(matches!(hook_action(0x0001), HookAction::Nothing));
}

#[test]
fn rect_dimensions() {
    let r = Rect::new(-10, 5, 30, 25);
    assert_eq!(r.width(), 40);
    assert_eq!(r.height(), 20);
    assert_eq!(r.size(), (40, 20));
    assert_eq!(r.center(), (10, 15));
    assert_eq!(r.xrange(), (-10, 30));
    assert_eq!(r.yrange(), (5, 25));

    // A reversed range has zero size rather than a negative one.
    let rev = Rect::from_ranges(10, 0, 10, 0);
    assert_eq!(rev.size(), (0, 0));
}
