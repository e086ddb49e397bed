//! Scenario tests for the multi-window manager: swap-chain sizing, lock
//! emptiness, per-device caching, and device-loss recovery.

use kakistocracy::monitor::{MonitorArea, Selector};
use kakistocracy::mwc::{CoopLevel, CreateOutcome, MultiWindowContext};
use kakistocracy::rect::Rect;

fn fresh_manager() -> MultiWindowContext {
    MultiWindowContext::new(CreateOutcome::Created).unwrap()
}

#[test]
fn new_manager_holds_one_device() {
    let mwc = fresh_manager();
    assert!(mwc.has_device());
    assert_eq!(mwc.device_id(), Some(0));
}

#[test]
fn new_manager_without_device_fails() {
    assert!(MultiWindowContext::new(CreateOutcome::Lost).is_err());
    let err = MultiWindowContext::new(CreateOutcome::Failed(-0x7785_fffe)).unwrap_err();
    assert_eq!(err.u32(), 0x887a_0002);
}

#[test]
fn render_visible_windows_end_to_end() {
    let mut mwc = fresh_manager();
    mwc.create_window_at("one", Rect::new(0, 0, 320, 230), 1).unwrap();
    mwc.create_window_at("two", Rect::new(10, 10, 250, 330), 2).unwrap();

    let calls = mwc
        .render_visible_windows(CoopLevel::DeviceOk, CreateOutcome::Created)
        .unwrap();
    assert_eq!(calls.len(), 2);
    assert_eq!(calls[0].window, 1);
    assert_eq!(calls[0].client_size(), (320, 230));
    assert_eq!(calls[1].window, 2);
    assert_eq!(calls[1].client_size(), (240, 320));

    mwc.set_iconic(1, true).unwrap();
    let calls = mwc
        .render_visible_windows(CoopLevel::DeviceOk, CreateOutcome::Created)
        .unwrap();
    assert_eq!(calls.len(), 1);
    assert_eq!(calls[0].window, 2);
    assert_eq!(calls[0].client_size(), (240, 320));
}

#[test]
fn swap_chain_tracks_client_size() {
    let mut mwc = fresh_manager();
    mwc.create_window_at("w", Rect::new(0, 0, 100, 50), 7).unwrap();

    let lock = mwc
        .lock(CoopLevel::DeviceOk, CreateOutcome::Created, false)
        .unwrap()
        .unwrap();
    assert_eq!(lock.windows.len(), 1);
    assert_eq!(lock.windows[0].swap_chain.width, 100);
    assert_eq!(lock.windows[0].swap_chain.height, 50);

    // A resize is observed by the next lock, which recreates the swap chain.
    mwc.set_client_size(7, 200, 80).unwrap();
    let lock = mwc
        .lock(CoopLevel::DeviceOk, CreateOutcome::Created, false)
        .unwrap()
        .unwrap();
    assert_eq!(lock.windows[0].client_size(), (200, 80));
    assert_eq!(lock.windows[0].swap_chain.width, 200);
    assert_eq!(lock.windows[0].swap_chain.height, 80);
    assert_eq!(lock.windows[0].swap_chain.device_id, 0);

    // Unchanged size: the swap chain is reused, still matching.
    let lock = mwc
        .lock(CoopLevel::DeviceOk, CreateOutcome::Created, false)
        .unwrap()
        .unwrap();
    assert_eq!(lock.windows[0].swap_chain.width, 200);
    assert_eq!(lock.windows[0].swap_chain.height, 80);
}

#[test]
fn lock_emptiness_semantics() {
    let mut mwc = fresh_manager();

    // No window at all: lock(false) skips the frame, lock(true) proceeds.
    assert!(mwc
        .lock(CoopLevel::DeviceOk, CreateOutcome::Created, false)
        .unwrap()
        .is_none());
    let lock = mwc
        .lock(CoopLevel::DeviceOk, CreateOutcome::Created, true)
        .unwrap()
        .unwrap();
    assert_eq!(lock.windows.len(), 0);

    // A window that is not visible, or minimized, does not count.
    mwc.create_window_at("w", Rect::new(0, 0, 64, 64), 3).unwrap();
    mwc.set_visible(3, false).unwrap();
    assert!(mwc
        .lock(CoopLevel::DeviceOk, CreateOutcome::Created, false)
        .unwrap()
        .is_none());
    mwc.set_visible(3, true).unwrap();
    mwc.set_iconic(3, true).unwrap();
    assert!(mwc
        .lock(CoopLevel::DeviceOk, CreateOutcome::Created, false)
        .unwrap()
        .is_none());
    mwc.set_iconic(3, false).unwrap();
    assert!(mwc
        .lock(CoopLevel::DeviceOk, CreateOutcome::Created, false)
        .unwrap()
        .is_some());
}

#[test]
fn device_loss_recovery() {
    let mut mwc = fresh_manager();
    mwc.create_window_at("w", Rect::new(0, 0, 32, 32), 9).unwrap();

    let first_device = mwc.device_id().unwrap();
    let first_cache = mwc.per_device_texture_cache().unwrap();

    // Device lost and not yet restorable: the frame is skipped, the device
    // and its cache are kept.
    assert!(mwc
        .lock(CoopLevel::Lost, CreateOutcome::Created, false)
        .unwrap()
        .is_none());
    assert!(mwc.has_device());
    assert_eq!(mwc.device_id(), Some(first_device));
    assert_eq!(mwc.per_device_texture_cache(), Some(first_cache));

    // Restorable: the device is released and recreated; the new device is a
    // different one, and the per-device cache is freshly constructed.
    let lock = mwc
        .lock(CoopLevel::NotReset, CreateOutcome::Created, false)
        .unwrap()
        .unwrap();
    let second_device = mwc.device_id().unwrap();
    assert_ne!(second_device, first_device);
    assert_eq!(lock.device.id, second_device);
    assert_eq!(lock.windows[0].swap_chain.device_id, second_device);

    let second_cache = mwc.per_device_texture_cache().unwrap();
    assert_ne!(second_cache, first_cache);
    assert_eq!(mwc.texture_cache().unwrap().device_id, second_device);
}

#[test]
fn per_device_cache_is_memoized_per_device() {
    let mut mwc = fresh_manager();
    let a = mwc.per_device_texture_cache().unwrap();
    let b = mwc.per_device_texture_cache().unwrap();
    assert_eq!(a, b);
    let s1 = mwc.per_device_sprite_resources().unwrap();
    let s2 = mwc.per_device_sprite_resources().unwrap();
    assert_eq!(s1, s2);
    assert_ne!(a, s1);
    let sr = mwc.sprite_resources().unwrap();
    assert_eq!(sr.quads_ib.len(), 6 * 16384);
    assert_eq!(&sr.quads_ib[..6], &[0, 1, 2, 0, 2, 3]);
    assert_eq!(&sr.quads_ib[6..12], &[4, 5, 6, 4, 6, 7]);
}

#[test]
fn driver_error_is_fatal_and_releases() {
    let mut mwc = fresh_manager();
    mwc.create_window_at("w", Rect::new(0, 0, 16, 16), 4).unwrap();
    let err = mwc
        .lock(CoopLevel::DriverInternalError, CreateOutcome::Created, false)
        .unwrap_err();
    assert_eq!(err.u32(), 0x8876_0827);
    assert!(!mwc.has_device());
}

#[test]
fn creation_failure_is_reported() {
    let mut mwc = fresh_manager();
    let err = mwc
        .lock(CoopLevel::NotReset, CreateOutcome::Failed(-0x7778_9ffe), false)
        .unwrap_err();
    assert_eq!(err.hresult(), -0x7778_9ffe);
    assert!(!mwc.has_device());

    // Transient loss during recreation is tolerated silently, and even
    // `allow_empty` cannot make a deviceless lock succeed.
    assert!(mwc
        .lock(CoopLevel::DeviceOk, CreateOutcome::Lost, false)
        .unwrap()
        .is_none());
    assert!(mwc
        .lock(CoopLevel::DeviceOk, CreateOutcome::Lost, true)
        .unwrap()
        .is_none());
    assert!(!mwc.has_device());

    // And recreation afterwards succeeds with a fresh device.
    assert!(mwc
        .lock(CoopLevel::DeviceOk, CreateOutcome::Created, true)
        .unwrap()
        .is_some());
    assert!(mwc.has_device());
    assert_ne!(mwc.device_id(), Some(0));
}

#[test]
fn window_lifecycle_errors() {
    let mut mwc = fresh_manager();
    mwc.create_window_at("w", Rect::new(0, 0, 8, 8), 5).unwrap();
    assert!(mwc.create_window_at("again", Rect::new(0, 0, 8, 8), 5).is_err());
    mwc.destroy_window(5).unwrap();
    assert!(mwc.destroy_window(5).is_err());
    assert!(mwc.set_visible(5, true).is_err());
    assert!(mwc.set_iconic(5, true).is_err());
    assert!(mwc.set_client_size(5, 1, 1).is_err());

    // The destroyed window is pruned and never rendered again.
    let calls = mwc
        .render_visible_windows(CoopLevel::DeviceOk, CreateOutcome::Created)
        .unwrap();
    assert_eq!(calls.len(), 0);
}

#[test]
fn fullscreen_window_covers_selected_monitor() {
    let mut mwc = fresh_manager();
    let monitors = vec![
        MonitorArea { rect: Rect::new(0, 0, 1920, 1080) },
        MonitorArea { rect: Rect::new(1920, 0, 3200, 1024) },
    ];
    mwc.create_fullscreen_window(&monitors, Selector::ByOrderX(1), "fs", 11)
        .unwrap();
    let calls = mwc
        .render_visible_windows(CoopLevel::DeviceOk, CreateOutcome::Created)
        .unwrap();
    assert_eq!(calls.len(), 1);
    assert_eq!(calls[0].client_size(), (1280, 1024));

    // Without a primary monitor nothing can be counted from: an error.
    let unanchored = vec![MonitorArea { rect: Rect::new(5, 5, 10, 10) }];
    assert!(mwc
        .create_fullscreen_window(&unanchored, Selector::Primary, "fs", 12)
        .is_err());
}

#[test]
fn viewport_covers_client_area() {
    let mut mwc = fresh_manager();
    mwc.create_window_at("w", Rect::new(0, 0, 123, 45), 6).unwrap();
    let calls = mwc
        .render_visible_windows(CoopLevel::DeviceOk, CreateOutcome::Created)
        .unwrap();
    let vp = calls[0].viewport();
    assert_eq!((vp.x, vp.y, vp.width, vp.height), (0, 0, 123, 45));
    assert_eq!(calls[0].client_width(), 123);
    assert_eq!(calls[0].client_height(), 45);
    assert_eq!(calls[0].client_size_usize(), (123, 45));
    assert_eq!(calls[0].client_width_usize(), 123);
    assert_eq!(calls[0].client_height_usize(), 45);
}

#[test]
fn window_liveness_observers() {
    let mut mwc = fresh_manager();
    assert!(!mwc.is_alive(13));
    mwc.create_window_at("w", Rect::new(0, 0, 20, 10), 13).unwrap();
    assert!(mwc.is_alive(13));
    assert!(mwc.is_visible(13));
    assert!(!mwc.is_iconic(13));
    assert!(mwc.should_render(13));
    assert_eq!(mwc.get_client_size(13).unwrap(), (20, 10));

    mwc.set_iconic(13, true).unwrap();
    assert!(mwc.is_visible(13));
    assert!(!mwc.should_render(13));

    // Destruction is permanent and a second destruction fails loudly.
    mwc.destroy_window(13).unwrap();
    assert!(!mwc.is_alive(13));
    assert!(mwc.destroy_window(13).is_err());
    assert!(!mwc.is_alive(13));
    assert!(!mwc.is_visible(13));
    assert!(!mwc.should_render(13));
    assert!(mwc.get_client_size(13).is_err());
}
