//! A multi-window Direct3D-style device and swap-chain lifecycle manager.
//!
//! The library models the state a renderer must coordinate when one shared
//! graphics device serves several independently resized, minimized and
//! destroyed windows: a window-handle registry, a monitor selector, a
//! per-device resource cache, a device-lost recovery state machine, and the
//! per-frame `lock` operation that reconciles every window's swap chain with
//! its current client size.  Platform calls (window creation, device queries,
//! presentation) happen outside; their outcomes enter as plain values, and
//! every decision taken on them here is verified.

pub mod error;
pub mod frame;
pub mod io;
pub mod registry;
pub mod utility;
pub mod mwc;
pub mod monitor;
pub mod rect;
pub mod sprite;
pub mod texture_cache;
