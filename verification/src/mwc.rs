//! The multi-window device and swap-chain manager.
//!
//! One manager owns at most one graphics device and tracks any number of
//! windows, in registration order.  Each `lock` call reconciles the device
//! and every window's swap chain with the platform's current answers: the
//! cooperative-level result for the device it holds, the outcome of a device
//! creation attempt when it holds none, and the visibility, minimization and
//! client size it has recorded for each window.  Those answers are plain
//! values here; the host reads them from the platform and feeds them in.

use vstd::prelude::*;
use crate::error::Error;
use crate::registry::Registry;

verus! {

broadcast use vstd::seq::group_seq_axioms, vstd::seq_lib::group_seq_lib_default;

/// What the platform answered when the device's cooperative level was tested.
#[derive(Clone, Copy, Debug, PartialEq, Eq, Structural)]
pub enum CoopLevel {
    /// The device is usable.
    DeviceOk,
    /// The device is lost and cannot be restored yet: skip this frame.
    Lost,
    /// The device is lost and can be restored: release it and recreate.
    NotReset,
    /// The driver failed internally: fatal, do not retry.
    DriverInternalError,
    /// A success code other than plain success: treated as usable.
    OtherSuccess(i32),
    /// Any other failure: release the device and report the error.
    OtherError(i32),
}

/// What the platform answered when asked to create a device.
#[derive(Clone, Copy, Debug, PartialEq, Eq, Structural)]
pub enum CreateOutcome {
    /// A device was created.
    Created,
    /// The device is lost and cannot be created yet: tolerated silently.
    Lost,
    /// Creation failed with this `HRESULT`: reported to the caller.
    Failed(i32),
}

/// The shared graphics device, identified by the manager so that a recreated
/// device is distinct from every device it held before.
#[derive(Clone, Copy, Debug, PartialEq, Eq, Structural)]
pub struct Device {
    pub id: u64,
}

/// One window's swap chain: created against the device identified by
/// `device_id`, with back buffers of the given size.
#[derive(Clone, Copy, Debug, PartialEq, Eq, Structural)]
pub struct SwapChain {
    pub device_id: u64,
    pub width: u32,
    pub height: u32,
}

/// Everything the manager records per tracked window: the platform state it
/// was last told about, and the window's swap chain, if one exists.
#[derive(Clone, Copy, Debug)]
pub struct WindowAssoc {
    pub visible: bool,
    pub iconic: bool,
    pub width: u32,
    pub height: u32,
    pub swap_chain: Option<SwapChain>,
}

/// The per-device cache of objects that are expensive to construct and valid
/// only for one device's lifetime: one closed slot per known consumer,
/// constructed on first use and dropped with the device.
#[derive(Debug)]
pub struct PerDeviceStatics {
    pub texture_cache: Option<crate::texture_cache::BasicTextureCache>,
    pub sprite_resources: Option<crate::sprite::SpriteResources>,
}

impl PerDeviceStatics {
    /// No cached object yet.
    pub fn empty() -> (r: PerDeviceStatics)
        ensures
            r.texture_cache is None,
            r.sprite_resources is None,
    {
        PerDeviceStatics { texture_cache: None, sprite_resources: None }
    }
}

/// The device together with everything whose lifetime is tied to it.
#[derive(Debug)]
pub struct DeviceAndAssoc {
    pub device: Device,
    pub statics: PerDeviceStatics,
}

/// `true` when the window is alive and worth rendering: visible and not
/// minimized.  Occlusion and virtual-desktop placement are deliberately not
/// consulted.
pub open spec fn renderable_in(m: Map<u64, WindowAssoc>, h: u64) -> bool {
    m.contains_key(h) && m[h].visible && !m[h].iconic
}

/// The subsequence of `ws` whose handles are registered in `m`, in order.
pub open spec fn alive_list(ws: Seq<u64>, m: Map<u64, WindowAssoc>) -> Seq<u64>
    decreases ws.len(),
{
    if ws.len() == 0 {
        Seq::empty()
    } else {
        let rest = alive_list(ws.drop_last(), m);
        if m.contains_key(ws.last()) {
            rest.push(ws.last())
        } else {
            rest
        }
    }
}

/// The subsequence of `ws` that is renderable under `m`, in order.
pub open spec fn render_list(ws: Seq<u64>, m: Map<u64, WindowAssoc>) -> Seq<u64>
    decreases ws.len(),
{
    if ws.len() == 0 {
        Seq::empty()
    } else {
        let rest = render_list(ws.drop_last(), m);
        if renderable_in(m, ws.last()) {
            rest.push(ws.last())
        } else {
            rest
        }
    }
}

/// The cooperative-level answer forces the device to be released before this
/// frame goes on.
pub open spec fn coop_releases(has_device: bool, coop: CoopLevel) -> bool {
    has_device && match coop {
        CoopLevel::NotReset => true,
        CoopLevel::DriverInternalError => true,
        CoopLevel::OtherError(_) => true,
        _ => false,
    }
}

/// The cooperative-level answer is an unrecoverable error.
pub open spec fn coop_fails(has_device: bool, coop: CoopLevel) -> bool {
    has_device && match coop {
        CoopLevel::DriverInternalError => true,
        CoopLevel::OtherError(_) => true,
        _ => false,
    }
}

/// The device is lost but not yet restorable: rendering skips this frame.
pub open spec fn coop_skips(has_device: bool, coop: CoopLevel) -> bool {
    has_device && coop is Lost
}

proof fn lemma_alive_list_push(ws: Seq<u64>, x: u64, m: Map<u64, WindowAssoc>)
    ensures
        alive_list(ws.push(x), m) == if m.contains_key(x) {
            alive_list(ws, m).push(x)
        } else {
            alive_list(ws, m)
        },
{
    assert(ws.push(x).drop_last() =~= ws);
    assert(ws.push(x).last() == x);
}

proof fn lemma_render_list_push(ws: Seq<u64>, x: u64, m: Map<u64, WindowAssoc>)
    ensures
        render_list(ws.push(x), m) == if renderable_in(m, x) {
            render_list(ws, m).push(x)
        } else {
            render_list(ws, m)
        },
{
    assert(ws.push(x).drop_last() =~= ws);
    assert(ws.push(x).last() == x);
}

/// Every member of `alive_list(ws, m)` is a registered member of `ws`, the
/// order is kept, and no handle is added or duplicated.
proof fn lemma_alive_list_props(ws: Seq<u64>, m: Map<u64, WindowAssoc>)
    ensures
        forall|h: u64| alive_list(ws, m).contains(h) <==> ws.contains(h) && m.contains_key(h),
        ws.no_duplicates() ==> alive_list(ws, m).no_duplicates(),
        forall|i: int| 0 <= i < alive_list(ws, m).len() ==> m.contains_key(#[trigger] alive_list(ws, m)[i]),
    decreases ws.len(),
{
    if ws.len() > 0 {
        let prefix = ws.drop_last();
        lemma_alive_list_props(prefix, m);
        let rest = alive_list(prefix, m);
        let r = alive_list(ws, m);
        assert forall|h: u64| r.contains(h) implies ws.contains(h) && m.contains_key(h) by {
            let i = choose|i: int| 0 <= i < r.len() && r[i] == h;
            if m.contains_key(ws.last()) && i == r.len() - 1 {
                assert(ws[ws.len() - 1] == h);
            } else {
                assert(rest[i] == h);
                assert(rest.contains(h));
                assert(prefix.contains(h) && m.contains_key(h));
                let j = choose|j: int| 0 <= j < prefix.len() && prefix[j] == h;
                assert(prefix[j] == ws[j]);
                assert(ws[j] == h);
            }
        }
        assert forall|h: u64| ws.contains(h) && m.contains_key(h) implies r.contains(h) by {
            let i = choose|i: int| 0 <= i < ws.len() && ws[i] == h;
            if i == ws.len() - 1 {
                assert(ws.last() == h);
                assert(r[r.len() - 1] == h);
            } else {
                assert(prefix[i] == ws[i]);
                assert(prefix.contains(h));
                assert(rest.contains(h));
                let j = choose|j: int| 0 <= j < rest.len() && rest[j] == h;
                assert(r[j] == h);
            }
        }
        assert forall|i: int| 0 <= i < r.len() implies m.contains_key(#[trigger] r[i]) by {
            if !(m.contains_key(ws.last()) && i == r.len() - 1) {
                assert(r[i] == rest[i]);
            }
        }
        if ws.no_duplicates() {
            assert forall|i: int, j: int| 0 <= i < j < prefix.len() implies prefix[i]
                != prefix[j] by {
                assert(prefix[i] == ws[i]);
                assert(prefix[j] == ws[j]);
            }
            assert(prefix.no_duplicates());
            if m.contains_key(ws.last()) {
                if prefix.contains(ws.last()) {
                    let j = choose|j: int| 0 <= j < prefix.len() && prefix[j] == ws.last();
                    assert(ws[j] == ws[ws.len() - 1]);
                    assert(false);
                }
                assert(!rest.contains(ws.last()));
                assert(r == rest.push(ws.last()));
                assert forall|i: int, j: int| 0 <= i < j < r.len() implies r[i] != r[j] by {
                    if j == r.len() - 1 {
                        assert(r[i] == rest[i]);
                        assert(rest.contains(rest[i]));
                    } else {
                        assert(r[i] == rest[i]);
                        assert(r[j] == rest[j]);
                    }
                }
            }
        }
    }
}

/// Renderability reads only liveness, visibility and minimization, so two
/// maps that agree on those fields induce the same render list.
proof fn lemma_render_list_congruent(ws: Seq<u64>, m1: Map<u64, WindowAssoc>, m2: Map<u64, WindowAssoc>)
    requires
        forall|h: u64| m1.contains_key(h) <==> m2.contains_key(h),
        forall|h: u64| #[trigger] m1.contains_key(h) ==> m1[h].visible == m2[h].visible
            && m1[h].iconic == m2[h].iconic,
    ensures
        render_list(ws, m1) == render_list(ws, m2),
    decreases ws.len(),
{
    if ws.len() > 0 {
        lemma_render_list_congruent(ws.drop_last(), m1, m2);
    }
}

/// Dropping dead handles first does not change the render list: dead windows
/// were never renderable.
proof fn lemma_render_list_of_alive(ws: Seq<u64>, m: Map<u64, WindowAssoc>)
    ensures
        render_list(alive_list(ws, m), m) == render_list(ws, m),
    decreases ws.len(),
{
    if ws.len() > 0 {
        let prefix = ws.drop_last();
        lemma_render_list_of_alive(prefix, m);
        if m.contains_key(ws.last()) {
            lemma_render_list_push(alive_list(prefix, m), ws.last(), m);
        }
    }
}

/// Every member of `render_list(ws, m)` is a renderable member of `ws`, the
/// order is kept, and no handle is added or duplicated.
proof fn lemma_render_list_props(ws: Seq<u64>, m: Map<u64, WindowAssoc>)
    ensures
        forall|h: u64| render_list(ws, m).contains(h) <==> ws.contains(h) && renderable_in(m, h),
        ws.no_duplicates() ==> render_list(ws, m).no_duplicates(),
        forall|i: int| 0 <= i < render_list(ws, m).len() ==> renderable_in(
            m,
            #[trigger] render_list(ws, m)[i],
        ),
    decreases ws.len(),
{
    if ws.len() > 0 {
        let prefix = ws.drop_last();
        lemma_render_list_props(prefix, m);
        let rest = render_list(prefix, m);
        let r = render_list(ws, m);
        assert forall|h: u64| r.contains(h) implies ws.contains(h) && renderable_in(m, h) by {
            let i = choose|i: int| 0 <= i < r.len() && r[i] == h;
            if renderable_in(m, ws.last()) && i == r.len() - 1 {
                assert(ws[ws.len() - 1] == h);
            } else {
                assert(rest[i] == h);
                assert(rest.contains(h));
                assert(prefix.contains(h) && renderable_in(m, h));
                let j = choose|j: int| 0 <= j < prefix.len() && prefix[j] == h;
                assert(prefix[j] == ws[j]);
                assert(ws[j] == h);
            }
        }
        assert forall|h: u64| ws.contains(h) && renderable_in(m, h) implies r.contains(h) by {
            let i = choose|i: int| 0 <= i < ws.len() && ws[i] == h;
            if i == ws.len() - 1 {
                assert(ws.last() == h);
                assert(r[r.len() - 1] == h);
            } else {
                assert(prefix[i] == ws[i]);
                assert(prefix.contains(h));
                assert(rest.contains(h));
                let j = choose|j: int| 0 <= j < rest.len() && rest[j] == h;
                assert(r[j] == h);
            }
        }
        assert forall|i: int| 0 <= i < r.len() implies renderable_in(m, #[trigger] r[i]) by {
            if !(renderable_in(m, ws.last()) && i == r.len() - 1) {
                assert(r[i] == rest[i]);
            }
        }
        if ws.no_duplicates() {
            assert forall|i: int, j: int| 0 <= i < j < prefix.len() implies prefix[i]
                != prefix[j] by {
                assert(prefix[i] == ws[i]);
                assert(prefix[j] == ws[j]);
            }
            assert(prefix.no_duplicates());
            if renderable_in(m, ws.last()) {
                if prefix.contains(ws.last()) {
                    let j = choose|j: int| 0 <= j < prefix.len() && prefix[j] == ws.last();
                    assert(ws[j] == ws[ws.len() - 1]);
                    assert(false);
                }
                assert(!rest.contains(ws.last()));
                assert(r == rest.push(ws.last()));
                assert forall|i: int, j: int| 0 <= i < j < r.len() implies r[i] != r[j] by {
                    if j == r.len() - 1 {
                        assert(r[i] == rest[i]);
                        assert(rest.contains(rest[i]));
                    } else {
                        assert(r[i] == rest[i]);
                        assert(r[j] == rest[j]);
                    }
                }
            }
        }
    }
}

/// Lock emptiness: the render list is empty exactly when no tracked window
/// is renderable — visible, not minimized, and still alive.  Together with
/// `lock`'s contract this says `lock(false)` skips the frame if and only if
/// there is no device or nothing to draw, while `lock(true)` never skips it
/// merely because the window set is empty.
pub proof fn lemma_render_list_empty(ws: Seq<u64>, m: Map<u64, WindowAssoc>)
    ensures
        render_list(ws, m).len() == 0 <==> (forall|h: u64|
            ws.contains(h) ==> !renderable_in(m, h)),
{
    lemma_render_list_props(ws, m);
    if render_list(ws, m).len() == 0 {
        assert forall|h: u64| ws.contains(h) implies !renderable_in(m, h) by {
            if renderable_in(m, h) {
                assert(render_list(ws, m).contains(h));
            }
        }
    } else {
        let h = render_list(ws, m)[0];
        assert(render_list(ws, m).contains(h));
    }
}

/// Device identity is never reused: as long as the identity counter has not
/// saturated, the device a `lock` would create is distinct from the device
/// the manager holds now — a recreated device is a new device.
pub proof fn lemma_recreated_device_is_fresh(m: MultiWindowContext)
    requires
        m.wf(),
        m.has_device_spec(),
        m.next_device_id_spec() < u64::MAX,
    ensures
        m.next_device_id_spec() != m.device_id_spec(),
{
}

/// Per-device cache identity is never reused: as long as the instance
/// counter has not saturated, the cache a `per_device` request would
/// construct is distinct from the cache the manager holds now — after a
/// device-loss cycle the cache is a freshly constructed one.
pub proof fn lemma_per_device_instance_is_fresh(m: MultiWindowContext)
    requires
        m.wf(),
        m.texture_cache_spec() is Some,
        m.next_instance_id_spec() < u64::MAX,
    ensures
        m.next_instance_id_spec() != m.texture_cache_spec().unwrap().instance,
{
}

/// `m` with every window's swap chain released and everything else kept.
pub open spec fn wipe_swap_chains(m: Map<u64, WindowAssoc>) -> Map<u64, WindowAssoc> {
    Map::new(
        |h: u64| m.contains_key(h),
        |h: u64|
            WindowAssoc {
                visible: m[h].visible,
                iconic: m[h].iconic,
                width: m[h].width,
                height: m[h].height,
                swap_chain: None,
            },
    )
}

/// A device must be created during `lock`: either none is held, or the
/// cooperative-level answer forces the held one to be released first.
pub open spec fn lock_needs_create(has_device: bool, coop: CoopLevel) -> bool {
    !has_device || coop_releases(has_device, coop)
}

/// The frame goes on to the per-window phase: no fatal error, no skipped
/// frame, and a device is held once creation, if needed, succeeded.
pub open spec fn lock_proceeds(has_device: bool, coop: CoopLevel, create: CreateOutcome) -> bool {
    &&& !coop_fails(has_device, coop)
    &&& !coop_skips(has_device, coop)
    &&& (lock_needs_create(has_device, coop) ==> create is Created)
}

/// The identity counter after one identity was handed out; it sticks at the
/// top of its range rather than wrap, so identities never repeat.
pub open spec fn bump_id(n: u64) -> u64 {
    if n == u64::MAX {
        n
    } else {
        (n + 1) as u64
    }
}

/// One window's entry in a render snapshot: the handle, its swap chain, and
/// the client size the swap chain was sized against.
#[derive(Debug)]
pub struct MultiWindowContextLockWindow {
    pub window: u64,
    pub swap_chain: SwapChain,
    pub client_size: (u32, u32),
}

impl MultiWindowContextLockWindow {
    /// The client size recorded when the snapshot was taken.
    pub open spec fn client_size_spec(self) -> (u32, u32) {
        self.client_size
    }

    pub fn client_size(&self) -> (r: (u32, u32))
        ensures
            r == self.client_size_spec(),
    {
        self.client_size
    }

    pub fn client_width(&self) -> (r: u32)
        ensures
            r == self.client_size_spec().0,
    {
        self.client_size.0
    }

    pub fn client_height(&self) -> (r: u32)
        ensures
            r == self.client_size_spec().1,
    {
        self.client_size.1
    }

    pub fn client_size_usize(&self) -> (r: (usize, usize))
        ensures
            r.0 == self.client_size_spec().0 as usize,
            r.1 == self.client_size_spec().1 as usize,
    {
        (self.client_size.0 as usize, self.client_size.1 as usize)
    }

    pub fn client_width_usize(&self) -> (r: usize)
        ensures
            r == self.client_size_spec().0 as usize,
    {
        self.client_size.0 as usize
    }

    pub fn client_height_usize(&self) -> (r: usize)
        ensures
            r == self.client_size_spec().1 as usize,
    {
        self.client_size.1 as usize
    }

    /// The viewport a host binds for this window: the origin and the whole
    /// client area, exactly as the snapshot recorded it.
    pub fn viewport(&self) -> (r: Viewport)
        ensures
            r.x == 0 && r.y == 0,
            r.width == self.client_size_spec().0,
            r.height == self.client_size_spec().1,
    {
        Viewport { x: 0, y: 0, width: self.client_size.0, height: self.client_size.1 }
    }
}

/// The whole-window viewport bound when a snapshot window's back buffer is
/// made the render target.
#[derive(Clone, Copy, Debug, PartialEq, Eq, Structural)]
pub struct Viewport {
    pub x: u32,
    pub y: u32,
    pub width: u32,
    pub height: u32,
}

/// An ephemeral render snapshot: the device and one entry per renderable
/// window.  It must not outlive the frame that produced it; the device it
/// names may be replaced by the next `lock`.
#[derive(Debug)]
pub struct MultiWindowContextLock {
    pub device: Device,
    pub windows: Vec<MultiWindowContextLockWindow>,
}

/// Shares one graphics device between multiple windows.
///
/// The device may be dropped and recreated in device-lost scenarios.  One
/// swap chain is kept per window and recreated when the window is resized.
#[derive(Debug)]
pub struct MultiWindowContext {
    dac: Option<DeviceAndAssoc>,
    windows: Vec<u64>,
    registry: Registry<WindowAssoc>,
    next_device_id: u64,
    next_instance_id: u64,
}

impl MultiWindowContext {
    /// Whether the manager currently holds a device.
    pub closed spec fn has_device_spec(self) -> bool {
        self.dac is Some
    }

    /// The identity of the held device; meaningful only while one is held.
    pub closed spec fn device_id_spec(self) -> u64 {
        match self.dac {
            Some(dac) => dac.device.id,
            None => 0u64,
        }
    }

    /// The tracked window handles, in registration order.
    pub closed spec fn windows_seq(self) -> Seq<u64> {
        self.windows@
    }

    /// What the manager knows of each live window.
    pub closed spec fn assoc_map(self) -> Map<u64, WindowAssoc> {
        self.registry@
    }

    /// The identity the next created device will get.
    pub closed spec fn next_device_id_spec(self) -> u64 {
        self.next_device_id
    }

    /// The identity the next constructed per-device object will get.
    pub closed spec fn next_instance_id_spec(self) -> u64 {
        self.next_instance_id
    }

    /// The per-device texture cache, when a device is held and the cache has
    /// been requested at least once since the device was created.
    pub closed spec fn texture_cache_spec(self) -> Option<
        crate::texture_cache::BasicTextureCache,
    > {
        match self.dac {
            Some(dac) => dac.statics.texture_cache,
            None => None,
        }
    }

    /// The per-device sprite resources, when a device is held and they have
    /// been requested at least once since the device was created.
    pub closed spec fn sprite_resources_spec(self) -> Option<crate::sprite::SpriteResources> {
        match self.dac {
            Some(dac) => dac.statics.sprite_resources,
            None => None,
        }
    }

    /// Structural well-formedness: tracked handles are distinct, every live
    /// window is tracked, a swap chain only exists while a device does and
    /// belongs to that device, and the held device's identity is older than
    /// the next one to be handed out.
    pub open spec fn wf(self) -> bool {
        &&& self.windows_seq().no_duplicates()
        &&& forall|h: u64| #[trigger]
            self.assoc_map().contains_key(h) ==> self.windows_seq().contains(h)
        &&& forall|h: u64| #[trigger] self.assoc_map().contains_key(h)
            ==> match self.assoc_map()[h].swap_chain {
                Some(sc) => self.has_device_spec() && sc.device_id == self.device_id_spec(),
                None => true,
            }
        &&& (self.has_device_spec() ==> (self.device_id_spec() < self.next_device_id_spec()
            || self.next_device_id_spec() == u64::MAX))
        &&& match self.texture_cache_spec() {
            Some(tc) => tc.device_id == self.device_id_spec() && (tc.instance
                < self.next_instance_id_spec() || self.next_instance_id_spec() == u64::MAX),
            None => true,
        }
        &&& match self.sprite_resources_spec() {
            Some(sr) => sr.device_id == self.device_id_spec() && (sr.instance
                < self.next_instance_id_spec() || self.next_instance_id_spec() == u64::MAX),
            None => true,
        }
    }

    /// A manager with no windows.  `create` is the platform's answer to the
    /// device creation attempt made on construction; without a device the
    /// construction fails, as the corresponding platform error.
    pub fn new(create: CreateOutcome) -> (r: Result<MultiWindowContext, Error>)
        ensures
            r is Ok <==> create is Created,
            r matches Ok(m) ==> m.wf() && m.has_device_spec() && m.device_id_spec() == 0
                && m.next_device_id_spec() == 1 && m.windows_seq() == Seq::<u64>::empty()
                && m.assoc_map() == Map::<u64, WindowAssoc>::empty()
                && m.texture_cache_spec() is None && m.sprite_resources_spec() is None
                && m.next_instance_id_spec() == 0,
            r matches Err(e) ==> match create {
                CreateOutcome::Created => false,
                CreateOutcome::Lost => e.error == crate::error::D3DERR_DEVICELOST,
                CreateOutcome::Failed(hr) => e.error == hr as u32,
            },
    {
        match create {
            CreateOutcome::Created => Ok(MultiWindowContext {
                dac: Some(DeviceAndAssoc { device: Device { id: 0 }, statics: PerDeviceStatics::empty() }),
                windows: Vec::new(),
                registry: Registry::new(),
                next_device_id: 1,
                next_instance_id: 0,
            }),
            CreateOutcome::Lost => Err(Error::new(
                "IDirect3D9::CreateDevice",
                "HRESULT",
                crate::error::D3DERR_DEVICELOST,
                "device lost during creation",
            )),
            CreateOutcome::Failed(hr) => Err(Error::new_hr("IDirect3D9::CreateDevice", hr, "")),
        }
    }

    /// Whether the manager currently holds a device.
    pub fn has_device(&self) -> (r: bool)
        ensures
            r == self.has_device_spec(),
    {
        self.dac.is_some()
    }

    /// The identity of the held device, observable for tests and hosts.
    pub fn device_id(&self) -> (r: Option<u64>)
        ensures
            match r {
                Some(id) => self.has_device_spec() && id == self.device_id_spec(),
                None => !self.has_device_spec(),
            },
    {
        match &self.dac {
            Some(dac) => Some(dac.device.id),
            None => None,
        }
    }

    /// `true` until the platform destroyed the window.
    pub fn is_alive(&self, handle: u64) -> (r: bool)
        ensures
            r == self.assoc_map().contains_key(handle),
    {
        self.registry.is_alive(handle)
    }

    /// The window is alive and the platform reports it visible; this may hold
    /// even while the window is obscured or minimized.
    pub fn is_visible(&self, handle: u64) -> (r: bool)
        ensures
            r == (self.assoc_map().contains_key(handle) && self.assoc_map()[handle].visible),
    {
        match self.registry.get(handle) {
            Some(a) => a.visible,
            None => false,
        }
    }

    /// The window is alive and minimized.
    pub fn is_iconic(&self, handle: u64) -> (r: bool)
        ensures
            r == (self.assoc_map().contains_key(handle) && self.assoc_map()[handle].iconic),
    {
        match self.registry.get(handle) {
            Some(a) => a.iconic,
            None => false,
        }
    }

    /// The window is alive and not minimized.
    pub fn should_render(&self, handle: u64) -> (r: bool)
        ensures
            r == (self.assoc_map().contains_key(handle) && !self.assoc_map()[handle].iconic),
    {
        match self.registry.get(handle) {
            Some(a) => !a.iconic,
            None => false,
        }
    }

    /// The window's recorded client size, or an error once it is destroyed.
    pub fn get_client_size(&self, handle: u64) -> (r: Result<(u32, u32), Error>)
        ensures
            r is Ok <==> self.assoc_map().contains_key(handle),
            r matches Ok(s) ==> s == (
                self.assoc_map()[handle].width,
                self.assoc_map()[handle].height,
            ),
    {
        match self.registry.get(handle) {
            Some(a) => Ok((a.width, a.height)),
            None => Err(Error::new(
                "MultiWindowContext::get_client_size",
                "",
                crate::registry::E_HANDLE,
                "window already destroyed",
            )),
        }
    }

    /// Track a freshly created window.  `handle` is the handle the platform
    /// returned; `area` is where the window was placed, whose size becomes the
    /// recorded client size; the window starts visible and not minimized,
    /// with no swap chain.  Fails when the handle is already alive.
    /// Dead handles are pruned from the tracked list first, so a reused
    /// handle does not appear twice.
    pub fn create_window_at(&mut self, title: &str, area: crate::rect::Rect, handle: u64) -> (r:
        Result<(), Error>)
        requires
            old(self).wf(),
        ensures
            final(self).wf(),
            r is Ok <==> !old(self).assoc_map().contains_key(handle),
            r is Ok ==> {
                &&& final(self).assoc_map() == old(self).assoc_map().insert(
                    handle,
                    WindowAssoc {
                        visible: true,
                        iconic: false,
                        width: crate::rect::spec_width(area),
                        height: crate::rect::spec_height(area),
                        swap_chain: None,
                    },
                )
                &&& final(self).windows_seq() == alive_list(
                    old(self).windows_seq(),
                    old(self).assoc_map(),
                ).push(handle)
            },
            r is Err ==> *final(self) == *old(self),
            final(self).has_device_spec() == old(self).has_device_spec(),
            final(self).device_id_spec() == old(self).device_id_spec(),
            final(self).next_device_id_spec() == old(self).next_device_id_spec(),
            final(self).texture_cache_spec() == old(self).texture_cache_spec(),
            final(self).sprite_resources_spec() == old(self).sprite_resources_spec(),
            final(self).next_instance_id_spec() == old(self).next_instance_id_spec(),
    {
        let _ = title;
        if self.registry.is_alive(handle) {
            Err(Error::new(
                "MultiWindowContext::create_window_at",
                "",
                crate::registry::E_HANDLE,
                "handle already registered",
            ))
        } else {
            self.cull_destroyed_windows();
            let assoc = WindowAssoc {
                visible: true,
                iconic: false,
                width: area.width(),
                height: area.height(),
                swap_chain: None,
            };
            let reg = self.registry.register(handle, assoc);
            proof {
                assert(reg is Ok);
                lemma_alive_list_props(old(self).windows_seq(), old(self).assoc_map());
            }
            self.windows.push(handle);
            proof {
                let ws = final(self).windows_seq();
                let prev = alive_list(old(self).windows_seq(), old(self).assoc_map());
                assert(ws == prev.push(handle));
                assert(!prev.contains(handle));
                assert forall|i: int, j: int| 0 <= i < j < ws.len() implies ws[i] != ws[j] by {
                    if j == ws.len() - 1 {
                        assert(prev.contains(prev[i]));
                    } else {
                        assert(ws[i] == prev[i]);
                        assert(ws[j] == prev[j]);
                    }
                }
                assert forall|h: u64| #[trigger] final(self).assoc_map().contains_key(h)
                    implies final(self).windows_seq().contains(h) by {
                    if h == handle {
                        assert(ws[ws.len() - 1] == handle);
                    } else {
                        assert(prev.contains(h));
                        let k = choose|k: int| 0 <= k < prev.len() && prev[k] == h;
                        assert(ws[k] == h);
                    }
                }
            }
            Ok(())
        }
    }

    /// Track a freshly created fullscreen window: `sel` resolves against the
    /// monitors the platform enumerated for this call, and the window's
    /// client area covers the chosen monitor.  Fails when no monitor is
    /// primary, or when the handle is already alive.
    pub fn create_fullscreen_window(
        &mut self,
        monitors: &Vec<crate::monitor::MonitorArea>,
        sel: crate::monitor::Selector,
        title: &str,
        handle: u64,
    ) -> (r: Result<(), Error>)
        requires
            old(self).wf(),
        ensures
            final(self).wf(),
            final(self).has_device_spec() == old(self).has_device_spec(),
            final(self).device_id_spec() == old(self).device_id_spec(),
            final(self).next_device_id_spec() == old(self).next_device_id_spec(),
            final(self).texture_cache_spec() == old(self).texture_cache_spec(),
            final(self).sprite_resources_spec() == old(self).sprite_resources_spec(),
            match crate::monitor::selected_monitor(monitors@, sel) {
                Some(m) => {
                    &&& (r is Ok <==> !old(self).assoc_map().contains_key(handle))
                    &&& r is Ok ==> final(self).assoc_map() == old(self).assoc_map().insert(
                        handle,
                        WindowAssoc {
                            visible: true,
                            iconic: false,
                            width: crate::rect::spec_width(m.rect),
                            height: crate::rect::spec_height(m.rect),
                            swap_chain: None,
                        },
                    ) && final(self).windows_seq() == alive_list(
                        old(self).windows_seq(),
                        old(self).assoc_map(),
                    ).push(handle)
                    &&& r is Err ==> *final(self) == *old(self)
                },
                None => r is Err && *final(self) == *old(self),
            },
    {
        match crate::monitor::select_monitor(monitors, sel) {
            Some(m) => self.create_window_at(title, m.rect, handle),
            None => Err(Error::new(
                "MultiWindowContext::create_fullscreen_window",
                "",
                crate::registry::E_FAIL,
                "no primary monitor",
            )),
        }
    }

    /// Record that the platform destroyed `handle`: the window stops being
    /// alive, its association is dropped, and the next `lock` prunes it from
    /// the tracked list.  Fails when the handle was not alive: destroying a
    /// window twice is a lifecycle bug in the host.
    pub fn destroy_window(&mut self, handle: u64) -> (r: Result<(), Error>)
        requires
            old(self).wf(),
        ensures
            final(self).wf(),
            r is Ok <==> old(self).assoc_map().contains_key(handle),
            r is Ok ==> final(self).assoc_map() == old(self).assoc_map().remove(handle),
            r is Err ==> final(self).assoc_map() == old(self).assoc_map(),
            final(self).windows_seq() == old(self).windows_seq(),
            final(self).has_device_spec() == old(self).has_device_spec(),
            final(self).device_id_spec() == old(self).device_id_spec(),
            final(self).next_device_id_spec() == old(self).next_device_id_spec(),
            final(self).texture_cache_spec() == old(self).texture_cache_spec(),
            final(self).sprite_resources_spec() == old(self).sprite_resources_spec(),
            final(self).next_instance_id_spec() == old(self).next_instance_id_spec(),
    {
        self.registry.unregister(handle)
    }

    /// Record the window's current visibility, as the platform reports it.
    /// Fails when the handle is not alive.
    pub fn set_visible(&mut self, handle: u64, visible: bool) -> (r: Result<(), Error>)
        requires
            old(self).wf(),
        ensures
            final(self).wf(),
            r is Ok <==> old(self).assoc_map().contains_key(handle),
            r is Ok ==> final(self).assoc_map() == old(self).assoc_map().insert(
                handle,
                WindowAssoc { visible, ..old(self).assoc_map()[handle] },
            ),
            r is Err ==> final(self).assoc_map() == old(self).assoc_map(),
            final(self).windows_seq() == old(self).windows_seq(),
            final(self).has_device_spec() == old(self).has_device_spec(),
            final(self).device_id_spec() == old(self).device_id_spec(),
            final(self).next_device_id_spec() == old(self).next_device_id_spec(),
            final(self).texture_cache_spec() == old(self).texture_cache_spec(),
            final(self).sprite_resources_spec() == old(self).sprite_resources_spec(),
            final(self).next_instance_id_spec() == old(self).next_instance_id_spec(),
    {
        match self.registry.get(handle) {
            Some(a) => {
                let na = WindowAssoc { visible, ..*a };
                self.registry.put(handle, na);
                Ok(())
            },
            None => Err(Error::new(
                "MultiWindowContext::set_visible",
                "",
                crate::registry::E_HANDLE,
                "no such handle",
            )),
        }
    }

    /// Record whether the window is minimized, as the platform reports it.
    /// Fails when the handle is not alive.
    pub fn set_iconic(&mut self, handle: u64, iconic: bool) -> (r: Result<(), Error>)
        requires
            old(self).wf(),
        ensures
            final(self).wf(),
            r is Ok <==> old(self).assoc_map().contains_key(handle),
            r is Ok ==> final(self).assoc_map() == old(self).assoc_map().insert(
                handle,
                WindowAssoc { iconic, ..old(self).assoc_map()[handle] },
            ),
            r is Err ==> final(self).assoc_map() == old(self).assoc_map(),
            final(self).windows_seq() == old(self).windows_seq(),
            final(self).has_device_spec() == old(self).has_device_spec(),
            final(self).device_id_spec() == old(self).device_id_spec(),
            final(self).next_device_id_spec() == old(self).next_device_id_spec(),
            final(self).texture_cache_spec() == old(self).texture_cache_spec(),
            final(self).sprite_resources_spec() == old(self).sprite_resources_spec(),
            final(self).next_instance_id_spec() == old(self).next_instance_id_spec(),
    {
        match self.registry.get(handle) {
            Some(a) => {
                let na = WindowAssoc { iconic, ..*a };
                self.registry.put(handle, na);
                Ok(())
            },
            None => Err(Error::new(
                "MultiWindowContext::set_iconic",
                "",
                crate::registry::E_HANDLE,
                "no such handle",
            )),
        }
    }

    /// Record the window's current client size, as the platform reports it.
    /// The swap chain is left alone: the next `lock` notices the mismatch and
    /// recreates it.  Fails when the handle is not alive.
    pub fn set_client_size(&mut self, handle: u64, width: u32, height: u32) -> (r: Result<
        (),
        Error,
    >)
        requires
            old(self).wf(),
        ensures
            final(self).wf(),
            r is Ok <==> old(self).assoc_map().contains_key(handle),
            r is Ok ==> final(self).assoc_map() == old(self).assoc_map().insert(
                handle,
                WindowAssoc { width, height, ..old(self).assoc_map()[handle] },
            ),
            r is Err ==> final(self).assoc_map() == old(self).assoc_map(),
            final(self).windows_seq() == old(self).windows_seq(),
            final(self).has_device_spec() == old(self).has_device_spec(),
            final(self).device_id_spec() == old(self).device_id_spec(),
            final(self).next_device_id_spec() == old(self).next_device_id_spec(),
            final(self).texture_cache_spec() == old(self).texture_cache_spec(),
            final(self).sprite_resources_spec() == old(self).sprite_resources_spec(),
            final(self).next_instance_id_spec() == old(self).next_instance_id_spec(),
    {
        match self.registry.get(handle) {
            Some(a) => {
                let na = WindowAssoc { width, height, ..*a };
                self.registry.put(handle, na);
                Ok(())
            },
            None => Err(Error::new(
                "MultiWindowContext::set_client_size",
                "",
                crate::registry::E_HANDLE,
                "no such handle",
            )),
        }
    }

    /// Drop every tracked handle whose window the platform has destroyed,
    /// keeping the rest in order.
    pub fn cull_destroyed_windows(&mut self)
        requires
            old(self).wf(),
        ensures
            final(self).wf(),
            final(self).windows_seq() == alive_list(old(self).windows_seq(), old(self).assoc_map()),
            final(self).assoc_map() == old(self).assoc_map(),
            final(self).has_device_spec() == old(self).has_device_spec(),
            final(self).device_id_spec() == old(self).device_id_spec(),
            final(self).next_device_id_spec() == old(self).next_device_id_spec(),
            final(self).texture_cache_spec() == old(self).texture_cache_spec(),
            final(self).sprite_resources_spec() == old(self).sprite_resources_spec(),
            final(self).next_instance_id_spec() == old(self).next_instance_id_spec(),
    {
        let ghost ws0 = self.windows@;
        let ghost m0 = self.registry@;
        let mut kept: Vec<u64> = Vec::new();
        let n = self.windows.len();
        let mut i: usize = 0;
        while i < n
            invariant
                n == self.windows.len(),
                i <= n,
                self.windows@ == ws0,
                self.registry@ == m0,
                kept@ == alive_list(ws0.take(i as int), m0),
            decreases n - i,
        {
            let h = self.windows[i];
            proof {
                lemma_alive_list_push(ws0.take(i as int), h, m0);
                assert(ws0.take(i as int + 1) =~= ws0.take(i as int).push(h));
            }
            if self.registry.is_alive(h) {
                kept.push(h);
            }
            i = i + 1;
        }
        proof {
            assert(ws0.take(n as int) =~= ws0);
            lemma_alive_list_props(ws0, m0);
        }
        self.windows = kept;
    }

    /// Evaluate the device-lost state machine on the platform's
    /// cooperative-level answer, before anything else this frame.
    ///
    /// Returns `Ok(true)` when rendering may go on, `Ok(false)` when the
    /// device is lost and cannot be restored yet (skip the frame, keep the
    /// device), and `Err` on an unrecoverable driver error.  When the answer
    /// says the device can be restored, or is an error, the device and every
    /// window's swap chain are released first.
    pub fn release_lost_devices(&mut self, coop: CoopLevel) -> (r: Result<bool, Error>)
        requires
            old(self).wf(),
        ensures
            final(self).wf(),
            final(self).windows_seq() == old(self).windows_seq(),
            final(self).next_device_id_spec() == old(self).next_device_id_spec(),
            r is Ok <==> !coop_fails(old(self).has_device_spec(), coop),
            r == Ok::<bool, Error>(false) <==> coop_skips(old(self).has_device_spec(), coop),
            final(self).next_instance_id_spec() == old(self).next_instance_id_spec(),
            coop_releases(old(self).has_device_spec(), coop) ==> {
                &&& !final(self).has_device_spec()
                &&& final(self).assoc_map() =~= wipe_swap_chains(old(self).assoc_map())
                &&& final(self).texture_cache_spec() is None
                &&& final(self).sprite_resources_spec() is None
            },
            !coop_releases(old(self).has_device_spec(), coop) ==> {
                &&& final(self).assoc_map() == old(self).assoc_map()
                &&& final(self).has_device_spec() == old(self).has_device_spec()
                &&& final(self).device_id_spec() == old(self).device_id_spec()
                &&& final(self).texture_cache_spec() == old(self).texture_cache_spec()
                &&& final(self).sprite_resources_spec() == old(self).sprite_resources_spec()
            },
            r matches Err(e) ==> e.error == match coop {
                CoopLevel::DriverInternalError => crate::error::D3DERR_DRIVERINTERNALERROR,
                CoopLevel::OtherError(hr) => hr as u32,
                _ => arbitrary(),
            },
    {
        let has = self.dac.is_some();
        let (release, result): (bool, Result<bool, Error>) = if has == false {
            (false, Ok(true))
        } else {
            match coop {
                CoopLevel::DeviceOk => (false, Ok(true)),
                CoopLevel::Lost => (false, Ok(false)),
                CoopLevel::NotReset => (true, Ok(true)),
                CoopLevel::DriverInternalError => (
                    true,
                    Err(Error::new(
                        "IDirect3DDevice9::TestCooperativeLevel",
                        "HRESULT",
                        crate::error::D3DERR_DRIVERINTERNALERROR,
                        "unrecoverable driver error",
                    )),
                ),
                CoopLevel::OtherSuccess(_) => (false, Ok(true)),
                CoopLevel::OtherError(hr) => (
                    true,
                    Err(Error::new_hr("IDirect3DDevice9::TestCooperativeLevel", hr, "")),
                ),
            }
        };
        if release {
            self.dac = None;
            let ghost m0 = self.registry@;
            let n = self.windows.len();
            let mut i: usize = 0;
            while i < n
                invariant
                    n == self.windows.len(),
                    i <= n,
                    self.windows@ == old(self).windows_seq(),
                    self.dac is None,
                    self.next_device_id == old(self).next_device_id_spec(),
                    self.next_instance_id == old(self).next_instance_id_spec(),
                    m0 == old(self).assoc_map(),
                    self.registry@.dom() =~= m0.dom(),
                    forall|h: u64| #[trigger] self.registry@.contains_key(h) ==> {
                        &&& self.registry@[h].visible == m0[h].visible
                        &&& self.registry@[h].iconic == m0[h].iconic
                        &&& self.registry@[h].width == m0[h].width
                        &&& self.registry@[h].height == m0[h].height
                        &&& (self.registry@[h].swap_chain == m0[h].swap_chain
                            || self.registry@[h].swap_chain is None)
                    },
                    forall|j: int|
                        0 <= j < i && m0.contains_key(#[trigger] self.windows@[j])
                            ==> self.registry@[self.windows@[j]].swap_chain is None,
                decreases n - i,
            {
                let h = self.windows[i];
                match self.registry.get(h) {
                    Some(a) => {
                        let na = WindowAssoc { swap_chain: None, ..*a };
                        self.registry.put(h, na);
                    },
                    None => {},
                }
                i = i + 1;
            }
            proof {
                assert forall|h: u64| #[trigger] self.registry@.contains_key(h)
                    implies self.registry@[h].swap_chain is None by {
                    assert(old(self).assoc_map().contains_key(h));
                    assert(old(self).windows_seq().contains(h));
                    let j = choose|j: int|
                        0 <= j < old(self).windows_seq().len() && old(self).windows_seq()[j] == h;
                    assert(m0.contains_key(self.windows@[j]));
                }
                assert(self.registry@ =~= wipe_swap_chains(old(self).assoc_map()));
            }
        }
        result
    }

    /// The core per-frame operation.  Prunes dead windows, runs the
    /// device-lost state machine on `coop`, creates a device if needed with
    /// outcome `create`, then reconciles every renderable window's swap chain
    /// with its current client size and hands back the renderable snapshot,
    /// in registration order.
    ///
    /// `Ok(None)` means the frame is skipped: the device is lost (and kept,
    /// or not yet recreatable), or no window is renderable and `allow_empty`
    /// is false.  `Err` reports an unrecoverable driver or creation failure.
    pub fn lock(&mut self, coop: CoopLevel, create: CreateOutcome, allow_empty: bool) -> (r:
        Result<Option<MultiWindowContextLock>, Error>)
        requires
            old(self).wf(),
        ensures
            final(self).wf(),
            final(self).windows_seq() == alive_list(
                old(self).windows_seq(),
                old(self).assoc_map(),
            ),
            final(self).assoc_map().dom() =~= old(self).assoc_map().dom(),
            forall|h: u64| #[trigger] old(self).assoc_map().contains_key(h) ==> {
                &&& final(self).assoc_map()[h].visible == old(self).assoc_map()[h].visible
                &&& final(self).assoc_map()[h].iconic == old(self).assoc_map()[h].iconic
                &&& final(self).assoc_map()[h].width == old(self).assoc_map()[h].width
                &&& final(self).assoc_map()[h].height == old(self).assoc_map()[h].height
            },
            r is Err <==> coop_fails(old(self).has_device_spec(), coop) || (lock_needs_create(
                old(self).has_device_spec(),
                coop,
            ) && !coop_skips(old(self).has_device_spec(), coop) && create matches
                CreateOutcome::Failed(_)),
            r matches Ok(Some(_)) <==> lock_proceeds(old(self).has_device_spec(), coop, create)
                && (render_list(old(self).windows_seq(), old(self).assoc_map()).len() > 0
                || allow_empty),
            final(self).next_instance_id_spec() == old(self).next_instance_id_spec(),
            coop_skips(old(self).has_device_spec(), coop) ==> {
                &&& r matches Ok(l) && l is None
                &&& final(self).has_device_spec()
                &&& final(self).device_id_spec() == old(self).device_id_spec()
                &&& final(self).assoc_map() == old(self).assoc_map()
                &&& final(self).next_device_id_spec() == old(self).next_device_id_spec()
                &&& final(self).texture_cache_spec() == old(self).texture_cache_spec()
                &&& final(self).sprite_resources_spec() == old(self).sprite_resources_spec()
            },
            !lock_proceeds(old(self).has_device_spec(), coop, create) && !coop_skips(
                old(self).has_device_spec(),
                coop,
            ) ==> {
                &&& !final(self).has_device_spec()
                &&& final(self).assoc_map() =~= wipe_swap_chains(old(self).assoc_map())
                &&& final(self).next_device_id_spec() == old(self).next_device_id_spec()
                &&& final(self).texture_cache_spec() is None
                &&& final(self).sprite_resources_spec() is None
            },
            lock_proceeds(old(self).has_device_spec(), coop, create) ==> {
                &&& final(self).has_device_spec()
                &&& final(self).device_id_spec() == if lock_needs_create(
                    old(self).has_device_spec(),
                    coop,
                ) {
                    old(self).next_device_id_spec()
                } else {
                    old(self).device_id_spec()
                }
                &&& final(self).next_device_id_spec() == if lock_needs_create(
                    old(self).has_device_spec(),
                    coop,
                ) {
                    bump_id(old(self).next_device_id_spec())
                } else {
                    old(self).next_device_id_spec()
                }
                &&& final(self).texture_cache_spec() == if lock_needs_create(
                    old(self).has_device_spec(),
                    coop,
                ) {
                    None
                } else {
                    old(self).texture_cache_spec()
                }
                &&& final(self).sprite_resources_spec() == if lock_needs_create(
                    old(self).has_device_spec(),
                    coop,
                ) {
                    None
                } else {
                    old(self).sprite_resources_spec()
                }
                &&& forall|h: u64| renderable_in(old(self).assoc_map(), h)
                    ==> final(self).assoc_map()[h].swap_chain == Some(
                    SwapChain {
                        device_id: final(self).device_id_spec(),
                        width: old(self).assoc_map()[h].width,
                        height: old(self).assoc_map()[h].height,
                    },
                )
                &&& forall|h: u64| #[trigger] old(self).assoc_map().contains_key(h)
                    && !renderable_in(old(self).assoc_map(), h)
                    ==> final(self).assoc_map()[h].swap_chain == if lock_needs_create(
                    old(self).has_device_spec(),
                    coop,
                ) {
                    None
                } else {
                    old(self).assoc_map()[h].swap_chain
                }
            },
            r matches Ok(Some(l)) ==> {
                let rl = render_list(old(self).windows_seq(), old(self).assoc_map());
                &&& l.device.id == final(self).device_id_spec()
                &&& l.windows@.len() == rl.len()
                &&& forall|k: int| 0 <= k < rl.len() ==> {
                    &&& (#[trigger] l.windows@[k]).window == rl[k]
                    &&& l.windows@[k].client_size_spec() == (
                        old(self).assoc_map()[rl[k]].width,
                        old(self).assoc_map()[rl[k]].height,
                    )
                    &&& l.windows@[k].swap_chain == SwapChain {
                        device_id: final(self).device_id_spec(),
                        width: old(self).assoc_map()[rl[k]].width,
                        height: old(self).assoc_map()[rl[k]].height,
                    }
                }
            },
    {
        proof {
            lemma_alive_list_props(old(self).windows_seq(), old(self).assoc_map());
            lemma_render_list_props(old(self).windows_seq(), old(self).assoc_map());
        }
        self.cull_destroyed_windows();
        match self.release_lost_devices(coop) {
            Err(e) => {
                return Err(e);
            },
            Ok(false) => {
                return Ok(None);
            },
            Ok(true) => {},
        }
        let ghost m3 = self.assoc_map();
        proof {
            lemma_render_list_congruent(self.windows_seq(), m3, old(self).assoc_map());
            lemma_render_list_of_alive(old(self).windows_seq(), old(self).assoc_map());
        }
        match self.try_create_device(create) {
            Err(e) => {
                return Err(e);
            },
            Ok(false) => {
                return Ok(None);
            },
            Ok(true) => {},
        }
        let did: u64 = match &self.dac {
            Some(dac) => dac.device.id,
            None => vstd::pervasive::unreached(),
        };
        let ghost ws3 = self.windows_seq();
        let ghost nd3 = self.next_device_id_spec();
        let ghost ni3 = self.next_instance_id_spec();
        let ghost tc3 = self.texture_cache_spec();
        let ghost sr3 = self.sprite_resources_spec();
        proof {
            lemma_render_list_props(ws3, m3);
            assert forall|j: int| 0 <= j < ws3.len() implies m3.contains_key(
                #[trigger] ws3[j],
            ) by {
                assert(ws3.contains(ws3[j]));
            }
        }
        let mut lws: Vec<MultiWindowContextLockWindow> = Vec::new();
        let n = self.windows.len();
        let mut i: usize = 0;
        while i < n
            invariant
                self.wf(),
                n == self.windows.len(),
                i <= n,
                self.windows_seq() == ws3,
                self.has_device_spec(),
                self.device_id_spec() == did,
                self.next_device_id_spec() == nd3,
                self.next_instance_id_spec() == ni3,
                self.texture_cache_spec() == tc3,
                self.sprite_resources_spec() == sr3,
                self.assoc_map().dom() =~= m3.dom(),
                ws3.no_duplicates(),
                forall|j: int| 0 <= j < ws3.len() ==> m3.contains_key(#[trigger] ws3[j]),
                forall|h: u64| #[trigger] m3.contains_key(h) ==> {
                    &&& self.assoc_map()[h].visible == m3[h].visible
                    &&& self.assoc_map()[h].iconic == m3[h].iconic
                    &&& self.assoc_map()[h].width == m3[h].width
                    &&& self.assoc_map()[h].height == m3[h].height
                },
                forall|j: int| 0 <= j < i ==> {
                    let h = #[trigger] ws3[j];
                    if renderable_in(m3, h) {
                        self.assoc_map()[h].swap_chain == Some(
                            SwapChain { device_id: did, width: m3[h].width, height: m3[h].height },
                        )
                    } else {
                        self.assoc_map()[h].swap_chain == m3[h].swap_chain
                    }
                },
                forall|j: int| i <= j < ws3.len()
                    ==> self.assoc_map()[#[trigger] ws3[j]].swap_chain == m3[ws3[j]].swap_chain,
                lws@.len() == render_list(ws3.take(i as int), m3).len(),
                forall|k: int| 0 <= k < lws@.len() ==> {
                    let rl = render_list(ws3.take(i as int), m3);
                    &&& (#[trigger] lws@[k]).window == rl[k]
                    &&& lws@[k].client_size_spec() == (m3[rl[k]].width, m3[rl[k]].height)
                    &&& lws@[k].swap_chain == SwapChain {
                        device_id: did,
                        width: m3[rl[k]].width,
                        height: m3[rl[k]].height,
                    }
                },
            decreases n - i,
        {
            let h = self.windows[i];
            proof {
                lemma_render_list_push(ws3.take(i as int), h, m3);
                assert(ws3.take(i as int + 1) =~= ws3.take(i as int).push(h));
            }
            let a: WindowAssoc = match self.registry.get(h) {
                Some(a) => *a,
                None => vstd::pervasive::unreached(),
            };
            if a.visible && !a.iconic {
                let sc: SwapChain = match a.swap_chain {
                    Some(sc) if sc.width == a.width && sc.height == a.height => sc,
                    _ => {
                        // The platform forbids holding two swap chains for one
                        // window at once, so the stale one is released before
                        // the replacement is created.
                        let cleared = WindowAssoc { swap_chain: None, ..a };
                        self.registry.put(h, cleared);
                        let nsc = SwapChain { device_id: did, width: a.width, height: a.height };
                        let renewed = WindowAssoc { swap_chain: Some(nsc), ..cleared };
                        self.registry.put(h, renewed);
                        nsc
                    },
                };
                lws.push(MultiWindowContextLockWindow {
                    window: h,
                    swap_chain: sc,
                    client_size: (a.width, a.height),
                });
            }
            i = i + 1;
        }
        proof {
            assert(ws3.take(n as int) =~= ws3);
        }
        if lws.len() == 0 && !allow_empty {
            return Ok(None);
        }
        Ok(Some(MultiWindowContextLock { device: Device { id: did }, windows: lws }))
    }

    /// Lock with nothing allowed to be empty, and hand back the per-window
    /// render arguments for every window in the snapshot, in order: the host
    /// invokes each window's render callback with its entry exactly once.
    /// The frame is silently skipped when the device is lost or no window is
    /// renderable.
    pub fn render_visible_windows(&mut self, coop: CoopLevel, create: CreateOutcome) -> (r: Result<
        Vec<MultiWindowContextLockWindow>,
        Error,
    >)
        requires
            old(self).wf(),
        ensures
            final(self).wf(),
            r is Err <==> coop_fails(old(self).has_device_spec(), coop) || (lock_needs_create(
                old(self).has_device_spec(),
                coop,
            ) && !coop_skips(old(self).has_device_spec(), coop) && create matches
                CreateOutcome::Failed(_)),
            r matches Ok(v) ==> {
                let rl = render_list(old(self).windows_seq(), old(self).assoc_map());
                if lock_proceeds(old(self).has_device_spec(), coop, create) && rl.len() > 0 {
                    &&& v@.len() == rl.len()
                    &&& forall|k: int| 0 <= k < rl.len() ==> {
                        &&& (#[trigger] v@[k]).window == rl[k]
                        &&& v@[k].client_size_spec() == (
                            old(self).assoc_map()[rl[k]].width,
                            old(self).assoc_map()[rl[k]].height,
                        )
                    }
                } else {
                    v@.len() == 0
                }
            },
    {
        match self.lock(coop, create, false) {
            Err(e) => Err(e),
            Ok(None) => Ok(Vec::new()),
            Ok(Some(l)) => Ok(l.windows),
        }
    }

    /// The identity of the per-device texture cache, constructing the cache
    /// on first use for the current device; `None` while no device is held.
    /// While the device stays the same the same cache is returned; a
    /// recreated device starts with a freshly constructed one.
    pub fn per_device_texture_cache(&mut self) -> (r: Option<u64>)
        requires
            old(self).wf(),
        ensures
            final(self).wf(),
            r is Some <==> old(self).has_device_spec(),
            final(self).windows_seq() == old(self).windows_seq(),
            final(self).assoc_map() == old(self).assoc_map(),
            final(self).has_device_spec() == old(self).has_device_spec(),
            final(self).device_id_spec() == old(self).device_id_spec(),
            final(self).next_device_id_spec() == old(self).next_device_id_spec(),
            final(self).sprite_resources_spec() == old(self).sprite_resources_spec(),
            match old(self).texture_cache_spec() {
                Some(tc) => *final(self) == *old(self) && r == Some(tc.instance),
                None => if old(self).has_device_spec() {
                    &&& r == Some(old(self).next_instance_id_spec())
                    &&& final(self).next_instance_id_spec() == bump_id(
                        old(self).next_instance_id_spec(),
                    )
                    &&& match final(self).texture_cache_spec() {
                        Some(tc) => {
                            &&& tc.device_id == old(self).device_id_spec()
                            &&& tc.instance == old(self).next_instance_id_spec()
                            &&& tc.static_files@ == Map::<
                                u128,
                                crate::texture_cache::Entry2D,
                            >::empty()
                            &&& tc.dynamic_files@ == Map::<
                                u64,
                                crate::texture_cache::Entry2D,
                            >::empty()
                        },
                        None => false,
                    }
                } else {
                    *final(self) == *old(self)
                },
            },
    {
        if self.dac.is_none() {
            return None;
        }
        let existing: Option<u64> = match &self.dac {
            Some(dac) => match &dac.statics.texture_cache {
                Some(tc) => Some(tc.instance),
                None => None,
            },
            None => None,
        };
        match existing {
            Some(instance) => Some(instance),
            None => {
                let instance = self.next_instance_id;
                let device_id = match &self.dac {
                    Some(dac) => dac.device.id,
                    None => vstd::pervasive::unreached(),
                };
                let tc = crate::texture_cache::BasicTextureCache::new(device_id, instance);
                match &mut self.dac {
                    Some(dac) => {
                        dac.statics.texture_cache = Some(tc);
                    },
                    None => {},
                }
                if self.next_instance_id < u64::MAX {
                    self.next_instance_id = self.next_instance_id + 1;
                }
                Some(instance)
            },
        }
    }

    /// The identity of the per-device sprite resources, constructing them on
    /// first use for the current device; `None` while no device is held.
    pub fn per_device_sprite_resources(&mut self) -> (r: Option<u64>)
        requires
            old(self).wf(),
        ensures
            final(self).wf(),
            r is Some <==> old(self).has_device_spec(),
            final(self).windows_seq() == old(self).windows_seq(),
            final(self).assoc_map() == old(self).assoc_map(),
            final(self).has_device_spec() == old(self).has_device_spec(),
            final(self).device_id_spec() == old(self).device_id_spec(),
            final(self).next_device_id_spec() == old(self).next_device_id_spec(),
            final(self).texture_cache_spec() == old(self).texture_cache_spec(),
            match old(self).sprite_resources_spec() {
                Some(sr) => *final(self) == *old(self) && r == Some(sr.instance),
                None => if old(self).has_device_spec() {
                    &&& r == Some(old(self).next_instance_id_spec())
                    &&& final(self).next_instance_id_spec() == bump_id(
                        old(self).next_instance_id_spec(),
                    )
                    &&& match final(self).sprite_resources_spec() {
                        Some(sr) => {
                            &&& sr.device_id == old(self).device_id_spec()
                            &&& sr.instance == old(self).next_instance_id_spec()
                            &&& sr.quads_ib@.len() == 6 * 16384
                        },
                        None => false,
                    }
                } else {
                    *final(self) == *old(self)
                },
            },
    {
        if self.dac.is_none() {
            return None;
        }
        let existing: Option<u64> = match &self.dac {
            Some(dac) => match &dac.statics.sprite_resources {
                Some(sr) => Some(sr.instance),
                None => None,
            },
            None => None,
        };
        match existing {
            Some(instance) => Some(instance),
            None => {
                let instance = self.next_instance_id;
                let device_id = match &self.dac {
                    Some(dac) => dac.device.id,
                    None => vstd::pervasive::unreached(),
                };
                let sr = crate::sprite::SpriteResources::new(device_id, instance);
                match &mut self.dac {
                    Some(dac) => {
                        dac.statics.sprite_resources = Some(sr);
                    },
                    None => {},
                }
                if self.next_instance_id < u64::MAX {
                    self.next_instance_id = self.next_instance_id + 1;
                }
                Some(instance)
            },
        }
    }

    /// Read access to the per-device texture cache, when one exists.
    pub fn texture_cache(&self) -> (r: Option<&crate::texture_cache::BasicTextureCache>)
        ensures
            match r {
                Some(tc) => self.texture_cache_spec() == Some(*tc),
                None => self.texture_cache_spec() is None,
            },
    {
        match &self.dac {
            Some(dac) => dac.statics.texture_cache.as_ref(),
            None => None,
        }
    }

    /// Read access to the per-device sprite resources, when they exist.
    pub fn sprite_resources(&self) -> (r: Option<&crate::sprite::SpriteResources>)
        ensures
            match r {
                Some(sr) => self.sprite_resources_spec() == Some(*sr),
                None => self.sprite_resources_spec() is None,
            },
    {
        match &self.dac {
            Some(dac) => dac.statics.sprite_resources.as_ref(),
            None => None,
        }
    }

    /// The texture for the embedded file `file`, decoded once per device
    /// through the per-device texture cache; `None` while no device is held.
    pub fn get_texture_2d_static_file(&mut self, file: &crate::io::StaticFile) -> (r: Option<
        crate::texture_cache::ImageData,
    >)
        requires
            old(self).wf(),
        ensures
            final(self).wf(),
            r is Some <==> old(self).has_device_spec(),
            final(self).windows_seq() == old(self).windows_seq(),
            final(self).assoc_map() == old(self).assoc_map(),
            final(self).has_device_spec() == old(self).has_device_spec(),
            final(self).device_id_spec() == old(self).device_id_spec(),
            final(self).next_device_id_spec() == old(self).next_device_id_spec(),
            r matches Some(img) ==> match final(self).texture_cache_spec() {
                Some(tc) => exists|key: u128|
                    #[trigger] tc.static_files@.contains_key(key)
                        && crate::texture_cache::same_image(img, tc.static_files@[key].texture),
                None => false,
            },
    {
        if self.per_device_texture_cache().is_none() {
            return None;
        }
        let img = match &mut self.dac {
            Some(dac) => match &mut dac.statics.texture_cache {
                Some(tc) => tc.get_texture_2d_static_file(file),
                None => vstd::pervasive::unreached(),
            },
            None => vstd::pervasive::unreached(),
        };
        proof {
            match self.texture_cache_spec() {
                Some(tc2) => {
                    let k = choose|key: u128|
                        #[trigger] tc2.static_files@.contains_key(key)
                            && crate::texture_cache::same_image(
                            img,
                            tc2.static_files@[key].texture,
                        );
                    assert(tc2.static_files@.contains_key(k));
                },
                None => {
                    assert(false);
                },
            }
        }
        Some(img)
    }

    /// Create a device when none is held.  `create` is the platform's answer
    /// to that attempt; it is ignored while a device is already held.
    ///
    /// Returns `Ok(true)` when a device is held afterwards, `Ok(false)` when
    /// the device is lost and cannot be created yet (tolerated silently), and
    /// `Err` when creation failed outright.
    pub fn try_create_device(&mut self, create: CreateOutcome) -> (r: Result<bool, Error>)
        requires
            old(self).wf(),
        ensures
            final(self).wf(),
            final(self).windows_seq() == old(self).windows_seq(),
            final(self).assoc_map() == old(self).assoc_map(),
            old(self).has_device_spec() ==> *final(self) == *old(self) && r == Ok::<bool, Error>(
                true,
            ),
            final(self).next_instance_id_spec() == old(self).next_instance_id_spec(),
            !old(self).has_device_spec() ==> match create {
                CreateOutcome::Created => {
                    &&& r == Ok::<bool, Error>(true)
                    &&& final(self).has_device_spec()
                    &&& final(self).texture_cache_spec() is None
                    &&& final(self).sprite_resources_spec() is None
                    &&& final(self).device_id_spec() == old(self).next_device_id_spec()
                    &&& final(self).next_device_id_spec() == if old(self).next_device_id_spec()
                        == u64::MAX {
                        u64::MAX
                    } else {
                        (old(self).next_device_id_spec() + 1) as u64
                    }
                },
                CreateOutcome::Lost => r == Ok::<bool, Error>(false) && *final(self) == *old(self),
                CreateOutcome::Failed(hr) => r matches Err(e) && e.error == hr as u32
                    && *final(self) == *old(self),
            },
            r == Ok::<bool, Error>(true) ==> final(self).has_device_spec(),
    {
        if self.dac.is_some() {
            return Ok(true);
        }
        match create {
            CreateOutcome::Created => {
                let id = self.next_device_id;
                self.dac = Some(DeviceAndAssoc {
                    device: Device { id },
                    statics: PerDeviceStatics::empty(),
                });
                if self.next_device_id < u64::MAX {
                    self.next_device_id = self.next_device_id + 1;
                }
                Ok(true)
            },
            CreateOutcome::Lost => Ok(false),
            CreateOutcome::Failed(hr) => Err(Error::new_hr("IDirect3D9::CreateDevice", hr, "")),
        }
    }
}

} // verus!
