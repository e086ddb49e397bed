//! Window-handle registry: a thread-confined map from a native window handle
//! to its liveness and an associated per-window value.
//!
//! A handle is *alive* between registration (the platform confirmed creation)
//! and unregistration (the platform confirmed destruction).  Registering a
//! live handle twice, or unregistering a handle that is not alive, is a
//! lifecycle bug in the host and is reported as an error.

use vstd::prelude::*;
use std::collections::HashMap;
use crate::error::Error;

verus! {

broadcast use vstd::std_specs::hash::group_hash_axioms;

/// Raw error code used when a handle is not (or already) registered.
pub const E_HANDLE: u32 = 0x8007_0006;

/// Raw error code used when a live handle carries no associated value.
pub const E_FAIL: u32 = 0x8000_4005;

/// Tracks which window handles are alive, and one associated value per live
/// handle.
#[derive(Debug)]
pub struct Registry<A> {
    entries: HashMap<u64, A>,
}

impl<A> View for Registry<A> {
    type V = Map<u64, A>;

    closed spec fn view(&self) -> Map<u64, A> {
        self.entries@
    }
}

impl<A> Registry<A> {
    /// An empty registry: no handle is alive.
    pub fn new() -> (r: Registry<A>)
        ensures
            r@ == Map::<u64, A>::empty(),
    {
        Registry { entries: HashMap::new() }
    }

    /// `true` exactly while `handle` is registered and not yet unregistered.
    pub fn is_alive(&self, handle: u64) -> (r: bool)
        ensures
            r == self@.contains_key(handle),
    {
        self.entries.contains_key(&handle)
    }

    /// Records that the platform created `handle`, attaching `value` to it.
    /// Fails, changing nothing, when the handle is already alive: that is a
    /// lifecycle bug in the host.
    pub fn register(&mut self, handle: u64, value: A) -> (r: Result<(), Error>)
        ensures
            r is Ok <==> !old(self)@.contains_key(handle),
            r is Ok ==> final(self)@ == old(self)@.insert(handle, value),
            r is Err ==> final(self)@ == old(self)@,
    {
        if self.entries.contains_key(&handle) {
            Err(Error::new("Registry::register", "", E_HANDLE, "handle already registered"))
        } else {
            self.entries.insert(handle, value);
            Ok(())
        }
    }

    /// Records that the platform destroyed `handle`, dropping its value.
    /// Fails, changing nothing, when the handle is not alive: destroying a
    /// window twice is a lifecycle bug in the host.
    pub fn unregister(&mut self, handle: u64) -> (r: Result<(), Error>)
        ensures
            r is Ok <==> old(self)@.contains_key(handle),
            r is Ok ==> final(self)@ == old(self)@.remove(handle),
            r is Err ==> final(self)@ == old(self)@,
    {
        match self.entries.remove(&handle) {
            Some(_) => Ok(()),
            None => Err(Error::new("Registry::unregister", "", E_HANDLE, "handle was not registered")),
        }
    }

    /// The value attached to `handle`, or `None` once the window is dead.
    pub fn get(&self, handle: u64) -> (r: Option<&A>)
        ensures
            match r {
                Some(v) => self@.contains_key(handle) && *v == self@[handle],
                None => !self@.contains_key(handle),
            },
    {
        self.entries.get(&handle)
    }

    /// Replaces the value attached to `handle`, which the caller knows to be
    /// alive.
    pub(crate) fn put(&mut self, handle: u64, value: A)
        requires
            old(self)@.contains_key(handle),
        ensures
            final(self)@ == old(self)@.insert(handle, value),
    {
        self.entries.insert(handle, value);
    }

    /// Replaces the value attached to a live `handle`.  Fails, changing
    /// nothing, when the handle is not alive.
    pub fn set(&mut self, handle: u64, value: A) -> (r: Result<(), Error>)
        ensures
            r is Ok <==> old(self)@.contains_key(handle),
            r is Ok ==> final(self)@ == old(self)@.insert(handle, value),
            r is Err ==> final(self)@ == old(self)@,
    {
        if self.entries.contains_key(&handle) {
            self.entries.insert(handle, value);
            Ok(())
        } else {
            Err(Error::new("Registry::set", "", E_HANDLE, "no such handle"))
        }
    }
}

/// The platform message that confirms a window came to exist.
pub const WM_NCCREATE: u32 = 0x0081;

/// The platform message that confirms a window is gone.
pub const WM_NCDESTROY: u32 = 0x0082;

/// What a window-procedure hook does to the registry for one message: the
/// creation message registers the handle, the final destruction message
/// unregisters it, and every other message leaves the registry alone.
#[derive(Clone, Copy, Debug, PartialEq, Eq, Structural)]
pub enum HookAction {
    Register,
    Unregister,
    Nothing,
}

/// Classify one hooked window message.
pub fn hook_action(message: u32) -> (r: HookAction)
    ensures
        r == (if message == WM_NCCREATE {
            HookAction::Register
        } else if message == WM_NCDESTROY {
            HookAction::Unregister
        } else {
            HookAction::Nothing
        }),
{
    if message == WM_NCCREATE {
        HookAction::Register
    } else if message == WM_NCDESTROY {
        HookAction::Unregister
    } else {
        HookAction::Nothing
    }
}

/// Registry lifecycle law: a handle is not alive before registration, alive
/// immediately after it, no longer alive immediately after unregistration,
/// and a second unregistration fails and leaves the registry unchanged, so
/// the handle stays dead.
pub proof fn lemma_registry_lifecycle<A>(
    before: Map<u64, A>,
    value: A,
    handle: u64,
)
    requires
        !before.contains_key(handle),
    ensures
        before.insert(handle, value).contains_key(handle),
        !before.insert(handle, value).remove(handle).contains_key(handle),
        before.insert(handle, value).remove(handle) =~= before,
{
}

} // verus!
