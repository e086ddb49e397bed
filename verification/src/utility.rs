//! Small utility types: identity-compared byte slices, a plain value cell,
//! embedded-file metadata, and a frame-rate counter over caller-supplied
//! timestamps.

use vstd::prelude::*;

verus! {

/// A `'static` byte slice compared by identity — address and length — rather
/// than by content.  Two different allocations holding equal bytes are
/// distinct on purpose: the intended contents are long-lived embedded
/// resources, where the allocation identifies the resource.
#[derive(Clone, Copy)]
pub struct StaticBytesRef(pub &'static [u8]);

/// Relies on `<[u8]>::as_ptr`: the address of the slice's first byte, which
/// is stable for as long as the allocation lives.  Nothing is assumed about
/// the value itself.
#[verifier::external_body]
fn slice_addr(s: &[u8]) -> usize {
    s.as_ptr() as usize
}

impl StaticBytesRef {
    /// The identity of the slice: its address and its length.
    pub fn cmp_data(&self) -> (r: (usize, usize))
        ensures
            r.1 == self.0@.len(),
    {
        (slice_addr(self.0), self.0.len())
    }

    /// The identity packed into one key: `address * 2^64 + length`.  The
    /// address is no function of the bytes, so only the length part is pinned
    /// down here; what matters is that equal keys come from one allocation.
    pub fn key(&self) -> (r: u128)
        ensures
            r % 0x1_0000_0000_0000_0000u128 == self.0@.len() as u128,
    {
        let (addr, len) = self.cmp_data();
        let r: u128 = (addr as u128) * 0x1_0000_0000_0000_0000u128 + (len as u128);
        proof {
            assert(r % 0x1_0000_0000_0000_0000u128 == len as u128) by (nonlinear_arith)
                requires
                    r == (addr as u128) * 0x1_0000_0000_0000_0000u128 + (len as u128),
                    (len as u128) < 0x1_0000_0000_0000_0000u128,
            ;
        }
        r
    }

    /// The bytes themselves.
    pub fn as_bytes(&self) -> (r: &'static [u8])
        ensures
            r@ == self.0@,
    {
        self.0
    }
}

/// Marks a value as intended to be shared across threads by a host that
/// guarantees the sharing is sound; the library itself is thread-confined.
pub struct SendSyncCell<T> {
    pub value: T,
}

impl<T> SendSyncCell<T> {
    pub fn new(value: T) -> (r: SendSyncCell<T>)
        ensures
            r.value == value,
    {
        SendSyncCell { value }
    }

    /// Read access to the held value.
    pub fn get(&self) -> (r: &T)
        ensures
            *r == self.value,
    {
        &self.value
    }

    /// Write access to the held value.
    pub fn get_mut(&mut self) -> (r: &mut T)
        ensures
            *r == old(self).value,
            final(self).value == *final(r),
    {
        &mut self.value
    }
}

/// Where an embedded file's path is rooted.
#[derive(Clone, Debug, PartialEq, Eq, Structural)]
pub enum StaticFileRoot {
    /// Relative to the crate's manifest directory.
    Crate,
    /// Relative to the directory of the module that embedded it.
    ModDir,
}

/// An embedded file together with the build-time metadata of the crate and
/// module that embedded it.
pub struct StaticFile {
    pub cargo_manifest_dir: &'static str,
    pub cargo_pkg_name: &'static str,
    pub module_name: &'static str,
    pub root: StaticFileRoot,
    pub path: &'static str,
    pub data: &'static [u8],
}

/// Counts frames against caller-supplied monotonic timestamps, in
/// nanoseconds, and reports the average duration of the frames it remembers.
pub struct FrameRateCounter {
    capacity: usize,
    history: Vec<u64>,
}

impl FrameRateCounter {
    /// The timestamps currently remembered, oldest first.
    pub closed spec fn history_spec(self) -> Seq<u64> {
        self.history@
    }

    /// How many timestamps are remembered at most.
    pub closed spec fn capacity_spec(self) -> usize {
        self.capacity
    }

    pub open spec fn wf(self) -> bool {
        self.history_spec().len() >= 1
    }

    /// A counter that remembers up to `capacity` timestamps, starting at
    /// `now`.
    pub fn new(capacity: usize, now: u64) -> (r: FrameRateCounter)
        ensures
            r.wf(),
            r.capacity_spec() == capacity,
            r.history_spec() == seq![now],
    {
        let mut history: Vec<u64> = Vec::new();
        history.push(now);
        FrameRateCounter { capacity, history }
    }

    /// Record one frame ending at `now` and return the average frame
    /// duration over the remembered window: the time since the oldest
    /// remembered timestamp, divided by the number of frames it spans.
    pub fn frame(&mut self, now: u64) -> (r: u64)
        requires
            old(self).wf(),
            now >= old(self).history_spec()[0],
        ensures
            final(self).wf(),
            final(self).capacity_spec() == old(self).capacity_spec(),
            r == (now - old(self).history_spec()[0]) as u64 / old(self).history_spec().len() as u64,
            final(self).history_spec() == if old(self).history_spec().len()
                >= old(self).capacity_spec() {
                old(self).history_spec().drop_first().push(now)
            } else {
                old(self).history_spec().push(now)
            },
    {
        let dt: u64 = now - self.history[0];
        let n: usize = self.history.len();
        if n >= self.capacity {
            let _ = self.history.remove(0);
            proof {
                assert(self.history@ =~= old(self).history_spec().drop_first());
            }
        }
        self.history.push(now);
        dt / (n as u64)
    }
}

} // verus!
