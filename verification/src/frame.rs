//! Per-frame callback bookkeeping for a cooperative frame loop.
//!
//! The host's loop drains platform messages, runs pending tasks, then invokes
//! every registered per-frame callback once.  A callback registered during a
//! frame joins at the start of the next one; a callback that answers `false`
//! is unregistered and never invoked again.  The callbacks themselves live
//! with the host; here each is a registration identity, and the decisions —
//! who runs this frame, in what order, and who survives it — are verified.

use vstd::prelude::*;

verus! {

broadcast use vstd::seq::group_seq_axioms, vstd::seq_lib::group_seq_lib_default;

/// The platform message that asks the loop to end.
pub const WM_QUIT: u32 = 0x0012;

/// What a drained message means to the frame loop: a quit message ends the
/// loop with the exit code carried in its parameter, and any other message is
/// translated and dispatched while the loop goes on.
pub fn quit_code(message: u32, wparam: usize) -> (r: Option<i32>)
    ensures
        message == WM_QUIT ==> r == Some(wparam as i32),
        message != WM_QUIT ==> r is None,
{
    if message == WM_QUIT {
        #[verifier::truncate]
        let code: i32 = wparam as i32;
        Some(code)
    } else {
        None
    }
}

/// The members of `s` whose flag is set, in order: what `end_frame` keeps.
pub open spec fn filter_flags(s: Seq<u64>, flags: Seq<bool>) -> Seq<u64>
    decreases s.len(),
{
    if s.len() == 0 {
        Seq::empty()
    } else {
        let rest = filter_flags(s.drop_last(), flags.drop_last());
        if flags.last() {
            rest.push(s.last())
        } else {
            rest
        }
    }
}

/// The registered per-frame callbacks: those active this frame, and those
/// registered since the frame began.
pub struct FrameCallbacks {
    active: Vec<u64>,
    pending: Vec<u64>,
    next_id: u64,
}

impl FrameCallbacks {
    /// The callbacks invoked each frame, in registration order.
    pub closed spec fn active_spec(self) -> Seq<u64> {
        self.active@
    }

    /// Callbacks registered since the current frame began.
    pub closed spec fn pending_spec(self) -> Seq<u64> {
        self.pending@
    }

    /// The identity the next registration will get.
    pub closed spec fn next_id_spec(self) -> u64 {
        self.next_id
    }

    pub fn new() -> (r: FrameCallbacks)
        ensures
            r.active_spec() == Seq::<u64>::empty(),
            r.pending_spec() == Seq::<u64>::empty(),
            r.next_id_spec() == 0,
    {
        FrameCallbacks { active: Vec::new(), pending: Vec::new(), next_id: 0 }
    }

    /// Register a callback to run each frame, starting with the next one.
    /// Returns the registration's identity, under which the host keeps the
    /// callback itself.
    pub fn each_frame(&mut self) -> (r: u64)
        ensures
            r == old(self).next_id_spec(),
            final(self).active_spec() == old(self).active_spec(),
            final(self).pending_spec() == old(self).pending_spec().push(r),
            final(self).next_id_spec() == crate::mwc::bump_id(old(self).next_id_spec()),
    {
        let id = self.next_id;
        self.pending.push(id);
        if self.next_id < u64::MAX {
            self.next_id = self.next_id + 1;
        }
        id
    }

    /// Start a frame: callbacks registered since the last frame join the
    /// active list, and every active callback is to be invoked once, in
    /// registration order.  Returns that order.
    pub fn begin_frame(&mut self) -> (r: Vec<u64>)
        ensures
            final(self).active_spec() == old(self).active_spec() + old(self).pending_spec(),
            final(self).pending_spec() == Seq::<u64>::empty(),
            final(self).next_id_spec() == old(self).next_id_spec(),
            r@ == final(self).active_spec(),
    {
        let n = self.pending.len();
        let mut i: usize = 0;
        while i < n
            invariant
                i <= n,
                n == self.pending@.len(),
                self.pending@ == old(self).pending_spec(),
                self.next_id == old(self).next_id_spec(),
                self.active@ == old(self).active_spec() + old(self).pending_spec().take(i as int),
            decreases n - i,
        {
            let id = self.pending[i];
            self.active.push(id);
            proof {
                assert(old(self).pending_spec().take(i as int + 1) =~= old(
                    self,
                ).pending_spec().take(i as int).push(id));
                assert(self.active@ =~= old(self).active_spec() + old(self).pending_spec().take(
                    i as int + 1,
                ));
            }
            i = i + 1;
        }
        proof {
            assert(old(self).pending_spec().take(n as int) =~= old(self).pending_spec());
        }
        self.pending = Vec::new();
        let mut order: Vec<u64> = Vec::new();
        let m = self.active.len();
        let mut j: usize = 0;
        while j < m
            invariant
                j <= m,
                m == self.active@.len(),
                self.active@ == old(self).active_spec() + old(self).pending_spec(),
                self.pending@ == Seq::<u64>::empty(),
                self.next_id == old(self).next_id_spec(),
                order@ == self.active@.take(j as int),
            decreases m - j,
        {
            order.push(self.active[j]);
            proof {
                assert(self.active@.take(j as int + 1) =~= self.active@.take(j as int).push(
                    self.active@[j as int],
                ));
            }
            j = j + 1;
        }
        proof {
            assert(self.active@.take(m as int) =~= self.active@);
        }
        order
    }

    /// End a frame: callback `i` of the order `begin_frame` returned answered
    /// `keep[i]`, and exactly those that answered `true` stay registered, in
    /// order.
    pub fn end_frame(&mut self, keep: &Vec<bool>)
        requires
            keep@.len() == old(self).active_spec().len(),
        ensures
            final(self).active_spec() == filter_flags(old(self).active_spec(), keep@),
            final(self).pending_spec() == old(self).pending_spec(),
            final(self).next_id_spec() == old(self).next_id_spec(),
    {
        let mut kept: Vec<u64> = Vec::new();
        let n = self.active.len();
        let mut i: usize = 0;
        while i < n
            invariant
                i <= n,
                n == self.active@.len(),
                keep@.len() == n,
                self.active@ == old(self).active_spec(),
                self.pending@ == old(self).pending_spec(),
                self.next_id == old(self).next_id_spec(),
                kept@ == filter_flags(self.active@.take(i as int), keep@.take(i as int)),
            decreases n - i,
        {
            proof {
                let s1 = self.active@.take(i as int + 1);
                let f1 = keep@.take(i as int + 1);
                assert(s1.drop_last() =~= self.active@.take(i as int));
                assert(f1.drop_last() =~= keep@.take(i as int));
                assert(s1.last() == self.active@[i as int]);
                assert(f1.last() == keep@[i as int]);
            }
            if keep[i] {
                kept.push(self.active[i]);
            }
            i = i + 1;
        }
        proof {
            assert(self.active@.take(n as int) =~= self.active@);
            assert(keep@.take(n as int) =~= keep@);
        }
        self.active = kept;
    }
}

} // verus!
