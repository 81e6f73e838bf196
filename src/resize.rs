//! The resize coalescer: it watches size notifications from the host, drops
//! those that need no work, and asks for at most one redraw at a time.
use vstd::prelude::*;

verus! {

/// The coalescer's state. While not armed it ignores every notification.
/// `width` and `height` are the last size recorded; `in_flight` says that a
/// redraw was asked for and has not finished; `pending` that a newer size
/// arrived meanwhile and needs one more.
#[derive(Debug)]
pub struct ResizeCoalescer {
    armed: bool,
    width: i32,
    height: i32,
    in_flight: bool,
    pending: bool,
}

pub ghost struct CoalescerView {
    pub armed: bool,
    pub width: i32,
    pub height: i32,
    pub in_flight: bool,
    pub pending: bool,
}

impl View for ResizeCoalescer {
    type V = CoalescerView;

    closed spec fn view(&self) -> CoalescerView {
        CoalescerView {
            armed: self.armed,
            width: self.width,
            height: self.height,
            in_flight: self.in_flight,
            pending: self.pending,
        }
    }
}

impl CoalescerView {
    /// Only an armed coalescer has work in flight or pending.
    pub open spec fn wf(self) -> bool {
        &&& !self.armed ==> !self.in_flight && !self.pending
        &&& self.pending ==> self.in_flight
    }

    /// One size notification: the new state, and whether a redraw is to be
    /// asked for now. A notification while disarmed or hidden, or one that
    /// repeats the recorded size, changes nothing. Any other is recorded; it
    /// asks for a redraw unless one is already running, in which case it is
    /// folded into one more redraw after that.
    pub open spec fn sample(self, width: i32, height: i32, visible: bool) -> (CoalescerView, bool) {
        if !self.armed || !visible || (width == self.width && height == self.height) {
            (self, false)
        } else if self.in_flight {
            (CoalescerView { width, height, pending: true, ..self }, false)
        } else {
            (CoalescerView { width, height, in_flight: true, ..self }, true)
        }
    }

    /// A batch of notifications seen with one visibility, in order: the final
    /// state and the number of redraws asked for.
    pub open spec fn run(self, sizes: Seq<(i32, i32)>, visible: bool) -> (CoalescerView, nat)
        decreases sizes.len(),
    {
        if sizes.len() == 0 {
            (self, 0)
        } else {
            let (st, k) = self.run(sizes.drop_last(), visible);
            let (st2, asked) = st.sample(sizes.last().0, sizes.last().1, visible);
            (st2, if asked { k + 1 } else { k })
        }
    }

    /// The running redraw finished: if a newer size waits, its redraw is asked
    /// for now.
    pub open spec fn redraw_done(self) -> (CoalescerView, bool) {
        if self.pending {
            (CoalescerView { pending: false, in_flight: true, ..self }, true)
        } else {
            (CoalescerView { in_flight: false, ..self }, false)
        }
    }
}

impl ResizeCoalescer {
    /// Starts observing an element whose current size is `width` by `height`.
    pub fn subscribe(width: i32, height: i32) -> (r: ResizeCoalescer)
        ensures
            r@ == (CoalescerView { armed: true, width, height, in_flight: false, pending: false }),
    {
        ResizeCoalescer { armed: true, width, height, in_flight: false, pending: false }
    }

    /// Whether notifications are still observed.
    pub fn is_armed(&self) -> (r: bool)
        ensures
            r == self@.armed,
    {
        self.armed
    }

    /// One size notification; returns whether to ask for a redraw now.
    pub fn on_sample(&mut self, width: i32, height: i32, visible: bool) -> (r: bool)
        requires
            old(self)@.wf(),
        ensures
            final(self)@.wf(),
            (final(self)@, r) == old(self)@.sample(width, height, visible),
    {
        if !self.armed || !visible || (width == self.width && height == self.height) {
            false
        } else if self.in_flight {
            self.width = width;
            self.height = height;
            self.pending = true;
            false
        } else {
            self.width = width;
            self.height = height;
            self.in_flight = true;
            true
        }
    }

    /// A batch of notifications delivered together, all seen with the same
    /// visibility of the element; returns whether to ask for a redraw now.
    pub fn on_resize(&mut self, sizes: &Vec<(i32, i32)>, visible: bool) -> (r: bool)
        requires
            old(self)@.wf(),
        ensures
            final(self)@.wf(),
            final(self)@.armed == old(self)@.armed,
            final(self)@ == old(self)@.run(sizes@, visible).0,
            r == (old(self)@.run(sizes@, visible).1 > 0),
    {
        let mut asked = false;
        let mut i: usize = 0;
        while i < sizes.len()
            invariant
                0 <= i <= sizes@.len(),
                self@.wf(),
                self@.armed == old(self)@.armed,
                self@ == old(self)@.run(sizes@.subrange(0, i as int), visible).0,
                asked == (old(self)@.run(sizes@.subrange(0, i as int), visible).1 > 0),
            decreases sizes@.len() - i,
        {
            let (w, h) = sizes[i];
            proof {
                let pre = sizes@.subrange(0, i as int);
                let next = sizes@.subrange(0, i as int + 1);
                assert(next.drop_last() =~= pre);
                assert(next.last() == sizes@[i as int]);
            }
            let now = self.on_sample(w, h, visible);
            asked = asked || now;
            i = i + 1;
        }
        proof {
            assert(sizes@.subrange(0, sizes@.len() as int) =~= sizes@);
        }
        asked
    }

    /// The redraw asked for finished; returns whether to ask for another,
    /// for a size that arrived while it ran.
    pub fn on_redraw_complete(&mut self) -> (r: bool)
        requires
            old(self)@.wf(),
        ensures
            final(self)@.wf(),
            (final(self)@, r) == old(self)@.redraw_done(),
    {
        if self.pending {
            self.pending = false;
            self.in_flight = true;
            true
        } else {
            self.in_flight = false;
            false
        }
    }

    /// Stops observing. Returns whether the observer was attached, so that
    /// the host detaches it exactly once; a second call does nothing.
    pub fn unsubscribe(&mut self) -> (r: bool)
        ensures
            r == old(self)@.armed,
            final(self)@ == (CoalescerView { armed: false, in_flight: false, pending: false, ..old(self)@ }),
    {
        let was = self.armed;
        self.armed = false;
        self.in_flight = false;
        self.pending = false;
        was
    }
}

/// A run of identical visible sizes asks for at most one redraw, and after
/// the first of them the recorded size is that size (or the coalescer is
/// disarmed).
pub proof fn lemma_identical_sizes_coalesce(s: CoalescerView, sizes: Seq<(i32, i32)>, w: i32, h: i32)
    requires
        forall|i: int| 0 <= i < sizes.len() ==> #[trigger] sizes[i] == (w, h),
    ensures
        s.run(sizes, true).1 <= 1,
        sizes.len() > 0 ==> (!s.run(sizes, true).0.armed || (s.run(sizes, true).0.width == w
            && s.run(sizes, true).0.height == h)),
        !s.armed ==> s.run(sizes, true).0.armed == false,
    decreases sizes.len(),
{
    if sizes.len() > 0 {
        let pre = sizes.drop_last();
        assert forall|i: int| 0 <= i < pre.len() implies #[trigger] pre[i] == (w, h) by {
            assert(pre[i] == sizes[i]);
        }
        lemma_identical_sizes_coalesce(s, pre, w, h);
        assert(sizes.last() == sizes[sizes.len() - 1]);
    }
}

/// While the element is hidden, notifications ask for nothing and leave the
/// recorded size as it was.
pub proof fn lemma_hidden_sizes_ignored(s: CoalescerView, sizes: Seq<(i32, i32)>)
    ensures
        s.run(sizes, false) == (s, 0nat),
    decreases sizes.len(),
{
    if sizes.len() > 0 {
        lemma_hidden_sizes_ignored(s, sizes.drop_last());
    }
}

} // verus!
