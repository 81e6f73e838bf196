//! A single-slot exclusive-execution token with a first-in first-out wait
//! queue: every state-mutating operation is admitted through it, at most one
//! holds it at a time, and waiting operations start in submission order.
use vstd::prelude::*;

verus! {

/// What `submit` hands back: the operation's ticket, and whether it holds the
/// lock at once or waits its turn.
#[derive(Clone, Copy, Debug, PartialEq, Eq, Structural)]
pub struct Admission {
    pub ticket: u64,
    pub start_now: bool,
}

/// The lock. Tickets are handed out in increasing order; the holder's ticket
/// is below every waiting one, and the queue is in ticket order.
#[derive(Debug)]
pub struct DrawLock {
    holder: Option<u64>,
    queue: Vec<u64>,
    next_ticket: u64,
}

pub ghost struct DrawLockView {
    pub holder: Option<u64>,
    pub queue: Seq<u64>,
    pub next_ticket: u64,
}

impl View for DrawLock {
    type V = DrawLockView;

    closed spec fn view(&self) -> DrawLockView {
        DrawLockView { holder: self.holder, queue: self.queue@, next_ticket: self.next_ticket }
    }
}

impl DrawLockView {
    /// Nobody waits on a free lock; the queue is in submission order, after the
    /// holder; every ticket handed out is below `next_ticket`.
    pub open spec fn wf(self) -> bool {
        &&& self.holder is None ==> self.queue.len() == 0
        &&& forall|i: int, j: int| 0 <= i < j < self.queue.len() ==> self.queue[i] < self.queue[j]
        &&& forall|i: int| 0 <= i < self.queue.len() ==> self.queue[i] < self.next_ticket
        &&& self.holder matches Some(h) ==> h < self.next_ticket
        &&& self.holder matches Some(h) ==> forall|i: int| 0 <= i < self.queue.len() ==> h < self.queue[i]
    }

    /// A new operation is admitted: it holds a free lock at once, or joins the
    /// end of the queue.
    pub open spec fn submit(self) -> (DrawLockView, Admission) {
        let t = self.next_ticket;
        if self.holder is None {
            (DrawLockView { holder: Some(t), next_ticket: (t + 1) as u64, ..self }, Admission { ticket: t, start_now: true })
        } else {
            (DrawLockView { queue: self.queue.push(t), next_ticket: (t + 1) as u64, ..self }, Admission { ticket: t, start_now: false })
        }
    }

    /// The holder finished, successfully or not: the lock passes to the first
    /// waiting operation, which is returned, or becomes free.
    pub open spec fn release(self) -> (DrawLockView, Option<u64>) {
        if self.queue.len() == 0 {
            (DrawLockView { holder: None, ..self }, None)
        } else {
            (DrawLockView { holder: Some(self.queue[0]), queue: self.queue.drop_first(), ..self }, Some(self.queue[0]))
        }
    }
}

impl DrawLock {
    pub fn new() -> (r: DrawLock)
        ensures
            r@.wf(),
            r@.holder is None,
            r@.queue.len() == 0,
    {
        DrawLock { holder: None, queue: Vec::new(), next_ticket: 0 }
    }

    /// Admits a new operation; nothing, and no change, once every ticket has
    /// been handed out.
    pub fn submit(&mut self) -> (r: Option<Admission>)
        requires
            old(self)@.wf(),
        ensures
            final(self)@.wf(),
            old(self)@.next_ticket == u64::MAX ==> r is None && final(self)@ == old(self)@,
            old(self)@.next_ticket < u64::MAX ==> r == Some(old(self)@.submit().1) && final(self)@ == old(self)@.submit().0,
    {
        if self.next_ticket == u64::MAX {
            return None;
        }
        proof {
            lemma_steps_preserve_wf(self@);
        }
        let t = self.next_ticket;
        self.next_ticket = t + 1;
        if self.holder.is_none() {
            self.holder = Some(t);
            Some(Admission { ticket: t, start_now: true })
        } else {
            self.queue.push(t);
            Some(Admission { ticket: t, start_now: false })
        }
    }

    /// The holder `ticket` finished: returns the operation that starts now,
    /// if any waited.
    pub fn release(&mut self, ticket: u64) -> (r: Option<u64>)
        requires
            old(self)@.wf(),
            old(self)@.holder == Some(ticket),
        ensures
            final(self)@.wf(),
            (final(self)@, r) == old(self)@.release(),
    {
        if self.queue.len() == 0 {
            self.holder = None;
            None
        } else {
            let next = self.queue.remove(0);
            self.holder = Some(next);
            proof {
                assert(self.queue@ =~= old(self)@.queue.drop_first());
            }
            Some(next)
        }
    }

    /// The ticket of the operation that holds the lock, if any.
    pub fn holder(&self) -> (r: Option<u64>)
        ensures
            r == self@.holder,
    {
        self.holder
    }

    /// How many operations wait for the lock.
    pub fn waiting(&self) -> (r: usize)
        ensures
            r == self@.queue.len(),
    {
        self.queue.len()
    }
}

/// Waiting operations are kept in submission order, and a release starts the
/// earliest submitted of them: an operation never starts before one that was
/// submitted ahead of it.
pub proof fn lemma_release_starts_earliest(s: DrawLockView)
    requires
        s.wf(),
        s.queue.len() > 0,
    ensures
        s.release().1 == Some(s.queue[0]),
        forall|i: int| 1 <= i < s.queue.len() ==> s.queue[0] < #[trigger] s.queue[i],
        s.release().0.wf(),
        s.release().0.queue == s.queue.drop_first(),
{
}

/// With A running, B and C submitted in that order wait; when A finishes, B
/// starts while C keeps waiting, and C starts only once B has finished.
pub proof fn lemma_fifo_three(s: DrawLockView, a: u64)
    requires
        s.wf(),
        s.holder == Some(a),
        s.queue.len() == 0,
        s.next_ticket < u64::MAX - 1,
    ensures
        ({
            let (s1, b) = s.submit();
            let (s2, c) = s1.submit();
            let (s3, after_a) = s2.release();
            let (s4, after_b) = s3.release();
            &&& !b.start_now && !c.start_now
            &&& b.ticket < c.ticket
            &&& after_a == Some(b.ticket) && s3.holder == Some(b.ticket)
            &&& s3.queue == seq![c.ticket]
            &&& after_b == Some(c.ticket) && s4.holder == Some(c.ticket)
        }),
{
    let (s1, b) = s.submit();
    let (s2, c) = s1.submit();
    assert(s2.queue =~= seq![b.ticket, c.ticket]);
    let (s3, _) = s2.release();
    assert(s3.queue =~= seq![c.ticket]);
}

/// Every step keeps the lock well formed.
pub proof fn lemma_steps_preserve_wf(s: DrawLockView)
    requires
        s.wf(),
    ensures
        s.next_ticket < u64::MAX ==> s.submit().0.wf(),
        s.holder is Some ==> s.release().0.wf(),
{
    if s.next_ticket < u64::MAX {
        let s1 = s.submit().0;
        assert forall|i: int| 0 <= i < s1.queue.len() implies s1.queue[i] < s1.next_ticket by {
            if i < s.queue.len() {
                assert(s1.queue[i] == s.queue[i]);
            }
        }
    }
}

} // verus!
