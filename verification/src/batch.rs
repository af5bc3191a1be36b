//! The batching contract the adapter assumes of its delivery
//! collaborator: records are buffered, and a buffered batch goes out
//! when the configured record count is reached or when the configured
//! batch age has elapsed with at least one record waiting.

use vstd::prelude::*;
use crate::record::OutboundRecord;

verus! {

/// The buffering state of the delivery client: the records waiting to
/// be sent, the size trigger (`capacity`), the age trigger
/// (`duration_millis`) and the age of the oldest waiting batch
/// (`elapsed_millis`).
#[derive(Debug)]
pub struct BatchBuffer {
    pub capacity: usize,
    pub duration_millis: u64,
    pub elapsed_millis: u64,
    pub pending: Vec<OutboundRecord>,
}

/// One enqueue over the size trigger: the record joins the buffer, and
/// if the buffer now holds `cap` records it is emitted whole.
pub open spec fn enqueue_step(
    cap: int,
    pending: Seq<OutboundRecord>,
    r: OutboundRecord,
) -> (Seq<OutboundRecord>, Option<Seq<OutboundRecord>>) {
    let p = pending.push(r);
    if p.len() == cap {
        (Seq::empty(), Some(p))
    } else {
        (p, None)
    }
}

/// Elapsing `d` ms over the age trigger: the buffer age grows
/// (saturating), and once it reaches `duration` with at least one
/// record waiting, the buffer is emitted whole and the age resets.
pub open spec fn elapse_step(
    duration: int,
    elapsed: int,
    pending: Seq<OutboundRecord>,
    d: int,
) -> (int, Option<Seq<OutboundRecord>>) {
    let t = if elapsed + d <= u64::MAX { elapsed + d } else { u64::MAX as int };
    if t >= duration && pending.len() > 0 {
        (0, Some(pending))
    } else {
        (t, None)
    }
}

/// The batches an optional emitted vector stands for.
pub open spec fn opt_batch(b: Option<Vec<OutboundRecord>>) -> Option<Seq<OutboundRecord>> {
    match b {
        Some(v) => Some(v@),
        None => None,
    }
}

/// Enqueues `rs` in order, front first, collecting every emitted
/// batch.
pub open spec fn run_enqueue(
    cap: int,
    pending: Seq<OutboundRecord>,
    rs: Seq<OutboundRecord>,
) -> (Seq<OutboundRecord>, Seq<Seq<OutboundRecord>>)
    decreases rs.len(),
{
    if rs.len() == 0 {
        (pending, Seq::empty())
    } else {
        let (p1, b1) = enqueue_step(cap, pending, rs[0]);
        let (p2, bs) = run_enqueue(cap, p1, rs.skip(1));
        match b1 {
            Some(batch) => (p2, seq![batch] + bs),
            None => (p2, bs),
        }
    }
}

/// While the size trigger is not reached, nothing is emitted: the
/// records only accumulate.
pub proof fn lemma_under_capacity(cap: int, pending: Seq<OutboundRecord>, rs: Seq<OutboundRecord>)
    requires
        0 < cap,
        pending.len() + rs.len() < cap,
    ensures
        run_enqueue(cap, pending, rs) == (pending + rs, Seq::<Seq<OutboundRecord>>::empty()),
    decreases rs.len(),
{
    if rs.len() == 0 {
        assert(pending + rs =~= pending);
    } else {
        lemma_under_capacity(cap, pending.push(rs[0]), rs.skip(1));
        assert(pending.push(rs[0]) + rs.skip(1) =~= pending + rs);
    }
}

/// The size trigger: filling the buffer up to its capacity emits
/// exactly one batch, which carries exactly those records, in order,
/// and leaves the buffer empty.
pub proof fn lemma_buffer_size_trigger(
    cap: int,
    pending: Seq<OutboundRecord>,
    rs: Seq<OutboundRecord>,
)
    requires
        0 < cap,
        pending.len() < cap,
        pending.len() + rs.len() == cap,
    ensures
        run_enqueue(cap, pending, rs) == (
            Seq::<OutboundRecord>::empty(),
            seq![pending + rs],
        ),
    decreases rs.len(),
{
    if rs.len() == 1 {
        assert(pending.push(rs[0]) =~= pending + rs);
        assert(run_enqueue(cap, Seq::<OutboundRecord>::empty(), rs.skip(1)) == (
            Seq::<OutboundRecord>::empty(),
            Seq::<Seq<OutboundRecord>>::empty(),
        ));
        assert(seq![pending + rs] + Seq::<Seq<OutboundRecord>>::empty() =~= seq![pending + rs]);
    } else {
        lemma_buffer_size_trigger(cap, pending.push(rs[0]), rs.skip(1));
        assert(pending.push(rs[0]) + rs.skip(1) =~= pending + rs);
    }
}

/// The age trigger: once the configured duration has elapsed with at
/// least one buffered record, exactly one flush happens, carrying
/// every pending record, and the age resets.
pub proof fn lemma_duration_trigger(
    duration: int,
    elapsed: int,
    pending: Seq<OutboundRecord>,
    d: int,
)
    requires
        elapsed + d >= duration,
        elapsed + d <= u64::MAX,
        pending.len() > 0,
    ensures
        elapse_step(duration, elapsed, pending, d) == (0int, Some(pending)),
{
}

/// Before the duration is reached, or with nothing buffered, elapsing
/// time emits nothing.
pub proof fn lemma_duration_no_trigger(
    duration: int,
    elapsed: int,
    pending: Seq<OutboundRecord>,
    d: int,
)
    requires
        elapsed + d < duration || pending.len() == 0,
        0 <= elapsed,
        0 <= d,
    ensures
        elapse_step(duration, elapsed, pending, d).1 is None,
{
}

impl BatchBuffer {
    /// Well-formed: the size trigger is positive and the buffer is
    /// strictly below it (a full buffer is emitted at once).
    pub open spec fn wf(self) -> bool {
        &&& self.capacity > 0
        &&& self.pending@.len() < self.capacity
    }

    /// A fresh, empty buffer.
    pub fn new(capacity: usize, duration_millis: u64) -> (r: BatchBuffer)
        requires
            capacity > 0,
        ensures
            r.wf(),
            r.capacity == capacity,
            r.duration_millis == duration_millis,
            r.elapsed_millis == 0,
            r.pending@ == Seq::<OutboundRecord>::empty(),
    {
        BatchBuffer { capacity, duration_millis, elapsed_millis: 0, pending: Vec::new() }
    }

    /// Buffers one record; emits the whole buffer when the size
    /// trigger is reached, resetting the batch age.
    pub fn enqueue(&mut self, r: OutboundRecord) -> (b: Option<Vec<OutboundRecord>>)
        requires
            old(self).wf(),
        ensures
            final(self).wf(),
            final(self).capacity == old(self).capacity,
            final(self).duration_millis == old(self).duration_millis,
            final(self).pending@ == enqueue_step(
                old(self).capacity as int,
                old(self).pending@,
                r,
            ).0,
            opt_batch(b) == enqueue_step(old(self).capacity as int, old(self).pending@, r).1,
            b is Some ==> final(self).elapsed_millis == 0,
            b is None ==> final(self).elapsed_millis == old(self).elapsed_millis,
    {
        self.pending.push(r);
        if self.pending.len() == self.capacity {
            let mut batch: Vec<OutboundRecord> = Vec::new();
            core::mem::swap(&mut batch, &mut self.pending);
            self.elapsed_millis = 0;
            Some(batch)
        } else {
            None
        }
    }

    /// Lets `d` milliseconds pass; emits the whole buffer when the age
    /// trigger is reached with at least one record waiting.
    pub fn elapse(&mut self, d: u64) -> (b: Option<Vec<OutboundRecord>>)
        requires
            old(self).wf(),
        ensures
            final(self).wf(),
            final(self).capacity == old(self).capacity,
            final(self).duration_millis == old(self).duration_millis,
            final(self).elapsed_millis as int == elapse_step(
                old(self).duration_millis as int,
                old(self).elapsed_millis as int,
                old(self).pending@,
                d as int,
            ).0,
            opt_batch(b) == elapse_step(
                old(self).duration_millis as int,
                old(self).elapsed_millis as int,
                old(self).pending@,
                d as int,
            ).1,
            b is None ==> final(self).pending@ == old(self).pending@,
            b is Some ==> final(self).pending@ == Seq::<OutboundRecord>::empty(),
    {
        let t = if d <= u64::MAX - self.elapsed_millis {
            self.elapsed_millis + d
        } else {
            u64::MAX
        };
        if t >= self.duration_millis && self.pending.len() > 0 {
            let mut batch: Vec<OutboundRecord> = Vec::new();
            core::mem::swap(&mut batch, &mut self.pending);
            self.elapsed_millis = 0;
            Some(batch)
        } else {
            self.elapsed_millis = t;
            None
        }
    }

    /// Best-effort drain: emits whatever is buffered, if anything, and
    /// resets the batch age.
    pub fn flush(&mut self) -> (b: Option<Vec<OutboundRecord>>)
        requires
            old(self).wf(),
        ensures
            final(self).wf(),
            final(self).capacity == old(self).capacity,
            final(self).duration_millis == old(self).duration_millis,
            old(self).pending@.len() == 0 ==> b is None && *final(self) == *old(self),
            old(self).pending@.len() > 0 ==> (b matches Some(v) && v@ == old(self).pending@
                && final(self).pending@ == Seq::<OutboundRecord>::empty()
                && final(self).elapsed_millis == 0),
    {
        if self.pending.len() > 0 {
            let mut batch: Vec<OutboundRecord> = Vec::new();
            core::mem::swap(&mut batch, &mut self.pending);
            self.elapsed_millis = 0;
            Some(batch)
        } else {
            None
        }
    }
}

} // verus!
