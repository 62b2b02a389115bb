use vstd::prelude::*;

verus! {

/// Platform error code of a busy kernel.
pub const EBUSY: i32 = 16;

/// Platform error code of a call interrupted by a signal.
pub const EINTR: i32 = 4;

/// What one submission or wait call reported, as plain values.
#[derive(Clone, Copy, Debug, PartialEq, Eq, Structural)]
pub enum SubmitResult {
    /// The call handed this many queued entries to the kernel.
    Submitted(usize),
    /// The wait was interrupted by a signal.
    Interrupted,
    /// The kernel is busy: nothing was taken.
    Busy,
    /// Any other failure, with its platform error code.
    Failed(i32),
}

/// What the driver does after the blocking wait of a pass.
#[derive(Clone, Copy, Debug, PartialEq, Eq, Structural)]
pub enum WaitFlow {
    /// Go on with backlog, refill and completion extraction.
    Proceed,
    /// Leave this ring for now and serve it again on the next pass.
    Retry,
    /// Stop the engine with this error code.
    Fatal(i32),
}

/// What the driver does after it flushed a full queue while draining the backlog.
#[derive(Clone, Copy, Debug, PartialEq, Eq, Structural)]
pub enum FlushFlow {
    /// Room was made: keep draining the backlog.
    Continue,
    /// Stop filling this ring for this pass; resume on the next one.
    StopFilling,
    /// Stop the engine with this error code.
    Fatal(i32),
}

/// One step of moving the backlog into the live queue.
pub enum BacklogStep<E> {
    /// The backlog is empty.
    Empty,
    /// The live queue is full: submit it before the next entry can go in.
    Flush,
    /// Push this entry, the oldest one of the backlog, into the live queue.
    Push(E),
}

/// The mathematical state of one ring.
pub struct RingView<E> {
    /// Slots of the submission queue.
    pub capacity: nat,
    /// Entries written into the submission queue and not yet submitted.
    pub queued: nat,
    /// Entries submitted to the kernel whose completion has not arrived.
    pub in_flight: nat,
    /// Completions that arrived and were not yet extracted.
    pub ready: nat,
    /// Entries that found the queue full, oldest first.
    pub backlog: Seq<E>,
    /// All entries ever generated for this ring.
    pub pushed: nat,
    /// All completions ever extracted from this ring.
    pub drained: nat,
}

/// Bookkeeping of one ring: its queue depth, its backlog, and where every
/// entry it ever received is now.
pub struct RingState<E> {
    capacity: u32,
    queued: u32,
    in_flight: u64,
    ready: u64,
    backlog: Vec<E>,
    pushed: Ghost<nat>,
    drained: Ghost<nat>,
}

/// The smaller of two naturals.
pub open spec fn min_nat(a: nat, b: nat) -> nat {
    if a <= b { a } else { b }
}

impl<E> View for RingState<E> {
    type V = RingView<E>;

    closed spec fn view(&self) -> RingView<E> {
        RingView {
            capacity: self.capacity as nat,
            queued: self.queued as nat,
            in_flight: self.in_flight as nat,
            ready: self.ready as nat,
            backlog: self.backlog@,
            pushed: self.pushed@,
            drained: self.drained@,
        }
    }
}

impl<E> RingView<E> {
    /// Every entry ever generated is queued, in flight, waiting to be
    /// extracted, or in the backlog, unless it was extracted already.
    pub open spec fn conserves(&self) -> bool {
        self.queued + self.in_flight + self.ready + self.backlog.len() + self.drained == self.pushed
    }

    /// Well-formedness: a ring with at least one slot, never over-full, that
    /// loses no entry.
    pub open spec fn wf(&self) -> bool {
        &&& 0 < self.capacity
        &&& self.queued <= self.capacity
        &&& self.conserves()
    }

    /// Whether a submission report of `n` entries can be recorded: the
    /// kernel took no more than was queued, and the count stays in range.
    pub open spec fn can_take(&self, r: SubmitResult) -> bool {
        r matches SubmitResult::Submitted(n) ==> n <= self.queued && self.in_flight + n <= u64::MAX
    }

    /// Free slots of the submission queue.
    pub open spec fn free(&self) -> nat {
        (self.capacity - self.queued) as nat
    }
}

impl<E> RingState<E> {
    /// A fresh ring with `capacity` slots, empty and with no history.
    pub fn new(capacity: u32) -> (r: Self)
        requires
            capacity > 0,
        ensures
            r@.wf(),
            r@.capacity == capacity as nat,
            r@.queued == 0,
            r@.in_flight == 0,
            r@.ready == 0,
            r@.backlog.len() == 0,
            r@.pushed == 0,
            r@.drained == 0,
    {
        RingState {
            capacity,
            queued: 0,
            in_flight: 0,
            ready: 0,
            backlog: Vec::new(),
            pushed: Ghost(0),
            drained: Ghost(0),
        }
    }

    pub fn capacity(&self) -> (r: u32)
        ensures
            r as nat == self@.capacity,
    {
        self.capacity
    }

    /// Entries in the submission queue that were not submitted yet.
    pub fn queued(&self) -> (r: u32)
        ensures
            r as nat == self@.queued,
    {
        self.queued
    }

    /// Submitted entries whose completion has not arrived.
    pub fn in_flight(&self) -> (r: u64)
        ensures
            r as nat == self@.in_flight,
    {
        self.in_flight
    }

    /// Completions that arrived and were not yet extracted.
    pub fn ready(&self) -> (r: u64)
        ensures
            r as nat == self@.ready,
    {
        self.ready
    }

    pub fn backlog_len(&self) -> (r: usize)
        ensures
            r as nat == self@.backlog.len(),
    {
        self.backlog.len()
    }

    /// Whether the submission queue has no free slot.
    pub fn is_full(&self) -> (r: bool)
        requires
            self@.wf(),
        ensures
            r == (self@.queued == self@.capacity),
    {
        self.queued == self.capacity
    }

    /// Tops the queue up with fresh copies of the operation template: as many
    /// as fit, and at most `target`. Nothing new is generated while older
    /// entries wait in the backlog. Returns how many copies the caller writes.
    pub fn fill(&mut self, target: u32) -> (n: u32)
        requires
            old(self)@.wf(),
        ensures
            final(self)@.wf(),
            n as nat == if old(self)@.backlog.len() == 0 {
                min_nat(target as nat, old(self)@.free())
            } else {
                0
            },
            final(self)@.queued == old(self)@.queued + n,
            final(self)@.pushed == old(self)@.pushed + n,
            final(self)@.capacity == old(self)@.capacity,
            final(self)@.in_flight == old(self)@.in_flight,
            final(self)@.ready == old(self)@.ready,
            final(self)@.backlog == old(self)@.backlog,
            final(self)@.drained == old(self)@.drained,
    {
        if self.backlog.len() > 0 {
            return 0;
        }
        let mut n: u32 = 0;
        while n < target && self.queued < self.capacity
            invariant
                self@.wf(),
                self.backlog@.len() == 0,
                n <= target,
                self.queued == old(self).queued + n,
                self@.pushed == old(self)@.pushed + n,
                self.capacity == old(self).capacity,
                self.in_flight == old(self).in_flight,
                self.ready == old(self).ready,
                self.backlog@ == old(self).backlog@,
                self.drained == old(self).drained,
            decreases target - n,
        {
            self.queued = self.queued + 1;
            self.pushed = Ghost(self.pushed@ + 1);
            n = n + 1;
        }
        n
    }

    /// The queue refused an entry that was counted into it: it leaves the
    /// queue and joins the back of the backlog.
    pub fn defer(&mut self, entry: E)
        requires
            old(self)@.wf(),
            old(self)@.queued > 0,
        ensures
            final(self)@.wf(),
            final(self)@.queued == old(self)@.queued - 1,
            final(self)@.backlog == old(self)@.backlog.push(entry),
            final(self)@.capacity == old(self)@.capacity,
            final(self)@.in_flight == old(self)@.in_flight,
            final(self)@.ready == old(self)@.ready,
            final(self)@.pushed == old(self)@.pushed,
            final(self)@.drained == old(self)@.drained,
    {
        self.queued = self.queued - 1;
        self.backlog.push(entry);
    }

    /// One step of draining the backlog into the live queue, oldest entry
    /// first: the queue's fullness is checked before each entry moves.
    pub fn backlog_step(&mut self) -> (r: BacklogStep<E>)
        requires
            old(self)@.wf(),
        ensures
            final(self)@.wf(),
            final(self)@.capacity == old(self)@.capacity,
            final(self)@.in_flight == old(self)@.in_flight,
            final(self)@.ready == old(self)@.ready,
            final(self)@.pushed == old(self)@.pushed,
            final(self)@.drained == old(self)@.drained,
            old(self)@.backlog.len() == 0 ==> r is Empty && final(self)@ == old(self)@,
            old(self)@.backlog.len() > 0 && old(self)@.queued == old(self)@.capacity
                ==> r is Flush && final(self)@ == old(self)@,
            old(self)@.backlog.len() > 0 && old(self)@.queued < old(self)@.capacity ==> {
                &&& r matches BacklogStep::Push(e) && e == old(self)@.backlog[0]
                &&& final(self)@.backlog == old(self)@.backlog.drop_first()
                &&& final(self)@.queued == old(self)@.queued + 1
            },
    {
        if self.backlog.len() == 0 {
            BacklogStep::Empty
        } else if self.queued == self.capacity {
            BacklogStep::Flush
        } else {
            let e = self.backlog.remove(0);
            self.queued = self.queued + 1;
            BacklogStep::Push(e)
        }
    }

    /// The queue refused an entry that `backlog_step` handed out: it goes
    /// back to the front of the backlog, ahead of every younger entry.
    pub fn requeue(&mut self, entry: E)
        requires
            old(self)@.wf(),
            old(self)@.queued > 0,
        ensures
            final(self)@.wf(),
            final(self)@.queued == old(self)@.queued - 1,
            final(self)@.backlog == old(self)@.backlog.insert(0, entry),
            final(self)@.capacity == old(self)@.capacity,
            final(self)@.in_flight == old(self)@.in_flight,
            final(self)@.ready == old(self)@.ready,
            final(self)@.pushed == old(self)@.pushed,
            final(self)@.drained == old(self)@.drained,
    {
        self.queued = self.queued - 1;
        self.backlog.insert(0, entry);
    }

    /// Records `n` queued entries handed to the kernel.
    fn submitted(&mut self, n: usize)
        requires
            old(self)@.wf(),
            n <= old(self)@.queued,
            old(self)@.in_flight + n <= u64::MAX,
        ensures
            final(self)@ == (RingView {
                queued: (old(self)@.queued - n) as nat,
                in_flight: old(self)@.in_flight + n as nat,
                ..old(self)@
            }),
            final(self)@.wf(),
    {
        self.queued = self.queued - n as u32;
        self.in_flight = self.in_flight + n as u64;
    }

    /// Checks `can_take`, for callers that get their reports from the kernel.
    pub fn takes(&self, r: SubmitResult) -> (b: bool)
        ensures
            b == self@.can_take(r),
    {
        match r {
            SubmitResult::Submitted(n) => n as u64 as usize == n && n <= self.queued as usize
                && self.in_flight <= u64::MAX - n as u64,
            _ => true,
        }
    }

    /// Decides on the outcome of the blocking submit-and-wait at the start of
    /// a pass. An interrupted wait changes nothing and retries on the next
    /// pass; any other failure is fatal.
    pub fn on_wait(&mut self, r: SubmitResult) -> (flow: WaitFlow)
        requires
            old(self)@.wf(),
            old(self)@.can_take(r),
        ensures
            final(self)@.wf(),
            match r {
                SubmitResult::Submitted(n) => flow is Proceed && final(self)@ == (RingView {
                    queued: (old(self)@.queued - n) as nat,
                    in_flight: old(self)@.in_flight + n as nat,
                    ..old(self)@
                }),
                SubmitResult::Interrupted => flow is Retry && final(self)@ == old(self)@,
                SubmitResult::Busy => flow == WaitFlow::Fatal(EBUSY) && final(self)@ == old(self)@,
                SubmitResult::Failed(c) => flow == WaitFlow::Fatal(c) && final(self)@ == old(self)@,
            },
    {
        match r {
            SubmitResult::Submitted(n) => {
                self.submitted(n);
                WaitFlow::Proceed
            },
            SubmitResult::Interrupted => WaitFlow::Retry,
            SubmitResult::Busy => WaitFlow::Fatal(EBUSY),
            SubmitResult::Failed(c) => WaitFlow::Fatal(c),
        }
    }

    /// Decides on the outcome of the submit that makes room while the
    /// backlog drains. Draining goes on only if room was made; a busy kernel
    /// or an interrupted call ends filling for this pass; anything else is
    /// fatal.
    pub fn on_flush(&mut self, r: SubmitResult) -> (flow: FlushFlow)
        requires
            old(self)@.wf(),
            old(self)@.can_take(r),
        ensures
            final(self)@.wf(),
            match r {
                SubmitResult::Submitted(n) => final(self)@ == (RingView {
                    queued: (old(self)@.queued - n) as nat,
                    in_flight: old(self)@.in_flight + n as nat,
                    ..old(self)@
                }) && (if n > 0 { flow is Continue } else { flow is StopFilling }),
                SubmitResult::Interrupted => flow is StopFilling && final(self)@ == old(self)@,
                SubmitResult::Busy => flow is StopFilling && final(self)@ == old(self)@,
                SubmitResult::Failed(c) => flow == FlushFlow::Fatal(c) && final(self)@ == old(self)@,
            },
    {
        match r {
            SubmitResult::Submitted(n) => {
                self.submitted(n);
                if n > 0 {
                    FlushFlow::Continue
                } else {
                    FlushFlow::StopFilling
                }
            },
            SubmitResult::Interrupted => FlushFlow::StopFilling,
            SubmitResult::Busy => FlushFlow::StopFilling,
            SubmitResult::Failed(c) => FlushFlow::Fatal(c),
        }
    }

    /// Records `c` completions that the kernel reported ready.
    pub fn on_arrived(&mut self, c: u64)
        requires
            old(self)@.wf(),
            c <= old(self)@.in_flight,
            old(self)@.ready + c <= u64::MAX,
        ensures
            final(self)@.wf(),
            final(self)@ == (RingView {
                in_flight: (old(self)@.in_flight - c) as nat,
                ready: old(self)@.ready + c as nat,
                ..old(self)@
            }),
    {
        self.in_flight = self.in_flight - c;
        self.ready = self.ready + c;
    }

    /// Hands `k` ready completions to the result handler.
    pub fn take_ready(&mut self, k: u64)
        requires
            old(self)@.wf(),
            k <= old(self)@.ready,
        ensures
            final(self)@.wf(),
            final(self)@ == (RingView {
                ready: (old(self)@.ready - k) as nat,
                drained: old(self)@.drained + k as nat,
                ..old(self)@
            }),
    {
        self.ready = self.ready - k;
        self.drained = Ghost(self.drained@ + k as nat);
    }
}

/// Fill depth: a fill into an empty queue with an empty backlog leaves the
/// queue holding exactly `min(d, capacity)` entries for a target depth `d`.
pub proof fn lemma_fill_depth<E>(before: RingView<E>, after: RingView<E>, d: nat, n: nat)
    requires
        before.wf(),
        before.queued == 0,
        before.backlog.len() == 0,
        n == min_nat(d, before.free()),
        after.queued == before.queued + n,
    ensures
        after.queued == min_nat(d, before.capacity),
{
}

/// No entry is lost: in a well-formed ring, the entries queued, in flight,
/// completed but not yet extracted, and waiting in the backlog together number
/// exactly those ever generated minus those ever extracted.
pub proof fn lemma_no_entry_lost<E>(r: &RingState<E>)
    requires
        r@.wf(),
    ensures
        r@.queued + r@.in_flight + r@.ready + r@.backlog.len() == r@.pushed - r@.drained,
{
}

/// Backlog order: of two entries deferred one after the other, the first
/// reaches the front of the backlog, and so leaves it, before the second,
/// whatever waited ahead of them and whatever is deferred after them. Each
/// step of draining drops the front entry.
pub proof fn lemma_backlog_fifo<E>(ahead: Seq<E>, a: E, b: E, behind: Seq<E>)
    ensures
        ({
            let q = ahead.push(a).push(b) + behind;
            &&& q.skip(ahead.len() as int)[0] == a
            &&& q.skip(ahead.len() as int).drop_first()[0] == b
            &&& forall|k: int| 0 <= k < ahead.len() ==> #[trigger] q.skip(k).drop_first() == q.skip(k + 1)
        }),
{
    let q = ahead.push(a).push(b) + behind;
    assert(q[ahead.len() as int] == a);
    assert(q[ahead.len() + 1int] == b);
    assert forall|k: int| 0 <= k < ahead.len() implies #[trigger] q.skip(k).drop_first() == q.skip(k + 1) by {
        assert(q.skip(k).drop_first() =~= q.skip(k + 1));
    }
}

} // verus!
