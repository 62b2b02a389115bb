use vstd::prelude::*;
use crate::ring::{BacklogStep, FlushFlow, RingState, RingView, SubmitResult, WaitFlow};

verus! {

/// Where the pass over the current ring stands.
#[derive(Clone, Copy, Debug, PartialEq, Eq, Structural)]
pub enum Stage {
    /// Submit and wait for at least one completion.
    Wait,
    /// Move the backlog into the live queue, then top the queue up with
    /// fresh copies of the template.
    Backlog,
    /// Hand the ready completions to the result handler.
    Extract,
}

/// The next thing the caller performs on the rings.
pub enum PassAction<E> {
    /// Submit ring `ring`'s queued entries and wait for one completion, then
    /// report with `on_wait`.
    Wait { ring: usize },
    /// Submit ring `ring`'s full queue to make room, then report with `on_flush`.
    Flush { ring: usize },
    /// Write this backlog entry into ring `ring`'s queue; if the queue refuses
    /// it, hand it back with `on_refused`.
    PushBacklog { ring: usize, entry: E },
    /// Write `count` copies of the template into ring `ring`'s queue; hand the
    /// copies it refuses to `on_refused`.
    PushTemplates { ring: usize, count: u32 },
    /// Take up to `ready` completions of ring `ring` for the result handler,
    /// then report with `on_extracted`.
    Extract { ring: usize, ready: u64 },
}

/// Steady-state driver of a pool of rings: one pass per ring in pool order,
/// each pass waiting, draining the backlog, refilling and extracting.
pub struct Driver<E> {
    rings: Vec<RingState<E>>,
    target: u32,
    cur: usize,
    stage: Stage,
}

impl<E> Driver<E> {
    pub closed spec fn num_rings(&self) -> nat {
        self.rings@.len()
    }

    /// The state of ring `i`.
    pub closed spec fn ring(&self, i: int) -> RingView<E> {
        self.rings@[i]@
    }

    /// The ring being served.
    pub closed spec fn cur(&self) -> nat {
        self.cur as nat
    }

    pub closed spec fn stage(&self) -> Stage {
        self.stage
    }

    /// Depth each ring is topped up to.
    pub closed spec fn target(&self) -> nat {
        self.target as nat
    }

    pub closed spec fn wf(&self) -> bool {
        &&& self.rings@.len() > 0
        &&& self.cur < self.rings@.len()
        &&& forall|i: int| 0 <= i < self.rings@.len() ==> #[trigger] self.rings@[i]@.wf()
    }

    /// Whether ring `i` is as before and every other ring too.
    pub open spec fn others_unchanged(&self, old: &Self, i: int) -> bool {
        &&& self.num_rings() == old.num_rings()
        &&& self.target() == old.target()
        &&& forall|j: int| 0 <= j < self.num_rings() && j != i ==> #[trigger] self.ring(j) == old.ring(j)
    }

    /// Whether nothing changed: every ring, the ring served and the stage.
    pub open spec fn unchanged_from(&self, old: &Self) -> bool {
        &&& self.cur() == old.cur()
        &&& self.stage() == old.stage()
        &&& self.others_unchanged(old, -1)
    }

    /// A pool of `num_rings` empty rings of `capacity` slots, each topped up
    /// to `target`; service starts with ring 0.
    pub fn new(num_rings: usize, capacity: u32, target: u32) -> (r: Self)
        requires
            num_rings > 0,
            capacity > 0,
        ensures
            r.wf(),
            r.num_rings() == num_rings,
            r.target() == target,
            r.cur() == 0,
            r.stage() == Stage::Wait,
            forall|i: int| #![trigger r.ring(i)] 0 <= i < num_rings ==> {
                &&& r.ring(i).capacity == capacity
                &&& r.ring(i).queued == 0
                &&& r.ring(i).in_flight == 0
                &&& r.ring(i).ready == 0
                &&& r.ring(i).backlog.len() == 0
                &&& r.ring(i).pushed == 0
                &&& r.ring(i).drained == 0
            },
    {
        let mut rings: Vec<RingState<E>> = Vec::with_capacity(num_rings);
        let mut k: usize = 0;
        while k < num_rings
            invariant
                capacity > 0,
                k <= num_rings,
                rings@.len() == k,
                forall|i: int| 0 <= i < k ==> {
                    &&& (#[trigger] rings@[i])@.wf()
                    &&& rings@[i]@.capacity == capacity
                    &&& rings@[i]@.queued == 0
                    &&& rings@[i]@.in_flight == 0
                    &&& rings@[i]@.ready == 0
                    &&& rings@[i]@.backlog.len() == 0
                    &&& rings@[i]@.pushed == 0
                    &&& rings@[i]@.drained == 0
                },
            decreases num_rings - k,
        {
            rings.push(RingState::new(capacity));
            k = k + 1;
        }
        Driver { rings, target, cur: 0, stage: Stage::Wait }
    }

    /// The state of ring `i`, for the caller's own checks.
    pub fn ring_state(&self, i: usize) -> (r: &RingState<E>)
        requires
            i < self.num_rings(),
        ensures
            r@ == self.ring(i as int),
    {
        &self.rings[i]
    }

    /// Counts fresh copies of the template into ring `i` at setup: as many as
    /// fit, and at most the target depth. Returns how many the caller writes.
    pub fn prime(&mut self, i: usize) -> (n: u32)
        requires
            old(self).wf(),
            i < old(self).num_rings(),
        ensures
            final(self).wf(),
            final(self).cur() == old(self).cur(),
            final(self).stage() == old(self).stage(),
            final(self).others_unchanged(old(self), i as int),
            n as nat == if old(self).ring(i as int).backlog.len() == 0 {
                crate::ring::min_nat(old(self).target(), old(self).ring(i as int).free())
            } else {
                0
            },
            final(self).ring(i as int) == (RingView {
                queued: old(self).ring(i as int).queued + n as nat,
                pushed: old(self).ring(i as int).pushed + n as nat,
                ..old(self).ring(i as int)
            }),
    {
        let t = self.target;
        self.rings[i].fill(t)
    }

    /// Records the first submission of ring `i` at setup; any failure is
    /// returned with its platform error code.
    pub fn on_primed(&mut self, i: usize, r: SubmitResult) -> (res: Result<(), i32>)
        requires
            old(self).wf(),
            i < old(self).num_rings(),
            old(self).ring(i as int).can_take(r),
        ensures
            final(self).wf(),
            final(self).cur() == old(self).cur(),
            final(self).stage() == old(self).stage(),
            final(self).others_unchanged(old(self), i as int),
            match r {
                SubmitResult::Submitted(n) => res is Ok && final(self).ring(i as int) == (RingView {
                    queued: (old(self).ring(i as int).queued - n) as nat,
                    in_flight: old(self).ring(i as int).in_flight + n as nat,
                    ..old(self).ring(i as int)
                }),
                SubmitResult::Interrupted => res == Err::<(), i32>(crate::ring::EINTR)
                    && final(self).ring(i as int) == old(self).ring(i as int),
                SubmitResult::Busy => res == Err::<(), i32>(crate::ring::EBUSY)
                    && final(self).ring(i as int) == old(self).ring(i as int),
                SubmitResult::Failed(c) => res == Err::<(), i32>(c)
                    && final(self).ring(i as int) == old(self).ring(i as int),
            },
    {
        match r {
            SubmitResult::Submitted(_) => {
                let _ = self.rings[i].on_wait(r);
                Ok(())
            },
            SubmitResult::Interrupted => Err(crate::ring::EINTR),
            SubmitResult::Busy => Err(crate::ring::EBUSY),
            SubmitResult::Failed(c) => Err(c),
        }
    }

    /// Ring `i`'s queue refused a copy of the template counted into it at
    /// setup: the copy joins the back of that ring's backlog.
    pub fn on_primed_refused(&mut self, i: usize, entry: E)
        requires
            old(self).wf(),
            i < old(self).num_rings(),
            old(self).ring(i as int).queued > 0,
        ensures
            final(self).wf(),
            final(self).cur() == old(self).cur(),
            final(self).stage() == old(self).stage(),
            final(self).others_unchanged(old(self), i as int),
            final(self).ring(i as int) == (RingView {
                queued: (old(self).ring(i as int).queued - 1) as nat,
                backlog: old(self).ring(i as int).backlog.push(entry),
                ..old(self).ring(i as int)
            }),
    {
        let ghost pre = self.rings@[i as int]@;
        assert(pre.wf());
        self.rings[i].defer(entry);
    }

    /// Moves service on to the next ring in pool order, wrapping around.
    fn next_ring(&mut self)
        requires
            old(self).wf(),
        ensures
            final(self).wf(),
            final(self).rings == old(self).rings,
            final(self).target == old(self).target,
            final(self).stage == Stage::Wait,
            final(self).cur as int == (old(self).cur + 1) % (old(self).num_rings() as int),
    {
        let n = self.rings.len();
        proof {
            vstd::arithmetic::div_mod::lemma_mod_self_0(n as int);
            if self.cur + 1 < n {
                vstd::arithmetic::div_mod::lemma_small_mod((self.cur + 1) as nat, n as nat);
            }
        }
        self.cur = if self.cur + 1 == n {
            0
        } else {
            self.cur + 1
        };
        self.stage = Stage::Wait;
    }

    /// The next action of the pass over the current ring. The backlog is
    /// always drained before fresh copies are counted in.
    pub fn next_action(&mut self) -> (a: PassAction<E>)
        requires
            old(self).wf(),
        ensures
            final(self).wf(),
            final(self).cur() == old(self).cur(),
            final(self).others_unchanged(old(self), old(self).cur() as int),
            ({
                let i = old(self).cur() as int;
                let o = old(self).ring(i);
                let f = final(self).ring(i);
                match old(self).stage() {
                    Stage::Wait => a == (PassAction::<E>::Wait { ring: i as usize }) && f == o
                        && final(self).stage() == Stage::Wait,
                    Stage::Extract => a == (PassAction::<E>::Extract { ring: i as usize, ready: o.ready as u64 })
                        && f == o && final(self).stage() == Stage::Extract,
                    Stage::Backlog => {
                        if o.backlog.len() > 0 {
                            if o.queued == o.capacity {
                                a == (PassAction::<E>::Flush { ring: i as usize }) && f == o
                                    && final(self).stage() == Stage::Backlog
                            } else {
                                &&& a == (PassAction::PushBacklog { ring: i as usize, entry: o.backlog[0] })
                                &&& f == (RingView { queued: o.queued + 1, backlog: o.backlog.drop_first(), ..o })
                                &&& final(self).stage() == Stage::Backlog
                            }
                        } else {
                            &&& a matches PassAction::PushTemplates { ring, count }
                            &&& ring == i
                            &&& count as nat == if o.backlog.len() == 0 {
                                crate::ring::min_nat(old(self).target(), o.free())
                            } else {
                                0
                            }
                            &&& f == (RingView { queued: o.queued + count as nat, pushed: o.pushed + count as nat, ..o })
                            &&& final(self).stage() == Stage::Extract
                        }
                    },
                }
            }),
    {
        let i = self.cur;
        match self.stage {
            Stage::Wait => PassAction::Wait { ring: i },
            Stage::Extract => PassAction::Extract { ring: i, ready: self.rings[i].ready() },
            Stage::Backlog => {
                let ghost pre = self.rings@[i as int]@;
                assert(pre.wf());
                let step = self.rings[i].backlog_step();
                match step {
                    BacklogStep::Flush => {
                        return PassAction::Flush { ring: i };
                    },
                    BacklogStep::Push(entry) => {
                        return PassAction::PushBacklog { ring: i, entry };
                    },
                    BacklogStep::Empty => {},
                }
                let t = self.target;
                let count = self.rings[i].fill(t);
                self.stage = Stage::Extract;
                PassAction::PushTemplates { ring: i, count }
            },
        }
    }

    /// Whether a wait report can be recorded for the current ring: the
    /// kernel took no more than was queued, and `available` completions, the
    /// ones not extracted yet included, are no more than were outstanding.
    pub open spec fn wait_fits(&self, r: SubmitResult, available: u64) -> bool {
        let o = self.ring(self.cur() as int);
        &&& o.can_take(r)
        &&& r matches SubmitResult::Submitted(n) ==> o.ready <= available <= o.ready + o.in_flight + n
    }

    /// Checks `wait_fits`, for callers that get their reports from the kernel.
    pub fn wait_report_fits(&self, r: SubmitResult, available: u64) -> (b: bool)
        requires
            self.wf(),
        ensures
            b == self.wait_fits(r, available),
    {
        let o = &self.rings[self.cur];
        match r {
            SubmitResult::Submitted(n) => {
                n as u64 as usize == n && n <= o.queued() as usize && o.in_flight() <= u64::MAX - n as u64
                    && o.ready() <= available && available - o.ready() <= o.in_flight() + n as u64
            },
            _ => true,
        }
    }

    /// Records the outcome of the wait that opens the pass over the current
    /// ring, with the number of completions then `available`. On success
    /// the pass goes on with the backlog. An interrupted wait changes no ring
    /// and moves on to the next one; the ring is served again next round.
    /// Any other failure is returned as fatal.
    pub fn on_wait(&mut self, r: SubmitResult, available: u64) -> (res: Result<(), i32>)
        requires
            old(self).wf(),
            old(self).stage() == Stage::Wait,
            old(self).wait_fits(r, available),
        ensures
            final(self).wf(),
            r matches SubmitResult::Submitted(n) ==> {
                let i = old(self).cur() as int;
                let o = old(self).ring(i);
                &&& res is Ok
                &&& final(self).cur() == old(self).cur()
                &&& final(self).stage() == Stage::Backlog
                &&& final(self).others_unchanged(old(self), i)
                &&& final(self).ring(i) == (RingView {
                    queued: (o.queued - n) as nat,
                    in_flight: (o.in_flight + n - (available - o.ready)) as nat,
                    ready: available as nat,
                    ..o
                })
            },
            r is Interrupted ==> {
                &&& res is Ok
                &&& final(self).cur() == (old(self).cur() + 1) % old(self).num_rings()
                &&& final(self).stage() == Stage::Wait
                &&& final(self).others_unchanged(old(self), -1)
            },
            r is Busy ==> res == Err::<(), i32>(crate::ring::EBUSY) && final(self).unchanged_from(old(self)),
            r matches SubmitResult::Failed(c) ==> res == Err::<(), i32>(c) && final(self).unchanged_from(old(self)),
    {
        let i = self.cur;
        let ghost pre = self.rings@[i as int]@;
        assert(pre.wf());
        let ready = self.rings[i].ready();
        let flow = self.rings[i].on_wait(r);
        match flow {
            WaitFlow::Proceed => {
                self.rings[i].on_arrived(available - ready);
                self.stage = Stage::Backlog;
                Ok(())
            },
            WaitFlow::Retry => {
                self.next_ring();
                Ok(())
            },
            WaitFlow::Fatal(c) => Err(c),
        }
    }

    /// Records the outcome of the submit that made room for the backlog of
    /// the current ring. Draining goes on when room was made; a busy kernel,
    /// an interrupted call or a submit that took nothing ends filling for this
    /// pass; any other failure is returned as fatal.
    pub fn on_flush(&mut self, r: SubmitResult) -> (res: Result<(), i32>)
        requires
            old(self).wf(),
            old(self).stage() == Stage::Backlog,
            old(self).ring(old(self).cur() as int).can_take(r),
        ensures
            final(self).wf(),
            final(self).cur() == old(self).cur(),
            r matches SubmitResult::Submitted(n) ==> {
                let i = old(self).cur() as int;
                let o = old(self).ring(i);
                &&& res is Ok
                &&& final(self).others_unchanged(old(self), i)
                &&& final(self).ring(i) == (RingView {
                    queued: (o.queued - n) as nat,
                    in_flight: o.in_flight + n as nat,
                    ..o
                })
                &&& final(self).stage() == if n > 0 { Stage::Backlog } else { Stage::Extract }
            },
            r is Interrupted || r is Busy ==> {
                &&& res is Ok
                &&& final(self).others_unchanged(old(self), -1)
                &&& final(self).stage() == Stage::Extract
            },
            r matches SubmitResult::Failed(c) ==> res == Err::<(), i32>(c) && final(self).unchanged_from(old(self)),
    {
        let i = self.cur;
        let ghost pre = self.rings@[i as int]@;
        assert(pre.wf());
        let flow = self.rings[i].on_flush(r);
        match flow {
            FlushFlow::Continue => Ok(()),
            FlushFlow::StopFilling => {
                self.stage = Stage::Extract;
                Ok(())
            },
            FlushFlow::Fatal(c) => Err(c),
        }
    }

    /// The current ring's queue refused an entry that was counted into it.
    /// A backlog entry goes back to the front of the backlog and filling
    /// stops for this pass; a fresh copy joins the back of the backlog.
    pub fn on_refused(&mut self, entry: E)
        requires
            old(self).wf(),
            old(self).ring(old(self).cur() as int).queued > 0,
        ensures
            final(self).wf(),
            final(self).cur() == old(self).cur(),
            final(self).others_unchanged(old(self), old(self).cur() as int),
            ({
                let i = old(self).cur() as int;
                let o = old(self).ring(i);
                if old(self).stage() == Stage::Backlog {
                    &&& final(self).ring(i) == (RingView {
                        queued: (o.queued - 1) as nat,
                        backlog: o.backlog.insert(0, entry),
                        ..o
                    })
                    &&& final(self).stage() == Stage::Extract
                } else {
                    &&& final(self).ring(i) == (RingView {
                        queued: (o.queued - 1) as nat,
                        backlog: o.backlog.push(entry),
                        ..o
                    })
                    &&& final(self).stage() == old(self).stage()
                }
            }),
    {
        let i = self.cur;
        let ghost pre = self.rings@[i as int]@;
        assert(pre.wf());
        if self.stage == Stage::Backlog {
            self.rings[i].requeue(entry);
            self.stage = Stage::Extract;
        } else {
            self.rings[i].defer(entry);
        }
    }

    /// Records that `taken` ready completions of the current ring went to the
    /// result handler, and moves on to the next ring.
    pub fn on_extracted(&mut self, taken: u64)
        requires
            old(self).wf(),
            old(self).stage() == Stage::Extract,
            taken <= old(self).ring(old(self).cur() as int).ready,
        ensures
            final(self).wf(),
            final(self).cur() == (old(self).cur() + 1) % old(self).num_rings(),
            final(self).stage() == Stage::Wait,
            final(self).others_unchanged(old(self), old(self).cur() as int),
            ({
                let o = old(self).ring(old(self).cur() as int);
                final(self).ring(old(self).cur() as int) == (RingView {
                    ready: (o.ready - taken) as nat,
                    drained: o.drained + taken as nat,
                    ..o
                })
            }),
    {
        let i = self.cur;
        let ghost pre = self.rings@[i as int]@;
        assert(pre.wf());
        self.rings[i].take_ready(taken);
        self.next_ring();
    }
}

} // verus!
