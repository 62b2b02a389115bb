use vstd::prelude::*;

verus! {

/// The CPUs assigned to rings in turn, wrapping around a non-empty list.
pub struct CpuCycle {
    cpus: Vec<usize>,
    next: usize,
    taken: Ghost<nat>,
}

impl CpuCycle {
    /// The list cycled over.
    pub closed spec fn cpus(&self) -> Seq<usize> {
        self.cpus@
    }

    /// How many CPUs were handed out so far.
    pub closed spec fn taken(&self) -> nat {
        self.taken@
    }

    pub closed spec fn wf(&self) -> bool {
        &&& self.cpus@.len() > 0
        &&& self.next == self.taken@ % (self.cpus@.len() as nat)
    }

    /// A cycle over `cpus`, or over CPU 0 alone when `cpus` is empty.
    pub fn new(cpus: Vec<usize>) -> (r: CpuCycle)
        ensures
            r.wf(),
            r.taken() == 0,
            cpus@.len() > 0 ==> r.cpus() == cpus@,
            cpus@.len() == 0 ==> r.cpus() == seq![0usize],
    {
        let cpus = if cpus.len() == 0 {
            vec![0]
        } else {
            cpus
        };
        proof {
            vstd::arithmetic::div_mod::lemma_small_mod(0, cpus@.len() as nat);
        }
        CpuCycle { cpus, next: 0, taken: Ghost(0) }
    }

    /// The CPU for the next ring: the k-th call returns entry k of the list,
    /// counted modulo its length.
    pub fn next_cpu(&mut self) -> (r: usize)
        requires
            old(self).wf(),
        ensures
            final(self).wf(),
            final(self).cpus() == old(self).cpus(),
            final(self).taken() == old(self).taken() + 1,
            r == old(self).cpus()[(old(self).taken() % (old(self).cpus().len() as nat)) as int],
    {
        let r = self.cpus[self.next];
        let len = self.cpus.len();
        proof {
            let t = self.taken@;
            let l = len as nat;
            assert(t % l < l);
            let m = t % l;
            let q = t / l;
            vstd::arithmetic::div_mod::lemma_fundamental_div_mod(t as int, l as int);
            assert(l * q == q * l) by (nonlinear_arith);
            if m + 1 < l {
                vstd::arithmetic::div_mod::lemma_fundamental_div_mod_converse(
                    (t + 1) as int, l as int, q as int, (m + 1) as int);
            } else {
                assert((t + 1) as int == (q + 1) * l) by (nonlinear_arith)
                    requires t == q * l + m, m + 1 == l;
                vstd::arithmetic::div_mod::lemma_fundamental_div_mod_converse(
                    (t + 1) as int, l as int, (q + 1) as int, 0);
            }
        }
        self.next = if self.next + 1 == len {
            0
        } else {
            self.next + 1
        };
        self.taken = Ghost(self.taken@ + 1);
        r
    }
}

} // verus!
