use vstd::prelude::*;

verus! {

/// Slots of every ring, and the depth used when none is configured.
pub const MAX_SQES: u32 = 4096;

/// The engine's settings, as the command line gives them.
pub struct Opts {
    /// Ask the kernel to run every operation in the background.
    pub async_work: bool,
    /// Target depth of each ring; 0 means the ring's capacity.
    pub sqes: u32,
    /// Bound on the kernel's unbounded workers; 0 keeps the kernel's default.
    pub max_unbounded_workers: u32,
    /// Rings owned by each engine.
    pub num_rings: usize,
    /// Independent engines, one per thread.
    pub num_threads: usize,
    /// CPUs the rings are set up on, cycled over.
    pub cpu: Vec<usize>,
}

impl Default for Opts {
    fn default() -> (r: Opts)
        ensures
            r.async_work == false,
            r.sqes == 0,
            r.max_unbounded_workers == 0,
            r.num_rings == 1,
            r.num_threads == 1,
            r.cpu@ == seq![0usize],
    {
        Opts {
            async_work: false,
            sqes: 0,
            max_unbounded_workers: 0,
            num_rings: 1,
            num_threads: 1,
            cpu: vec![0],
        }
    }
}

impl Opts {
    /// Depth each ring is topped up to.
    pub open spec fn depth_spec(&self) -> u32 {
        if self.sqes > 0 { self.sqes } else { MAX_SQES }
    }

    /// Depth each ring is topped up to: the configured one, or the ring's
    /// capacity when none is configured.
    pub fn target_depth(&self) -> (r: u32)
        ensures
            r == self.depth_spec(),
    {
        if self.sqes > 0 {
            self.sqes
        } else {
            MAX_SQES
        }
    }

    /// The CPUs to cycle over: the configured list, or CPU 0 alone when it is
    /// empty.
    pub fn cpu_list(&self) -> (r: Vec<usize>)
        ensures
            self.cpu@.len() > 0 ==> r@ == self.cpu@,
            self.cpu@.len() == 0 ==> r@ == seq![0usize],
    {
        if self.cpu.len() == 0 {
            vec![0]
        } else {
            self.cpu.clone()
        }
    }

    /// The worker bounds registered with each ring: none for workers with a
    /// fixed execution context, the configured one for unbounded workers.
    pub fn worker_limits(&self) -> (r: [u32; 2])
        ensures
            r@ == seq![0u32, self.max_unbounded_workers],
    {
        let r: [u32; 2] = [0, self.max_unbounded_workers];
        assert(r@ =~= seq![0u32, self.max_unbounded_workers]);
        r
    }

    /// Whether the engine runs on the calling thread instead of on spawned
    /// ones.
    pub fn runs_inline(&self) -> (r: bool)
        ensures
            r == (self.num_threads <= 1),
    {
        self.num_threads <= 1
    }
}

} // verus!
