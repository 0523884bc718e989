//! Mixing the channels and cutting the machine-cycle sample stream down to
//! the output rate: 8192 samples become 375 by summing blocks of 22 (317
//! blocks) then of 21 (58 blocks).
use vstd::prelude::*;

verus! {

/// Samples collected before a block is cut down.
pub const BLOCK: usize = 8192;
/// Output samples per block.
pub const OUT_BLOCK: usize = 375;
/// Blocks of 22 source samples; the rest are blocks of 21.
pub const LONG_RUNS: usize = 317;
/// Largest sample component accepted.
pub const SAMPLE_LIMIT: u32 = 65536;

/// The sum of `len` samples of `s` from `start`, per side.
pub open spec fn run_sum(s: Seq<(u32, u32)>, start: int, len: int) -> (int, int)
    decreases len,
{
    if len <= 0 {
        (0, 0)
    } else {
        let p = run_sum(s, start, len - 1);
        (p.0 + s[start + len - 1].0, p.1 + s[start + len - 1].1)
    }
}

/// Where output sample `k` starts and how many source samples it sums.
pub open spec fn run_of(k: int) -> (int, int) {
    if k < LONG_RUNS { (22 * k, 22) } else { (22 * LONG_RUNS + 21 * (k - LONG_RUNS), 21) }
}

/// The cut-down block: each output sample is the sum of its run.
pub open spec fn downsampled(s: Seq<(u32, u32)>) -> Seq<(u32, u32)> {
    Seq::new(
        OUT_BLOCK as nat,
        |k: int| (run_sum(s, run_of(k).0, run_of(k).1).0 as u32, run_sum(s, run_of(k).0, run_of(k).1).1 as u32),
    )
}

pub struct Sampler {
    pub sample_buffer: Vec<(u32, u32)>,
    /// Real-time pacing: a full block is always taken.
    pub limit_framerate: bool,
}

impl Sampler {
    pub open spec fn wf(&self) -> bool {
        &&& self.sample_buffer.len() <= BLOCK
        &&& forall|i: int| 0 <= i < self.sample_buffer.len() ==> #[trigger] self.sample_buffer@[i].0
            < SAMPLE_LIMIT && self.sample_buffer@[i].1 < SAMPLE_LIMIT
    }

    /// The buffer after pushing `sample`, and the cut-down block taken, if
    /// any.
    pub open spec fn spec_push(&self, sample: (u32, u32), interval_elapsed: bool) -> (Seq<(u32, u32)>, Option<Seq<(u32, u32)>>) {
        let full = if self.sample_buffer.len() < BLOCK {
            self.sample_buffer@.push(sample)
        } else {
            self.sample_buffer@
        };
        if full.len() == BLOCK && (self.limit_framerate || interval_elapsed) {
            (Seq::empty(), Some(downsampled(full)))
        } else {
            (full, None)
        }
    }

    pub fn new() -> (r: Sampler)
        ensures
            r.wf(),
            r.sample_buffer@.len() == 0,
            r.limit_framerate,
    {
        Sampler { sample_buffer: Vec::new(), limit_framerate: true }
    }

    /// Adds a sample while the block has room. A full block is cut down and
    /// returned when pacing is on or `interval_elapsed` says the consumer is
    /// due; otherwise it is kept and later samples are dropped.
    pub fn push_sample(&mut self, sample: (u32, u32), interval_elapsed: bool) -> (r: Option<Vec<(u32, u32)>>)
        requires
            old(self).wf(),
            sample.0 < SAMPLE_LIMIT && sample.1 < SAMPLE_LIMIT,
        ensures
            final(self).wf(),
            final(self).limit_framerate == old(self).limit_framerate,
            final(self).sample_buffer@ == old(self).spec_push(sample, interval_elapsed).0,
            (r matches Some(v) ==> old(self).spec_push(sample, interval_elapsed).1 == Some(v@)),
            (r is None ==> old(self).spec_push(sample, interval_elapsed).1 is None),
            ({
                let full = if old(self).sample_buffer.len() < BLOCK {
                    old(self).sample_buffer@.push(sample)
                } else {
                    old(self).sample_buffer@
                };
                if full.len() == BLOCK && (old(self).limit_framerate || interval_elapsed) {
                    (r matches Some(v) && v@ == downsampled(full)) && final(self).sample_buffer@.len() == 0
                } else {
                    r is None && final(self).sample_buffer@ == full
                }
            }),
    {
        if self.sample_buffer.len() < BLOCK {
            self.sample_buffer.push(sample);
        }
        if self.sample_buffer.len() == BLOCK && (self.limit_framerate || interval_elapsed) {
            let out = downsample(&self.sample_buffer);
            self.sample_buffer = Vec::new();
            Some(out)
        } else {
            None
        }
    }
}

/// Sums `len` samples from `start`.
fn sum_run(s: &Vec<(u32, u32)>, start: usize, len: usize) -> (r: (u32, u32))
    requires
        start + len <= s.len(),
        len <= 22,
        forall|i: int| 0 <= i < s.len() ==> #[trigger] s@[i].0 < SAMPLE_LIMIT && s@[i].1 < SAMPLE_LIMIT,
    ensures
        r.0 == run_sum(s@, start as int, len as int).0,
        r.1 == run_sum(s@, start as int, len as int).1,
{
    let mut l: u32 = 0;
    let mut rr: u32 = 0;
    let mut j: usize = 0;
    while j < len
        invariant
            j <= len <= 22,
            start + len <= s.len(),
            forall|i: int| 0 <= i < s.len() ==> #[trigger] s@[i].0 < SAMPLE_LIMIT && s@[i].1 < SAMPLE_LIMIT,
            l == run_sum(s@, start as int, j as int).0,
            rr == run_sum(s@, start as int, j as int).1,
            l <= j * SAMPLE_LIMIT && rr <= j * SAMPLE_LIMIT,
        decreases len - j,
    {
        let (a, b) = s[start + j];
        l = l + a;
        rr = rr + b;
        j = j + 1;
    }
    (l, rr)
}

/// Cuts a full block down to 375 run sums.
fn downsample(s: &Vec<(u32, u32)>) -> (r: Vec<(u32, u32)>)
    requires
        s.len() == BLOCK,
        forall|i: int| 0 <= i < s.len() ==> #[trigger] s@[i].0 < SAMPLE_LIMIT && s@[i].1 < SAMPLE_LIMIT,
    ensures
        r@ == downsampled(s@),
{
    let mut out: Vec<(u32, u32)> = Vec::new();
    let mut k: usize = 0;
    while k < OUT_BLOCK
        invariant
            k <= OUT_BLOCK,
            s.len() == BLOCK,
            forall|i: int| 0 <= i < s.len() ==> #[trigger] s@[i].0 < SAMPLE_LIMIT && s@[i].1 < SAMPLE_LIMIT,
            out@.len() == k,
            forall|j: int| 0 <= j < k ==> #[trigger] out@[j] == downsampled(s@)[j],
        decreases OUT_BLOCK - k,
    {
        let (start, len) = if k < LONG_RUNS {
            (22 * k, 22)
        } else {
            (22 * LONG_RUNS + 21 * (k - LONG_RUNS), 21)
        };
        let sums = sum_run(s, start, len);
        out.push(sums);
        k = k + 1;
    }
    assert(out@ =~= downsampled(s@));
    out
}

} // verus!
