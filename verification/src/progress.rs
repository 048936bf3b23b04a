// The progress tracker: accumulates byte counts from the copy loop and, at
// most once per threshold interval, computes the figures for one status line.
// Writing the line to the error stream is presentation and is left to the
// program around the library; the decision to render and the figures rendered
// are verified here.

use vstd::prelude::*;

verus! {

/// The figures of one status line: a throughput in bytes per second, and a
/// percentage complete that is present exactly when the total size of the
/// input was known at startup.
pub struct Render {
    pub bytes_per_sec: u64,
    pub percent: Option<u64>,
}

/// Accumulates the bytes the copy loop reports and decides when a status
/// line may be rendered: at most once per `thresh_millis` of elapsed time.
pub struct ProgressTracker {
    /// Minimum interval between renders, in milliseconds.
    pub thresh_millis: u64,
    /// Known total size of the input in bytes; 0 when unknown.
    pub total_size: u64,
    /// Lifetime bytes processed.
    pub processed: u64,
    /// Bytes processed since the last render.
    pub since_render: u64,
    /// Elapsed time, in milliseconds, at which the last render fired.
    pub last_render_millis: u64,
}

/// The throughput figure: bytes per second over the interval, saturated at
/// `u64::MAX`.
pub open spec fn rate_spec(bytes: u64, gap_millis: u64) -> u64
    recommends
        gap_millis > 0,
{
    if bytes * 1000 / (gap_millis as int) > u64::MAX {
        u64::MAX
    } else {
        (bytes * 1000 / (gap_millis as int)) as u64
    }
}

/// The percentage figure: lifetime bytes over the total size, clamped to 100.
pub open spec fn percent_spec(done: u64, size: u64) -> u64
    recommends
        size > 0,
{
    if done * 100 / (size as int) > 100 {
        100
    } else {
        (done * 100 / (size as int)) as u64
    }
}

impl ProgressTracker {
    pub open spec fn wf(self) -> bool {
        self.since_render <= self.processed
    }

    /// A call at elapsed time `t` renders exactly when the gap since the last
    /// render has reached the threshold and is not zero (a zero-length
    /// interval is skipped rather than divided by).
    pub open spec fn renders_at(self, elapsed_millis: u64) -> bool {
        &&& elapsed_millis > self.last_render_millis
        &&& elapsed_millis - self.last_render_millis >= self.thresh_millis
    }

    pub fn new(thresh_millis: u64) -> (r: ProgressTracker)
        ensures
            r.wf(),
            r.thresh_millis == thresh_millis,
            r.total_size == 0,
            r.processed == 0,
            r.since_render == 0,
            r.last_render_millis == 0,
    {
        ProgressTracker {
            thresh_millis,
            total_size: 0,
            processed: 0,
            since_render: 0,
            last_render_millis: 0,
        }
    }

    /// Records the total size declared for the input at startup.
    pub fn set_size(&mut self, size: u64)
        ensures
            final(self).total_size == size,
            final(self).thresh_millis == old(self).thresh_millis,
            final(self).processed == old(self).processed,
            final(self).since_render == old(self).since_render,
            final(self).last_render_millis == old(self).last_render_millis,
    {
        self.total_size = size;
    }

    /// One per-cycle report from the copy loop: `bytes` were processed this
    /// cycle, and `elapsed_millis` have elapsed since the copy began.  The
    /// counters always accumulate; a `Render` comes back exactly when the
    /// threshold interval has passed since the last render, and then the
    /// since-render counter starts over.
    pub fn update_status(&mut self, bytes: u64, elapsed_millis: u64) -> (r: Option<Render>)
        requires
            old(self).wf(),
            old(self).processed + bytes <= u64::MAX,
            elapsed_millis >= old(self).last_render_millis,
        ensures
            final(self).wf(),
            final(self).thresh_millis == old(self).thresh_millis,
            final(self).total_size == old(self).total_size,
            final(self).processed == old(self).processed + bytes,
            old(self).renders_at(elapsed_millis) ==> {
                &&& (r matches Some(st)
                    && st.bytes_per_sec == rate_spec(
                        (old(self).since_render + bytes) as u64,
                        (elapsed_millis - old(self).last_render_millis) as u64,
                    )
                    && st.percent == (if old(self).total_size > 0 {
                        Some(percent_spec((old(self).processed + bytes) as u64, old(self).total_size))
                    } else {
                        Option::<u64>::None
                    }))
                &&& final(self).since_render == 0
                &&& final(self).last_render_millis == elapsed_millis
            },
            !old(self).renders_at(elapsed_millis) ==> {
                &&& r is None
                &&& final(self).since_render == old(self).since_render + bytes
                &&& final(self).last_render_millis == old(self).last_render_millis
            },
    {
        self.processed = self.processed + bytes;
        self.since_render = self.since_render + bytes;
        let gap: u64 = elapsed_millis - self.last_render_millis;
        if gap > 0 && gap >= self.thresh_millis {
            let wide: u128 = (self.since_render as u128) * 1000 / (gap as u128);
            let bytes_per_sec: u64 = if wide > u64::MAX as u128 {
                u64::MAX
            } else {
                wide as u64
            };
            let percent: Option<u64> = if self.total_size > 0 {
                let p: u128 = (self.processed as u128) * 100 / (self.total_size as u128);
                if p > 100 {
                    Some(100)
                } else {
                    Some(p as u64)
                }
            } else {
                None
            };
            self.since_render = 0;
            self.last_render_millis = elapsed_millis;
            Some(Render { bytes_per_sec, percent })
        } else {
            None
        }
    }
}

/// Renders are spaced by the threshold: `update_status` renders at elapsed
/// time `t2` only when `renders_at(t2)` holds, and a render at `t1` leaves
/// `last_render_millis == t1`; so once a render has fired at `t1`, no render
/// fires again before `t1 + thresh_millis`, and never twice at the same time.
pub proof fn lemma_renders_spaced(tr: ProgressTracker, t1: u64, t2: u64)
    requires
        tr.last_render_millis == t1,
        tr.renders_at(t2),
    ensures
        t2 >= t1 + tr.thresh_millis,
        t2 > t1,
{
}

} // verus!
