//! The adaptive quality governor: a rolling window of frame durations, the
//! frame rate derived once per second, and a quality level that drops quickly
//! on slow frames and recovers slowly on fast ones.

use vstd::prelude::*;
use crate::browser::BrowserInfo;
use crate::browser::MAX_QUALITY;

verus! {

/// Number of frame durations the rolling window keeps.
pub const WINDOW_CAPACITY: usize = 60;
/// Frame budget at sixty frames per second, in microseconds.
pub const MAX_FRAME_TIME_US: u64 = 16_670;
/// Average frame time above which quality is lowered (130% of the budget).
pub const SLOW_FRAME_US: u64 = 21_671;
/// Average frame time below which quality is raised (70% of the budget).
pub const FAST_FRAME_US: u64 = 11_669;
/// Average frame time up to which performance counts as good (110% of the budget).
pub const GOOD_FRAME_US: u64 = 18_337;
/// Longest simulated step a single frame may take, in microseconds.
pub const MAX_DELTA_US: u64 = 33_000;
/// Frames to wait after lowering quality; raising waits three times as long.
pub const QUALITY_ADJUSTMENT_COOLDOWN: u32 = 60;
/// The frame rate is derived whenever this much time has been recorded.
pub const MICROS_PER_SECOND: u64 = 1_000_000;
/// Frames per second aimed at.
pub const TARGET_FPS: u32 = 60;

/// Mathematical content of a [`WebPerformanceMonitor`].
pub struct MonitorState {
    pub last_frame_time: u64,
    pub frame_times: Seq<u64>,
    pub fps_counter: u32,
    pub fps_timer: u64,
    pub current_fps: u32,
    pub average_frame_time_us: u64,
    pub quality_level: u8,
    pub adaptive_quality: bool,
    pub quality_cooldown: u32,
    pub browser_info: BrowserInfo,
}

/// The governor. All times are in microseconds.
#[derive(Debug)]
pub struct WebPerformanceMonitor {
    pub last_frame_time: u64,
    pub frame_times: Vec<u64>,
    pub fps_counter: u32,
    pub fps_timer: u64,
    pub current_fps: u32,
    pub average_frame_time_us: u64,
    pub quality_level: u8,
    pub adaptive_quality: bool,
    pub quality_cooldown: u32,
    pub browser_info: BrowserInfo,
}

/// Sum of a window of durations.
pub open spec fn seq_sum(s: Seq<u64>) -> int
    decreases s.len(),
{
    if s.len() == 0 {
        0
    } else {
        seq_sum(s.drop_last()) + s.last()
    }
}

/// Time elapsed between two readings of a monotonic clock; a reading that
/// went backwards counts as no time at all.
pub open spec fn raw_delta(last: u64, now: u64) -> u64 {
    if now >= last { (now - last) as u64 } else { 0 }
}

/// The step handed to the simulation: the raw delta, capped.
pub open spec fn capped_delta(last: u64, now: u64) -> u64 {
    let d = raw_delta(last, now);
    if d > MAX_DELTA_US { MAX_DELTA_US } else { d }
}

/// The window after one more sample: the oldest leaves once the capacity is exceeded.
pub open spec fn window_push(w: Seq<u64>, sample: u64) -> Seq<u64> {
    let p = w.push(sample);
    if p.len() > WINDOW_CAPACITY { p.remove(0) } else { p }
}

/// Mean of a non-empty window, rounded down.
pub open spec fn window_average(w: Seq<u64>) -> int {
    seq_sum(w) / (w.len() as int)
}

/// Quality level and cooldown after the adaptive rule has looked at `average`,
/// before the cooldown's per-frame decrement.
pub open spec fn adapted(quality: u8, cooldown: u32, adaptive: bool, average: u64) -> (u8, u32) {
    if adaptive && cooldown == 0 {
        if average > SLOW_FRAME_US {
            if quality > 0 {
                ((quality - 1) as u8, QUALITY_ADJUSTMENT_COOLDOWN)
            } else {
                (quality, cooldown)
            }
        } else if average < FAST_FRAME_US {
            if quality < MAX_QUALITY {
                ((quality + 1) as u8, (QUALITY_ADJUSTMENT_COOLDOWN * 3) as u32)
            } else {
                (quality, cooldown)
            }
        } else {
            (quality, cooldown)
        }
    } else {
        (quality, cooldown)
    }
}

/// One frame of the governor at clock reading `now`.
pub open spec fn step(s: MonitorState, now: u64) -> MonitorState {
    let delta = raw_delta(s.last_frame_time, now);
    let window = window_push(s.frame_times, delta);
    let average = window_average(window) as u64;
    let frames = if s.fps_counter < u32::MAX { (s.fps_counter + 1) as u32 } else { s.fps_counter };
    let elapsed = s.fps_timer + delta;
    let second_over = elapsed >= MICROS_PER_SECOND;
    let (quality, cooldown) = adapted(
        s.quality_level,
        s.quality_cooldown,
        s.adaptive_quality,
        average,
    );
    MonitorState {
        last_frame_time: now,
        frame_times: window,
        fps_counter: if second_over { 0 } else { frames },
        fps_timer: if second_over { 0 } else { elapsed as u64 },
        current_fps: if second_over {
            (frames * MICROS_PER_SECOND / elapsed) as u32
        } else {
            s.current_fps
        },
        average_frame_time_us: average,
        quality_level: quality,
        adaptive_quality: s.adaptive_quality,
        quality_cooldown: if cooldown > 0 { (cooldown - 1) as u32 } else { 0 },
        browser_info: s.browser_info,
    }
}

/// What holds of every governor state that `new` and `update` produce.
pub open spec fn state_wf(s: MonitorState) -> bool {
    &&& s.frame_times.len() <= WINDOW_CAPACITY
    &&& s.fps_timer < MICROS_PER_SECOND
    &&& s.quality_level <= MAX_QUALITY
}

/// The state after a run of frames at the clock readings `times`, in order.
pub open spec fn run(s: MonitorState, times: Seq<u64>) -> MonitorState
    decreases times.len(),
{
    if times.len() == 0 {
        s
    } else {
        run(step(s, times[0]), times.skip(1))
    }
}

/// Simulated time handed out over a run of frames at the clock readings
/// `times`, starting from the reading `last`.
pub open spec fn simulated_time(last: u64, times: Seq<u64>) -> int
    decreases times.len(),
{
    if times.len() == 0 {
        0
    } else {
        capped_delta(last, times[0]) + simulated_time(times[0], times.skip(1))
    }
}

/// The clock never runs backwards over the run, and no frame is longer than the cap.
pub open spec fn steady(last: u64, times: Seq<u64>) -> bool
    decreases times.len(),
{
    times.len() == 0 || (last <= times[0] && times[0] - last <= MAX_DELTA_US && steady(
        times[0],
        times.skip(1),
    ))
}

/// However the clock jumps, a run of frames advances the simulation by at
/// most the cap for each frame.
pub proof fn lemma_simulated_time_is_bounded(last: u64, times: Seq<u64>)
    ensures
        0 <= simulated_time(last, times) <= times.len() * MAX_DELTA_US,
    decreases times.len(),
{
    if times.len() > 0 {
        lemma_simulated_time_is_bounded(times[0], times.skip(1));
        assert((times.len() - 1) * MAX_DELTA_US + MAX_DELTA_US == times.len() * MAX_DELTA_US)
            by (nonlinear_arith);
    }
}

/// Over a steady run the simulation advances by exactly the time that passed.
pub proof fn lemma_steady_run_keeps_time(last: u64, times: Seq<u64>)
    requires
        steady(last, times),
        times.len() > 0,
    ensures
        simulated_time(last, times) == times.last() - last,
    decreases times.len(),
{
    let rest = times.skip(1);
    if rest.len() > 0 {
        lemma_steady_run_keeps_time(times[0], rest);
        assert(rest.last() == times.last());
    } else {
        assert(simulated_time(times[0], rest) == 0);
    }
}

/// The sum of a window is at most its length times the longest duration there is.
pub proof fn lemma_sum_bound(s: Seq<u64>)
    ensures
        0 <= seq_sum(s) <= s.len() * u64::MAX,
    decreases s.len(),
{
    if s.len() > 0 {
        lemma_sum_bound(s.drop_last());
        assert(seq_sum(s.drop_last()) + s.last() <= (s.len() - 1) * u64::MAX + u64::MAX);
        assert((s.len() - 1) * u64::MAX + u64::MAX == s.len() * u64::MAX) by (nonlinear_arith);
    }
}

/// The mean of a non-empty window is itself a duration.
pub proof fn lemma_average_bound(s: Seq<u64>)
    requires
        s.len() > 0,
    ensures
        0 <= window_average(s) <= u64::MAX,
{
    lemma_sum_bound(s);
    let total = seq_sum(s);
    let n = s.len() as int;
    assert(0 <= total / n <= u64::MAX) by (nonlinear_arith)
        requires
            0 <= total <= n * u64::MAX,
            n > 0,
    ;
}

/// A step keeps a well-formed state well-formed.
pub proof fn lemma_step_wf(s: MonitorState, now: u64)
    requires
        state_wf(s),
    ensures
        state_wf(step(s, now)),
{
}

/// While the cooldown runs, a frame changes neither the quality level nor
/// anything about the cooldown but its count, which drops by one.
pub proof fn lemma_cooldown_holds_quality(s: MonitorState, now: u64)
    requires
        s.quality_cooldown > 0,
    ensures
        step(s, now).quality_level == s.quality_level,
        step(s, now).quality_cooldown == s.quality_cooldown - 1,
{
}

/// A frame that changes the quality level starts a cooldown: one frame short of
/// the short wait after lowering, of the long wait after raising.
pub proof fn lemma_adjustment_starts_cooldown(s: MonitorState, now: u64)
    ensures
        step(s, now).quality_level < s.quality_level ==> step(s, now).quality_cooldown
            == QUALITY_ADJUSTMENT_COOLDOWN - 1,
        step(s, now).quality_level > s.quality_level ==> step(s, now).quality_cooldown
            == QUALITY_ADJUSTMENT_COOLDOWN * 3 - 1,
        step(s, now).quality_level != s.quality_level ==> s.adaptive_quality
            && s.quality_cooldown == 0,
{
}

/// Over any run of frames no longer than the cooldown still pending, the
/// quality level does not move, whatever the clock readings are.
pub proof fn lemma_quality_frozen_during_cooldown(s: MonitorState, times: Seq<u64>)
    requires
        times.len() <= s.quality_cooldown,
    ensures
        run(s, times).quality_level == s.quality_level,
        run(s, times).quality_cooldown == s.quality_cooldown - times.len(),
    decreases times.len(),
{
    if times.len() > 0 {
        lemma_cooldown_holds_quality(s, times[0]);
        lemma_quality_frozen_during_cooldown(step(s, times[0]), times.skip(1));
    }
}

/// Hysteresis: once a frame has lowered the quality level, no run of fewer
/// frames than the cooldown can raise it again, however fast those frames are.
pub proof fn lemma_quality_hysteresis(s: MonitorState, now: u64, times: Seq<u64>)
    requires
        step(s, now).quality_level < s.quality_level,
        times.len() < QUALITY_ADJUSTMENT_COOLDOWN,
    ensures
        run(step(s, now), times).quality_level == step(s, now).quality_level,
{
    lemma_adjustment_starts_cooldown(s, now);
    lemma_quality_frozen_during_cooldown(step(s, now), times);
}

impl WebPerformanceMonitor {
    /// The governor's mathematical content.
    pub open spec fn view(&self) -> MonitorState {
        MonitorState {
            last_frame_time: self.last_frame_time,
            frame_times: self.frame_times@,
            fps_counter: self.fps_counter,
            fps_timer: self.fps_timer,
            current_fps: self.current_fps,
            average_frame_time_us: self.average_frame_time_us,
            quality_level: self.quality_level,
            adaptive_quality: self.adaptive_quality,
            quality_cooldown: self.quality_cooldown,
            browser_info: self.browser_info,
        }
    }

    /// The window is within its capacity, less than a second is pending for
    /// the frame rate, and the quality level is one of the three.
    pub open spec fn wf(&self) -> bool {
        state_wf(self@)
    }

    /// Checks at run time what `wf` states.
    pub fn is_valid(&self) -> (valid: bool)
        ensures
            valid == self.wf(),
    {
        self.frame_times.len() <= WINDOW_CAPACITY && self.fps_timer < MICROS_PER_SECOND
            && self.quality_level <= MAX_QUALITY
    }

    /// A governor started at clock reading `current_time` on the given device.
    pub fn new(current_time: u64, browser_info: BrowserInfo) -> (monitor: Self)
        ensures
            monitor.wf(),
            monitor@ == (MonitorState {
                last_frame_time: current_time,
                frame_times: Seq::<u64>::empty(),
                fps_counter: 0,
                fps_timer: 0,
                current_fps: TARGET_FPS,
                average_frame_time_us: MAX_FRAME_TIME_US,
                quality_level: browser_info.initial_quality(),
                adaptive_quality: true,
                quality_cooldown: 0,
                browser_info,
            }),
    {
        let tier: u8 = if browser_info.is_low_end { 0 } else { browser_info.performance_tier };
        let initial_quality: u8 = if tier > MAX_QUALITY { MAX_QUALITY } else { tier };
        let monitor = WebPerformanceMonitor {
            last_frame_time: current_time,
            frame_times: Vec::with_capacity(WINDOW_CAPACITY),
            fps_counter: 0,
            fps_timer: 0,
            current_fps: TARGET_FPS,
            average_frame_time_us: MAX_FRAME_TIME_US,
            quality_level: initial_quality,
            adaptive_quality: true,
            quality_cooldown: 0,
            browser_info,
        };
        assert(monitor@.frame_times =~= Seq::<u64>::empty());
        monitor
    }

    /// Mean of the recorded frame durations, rounded down.
    fn average_of_window(&self) -> (average: u64)
        requires
            0 < self.frame_times.len() <= WINDOW_CAPACITY,
        ensures
            average == window_average(self.frame_times@),
    {
        let n: usize = self.frame_times.len();
        let mut total: u128 = 0;
        let mut i: usize = 0;
        while i < n
            invariant
                i <= n,
                n == self.frame_times.len(),
                n <= WINDOW_CAPACITY,
                total == seq_sum(self.frame_times@.take(i as int)),
                total <= i * u64::MAX,
            decreases n - i,
        {
            proof {
                let next = self.frame_times@.take(i + 1);
                assert(next.drop_last() =~= self.frame_times@.take(i as int));
                assert(next.last() == self.frame_times@[i as int]);
                assert(i * u64::MAX + u64::MAX == (i + 1) * u64::MAX) by (nonlinear_arith);
                assert(i * u64::MAX <= 60 * u64::MAX) by (nonlinear_arith)
                    requires
                        i <= 60,
                ;
            }
            total = total + self.frame_times[i] as u128;
            i = i + 1;
        }
        proof {
            assert(self.frame_times@.take(n as int) =~= self.frame_times@);
            lemma_average_bound(self.frame_times@);
        }
        (total / (n as u128)) as u64
    }

    /// Records the frame that ends at clock reading `current_time` and returns
    /// the capped step, in microseconds, by which the simulation advances.
    pub fn update(&mut self, current_time: u64) -> (delta: u64)
        requires
            old(self).wf(),
        ensures
            final(self).wf(),
            final(self)@ == step(old(self)@, current_time),
            delta == capped_delta(old(self).last_frame_time, current_time),
            delta <= MAX_DELTA_US,
    {
        let frame_time: u64 = if current_time >= self.last_frame_time {
            current_time - self.last_frame_time
        } else {
            0
        };
        self.last_frame_time = current_time;
        let capped: u64 = if frame_time > MAX_DELTA_US { MAX_DELTA_US } else { frame_time };

        self.frame_times.push(frame_time);
        if self.frame_times.len() > WINDOW_CAPACITY {
            self.frame_times.remove(0);
        }
        assert(self.frame_times@ =~= window_push(old(self).frame_times@, frame_time));
        self.average_frame_time_us = self.average_of_window();

        let frames: u32 = if self.fps_counter < u32::MAX { self.fps_counter + 1 } else {
            self.fps_counter
        };
        let elapsed: u128 = self.fps_timer as u128 + frame_time as u128;
        if elapsed >= MICROS_PER_SECOND as u128 {
            let rate: u128 = (frames as u128 * MICROS_PER_SECOND as u128) / elapsed;
            assert(rate <= frames) by (nonlinear_arith)
                requires
                    rate == (frames as int * 1_000_000) / (elapsed as int),
                    elapsed >= 1_000_000,
                    frames >= 0,
            ;
            self.current_fps = rate as u32;
            self.fps_counter = 0;
            self.fps_timer = 0;
        } else {
            self.fps_counter = frames;
            self.fps_timer = elapsed as u64;
        }

        if self.adaptive_quality && self.quality_cooldown == 0 {
            if self.average_frame_time_us > SLOW_FRAME_US {
                if self.quality_level > 0 {
                    self.quality_level = self.quality_level - 1;
                    self.quality_cooldown = QUALITY_ADJUSTMENT_COOLDOWN;
                }
            } else if self.average_frame_time_us < FAST_FRAME_US {
                if self.quality_level < MAX_QUALITY {
                    self.quality_level = self.quality_level + 1;
                    self.quality_cooldown = QUALITY_ADJUSTMENT_COOLDOWN * 3;
                }
            }
        }
        if self.quality_cooldown > 0 {
            self.quality_cooldown = self.quality_cooldown - 1;
        }
        assert(self@.frame_times =~= step(old(self)@, current_time).frame_times);
        capped
    }

    /// Whether the frame rate is within a tenth of the target and the average
    /// frame time within a tenth of the budget.
    pub fn is_performance_good(&self) -> (good: bool)
        ensures
            good == (self.current_fps * 10 >= TARGET_FPS * 9 && self.average_frame_time_us
                <= GOOD_FRAME_US),
    {
        self.current_fps >= 54 && self.average_frame_time_us <= GOOD_FRAME_US
    }

    /// Fixes the quality level by hand, at most the highest level, and turns
    /// the adaptive rule off.
    pub fn set_quality_level(&mut self, quality: u8)
        requires
            old(self).wf(),
        ensures
            final(self).wf(),
            final(self).quality_level == (if quality > MAX_QUALITY { MAX_QUALITY } else { quality }),
            !final(self).adaptive_quality,
            final(self)@ == (MonitorState {
                quality_level: final(self).quality_level,
                adaptive_quality: false,
                ..old(self)@
            }),
    {
        self.quality_level = if quality > MAX_QUALITY { MAX_QUALITY } else { quality };
        self.adaptive_quality = false;
    }

    /// Turns the adaptive rule on or off; nothing else changes.
    pub fn enable_adaptive_quality(&mut self, enabled: bool)
        ensures
            final(self)@ == (MonitorState { adaptive_quality: enabled, ..old(self)@ }),
    {
        self.adaptive_quality = enabled;
    }
}

} // verus!
