//! Windowed frames-per-second estimation.
//!
//! Every rendered frame reports itself through [`FrameStats::update`] together
//! with the current clock reading. Once the elapsed time since the start of
//! the current sample window reaches the fixed sampling interval, the rate is
//! recomputed as frames divided by elapsed seconds, the frame counter resets,
//! and a new window begins; between samples the stored rate is deliberately
//! stale.
//!
//! Rates are carried in thousandths of a frame per second and clock readings
//! in microseconds, so the whole account stays in integers.

use vstd::prelude::*;

verus! {

/// Thousandths of a frame per second, per frame per microsecond.
pub const MILLI_FPS_PER_FRAME_PER_US: u64 = 1_000_000_000;

/// Width of the sampling window, in microseconds (350 ms).
pub const FPS_PRINT_INTERVAL_US: u64 = 350_000;

/// The character a single decimal digit prints as.
pub open spec fn digit_char(d: nat) -> char {
    if d == 0 {
        '0'
    } else if d == 1 {
        '1'
    } else if d == 2 {
        '2'
    } else if d == 3 {
        '3'
    } else if d == 4 {
        '4'
    } else if d == 5 {
        '5'
    } else if d == 6 {
        '6'
    } else if d == 7 {
        '7'
    } else if d == 8 {
        '8'
    } else {
        '9'
    }
}

/// The decimal digits of a number, most significant first.
pub open spec fn dec_digits(n: nat) -> Seq<char>
    decreases n,
{
    if n < 10 {
        seq![digit_char(n)]
    } else {
        dec_digits(n / 10).push(digit_char(n % 10))
    }
}

/// A rate in thousandths of a frame per second, rounded to the nearest whole
/// frame per second (half rounds up).
pub open spec fn rounded_fps(fps_milli: nat) -> nat {
    fps_milli / 1000 + if fps_milli % 1000 >= 500 {
        1nat
    } else {
        0nat
    }
}

/// The diagnostic overlay line for a rate in thousandths of a frame per
/// second: the rounded whole number followed by a unit label.
pub open spec fn fps_display_spec(fps_milli: nat) -> Seq<char> {
    dec_digits(rounded_fps(fps_milli)) + seq![' ', 'f', 'p', 's']
}

/// The character a single decimal digit prints as.
fn digit_to_char(d: u64) -> (c: char)
    requires
        d < 10,
    ensures
        c == digit_char(d as nat),
{
    match d {
        0 => '0',
        1 => '1',
        2 => '2',
        3 => '3',
        4 => '4',
        5 => '5',
        6 => '6',
        7 => '7',
        8 => '8',
        _ => '9',
    }
}

/// Appends the decimal digits of a number, most significant first.
fn push_decimal_digits(v: &mut Vec<char>, n: u64)
    ensures
        final(v)@ == old(v)@ + dec_digits(n as nat),
    decreases n,
{
    if n >= 10 {
        push_decimal_digits(v, n / 10);
    }
    let c = digit_to_char(n % 10);
    v.push(c);
    proof {
        assert(v@ =~= old(v)@ + dec_digits(n as nat));
    }
}

/// Renders the diagnostic overlay line for a rate in thousandths of a frame
/// per second: the rounded whole number followed by a unit label.
pub fn fps_display(fps_milli: u64) -> (v: Vec<char>)
    ensures
        v@ == fps_display_spec(fps_milli as nat),
{
    let rounded: u64 = fps_milli / 1000 + if fps_milli % 1000 >= 500 {
        1
    } else {
        0
    };
    let mut v: Vec<char> = Vec::new();
    push_decimal_digits(&mut v, rounded);
    v.push(' ');
    v.push('f');
    v.push('p');
    v.push('s');
    proof {
        assert(v@ =~= fps_display_spec(fps_milli as nat));
    }
    v
}

/// Windowed frames-per-second estimator.
pub struct FrameStats {
    /// Clock reading, in microseconds, at which the current sample window began.
    pub last_frame_time_us: u64,
    /// Frames counted since the current sample window began.
    pub frame_count: u64,
    /// Most recently computed rate, in thousandths of a frame per second.
    pub fps_milli: u64,
    /// Width of the sampling window, in microseconds.
    pub fps_print_interval_us: u64,
}

impl FrameStats {
    /// A sampling window of zero width would divide by a zero elapsed time.
    pub open spec fn well_formed(self) -> bool {
        self.fps_print_interval_us >= 1
    }

    /// The rate over a completed window: `frames / elapsed_seconds`, in
    /// thousandths of a frame per second, clamped to the carrier type.
    pub open spec fn fps_milli_value(frames: nat, elapsed_us: nat) -> nat
        recommends
            elapsed_us > 0,
    {
        let exact = frames * (MILLI_FPS_PER_FRAME_PER_US as nat) / elapsed_us;
        if exact > u64::MAX { u64::MAX as nat } else { exact }
    }

    /// The estimator as it stands after one `update` call at clock reading
    /// `now_us`.
    pub open spec fn updated(self, now_us: u64) -> FrameStats
        recommends
            now_us >= self.last_frame_time_us,
            self.frame_count < u64::MAX,
    {
        let frames = (self.frame_count + 1) as nat;
        let elapsed = (now_us - self.last_frame_time_us) as nat;
        if elapsed >= self.fps_print_interval_us {
            FrameStats {
                last_frame_time_us: now_us,
                frame_count: 0,
                fps_milli: Self::fps_milli_value(frames, elapsed) as u64,
                fps_print_interval_us: self.fps_print_interval_us,
            }
        } else {
            FrameStats {
                last_frame_time_us: self.last_frame_time_us,
                frame_count: (self.frame_count + 1) as u64,
                fps_milli: self.fps_milli,
                fps_print_interval_us: self.fps_print_interval_us,
            }
        }
    }

    /// The estimator as it stands when counting begins at clock reading
    /// `now_us`.
    pub open spec fn initial(now_us: u64) -> FrameStats {
        FrameStats {
            last_frame_time_us: now_us,
            frame_count: 0,
            fps_milli: 0,
            fps_print_interval_us: FPS_PRINT_INTERVAL_US,
        }
    }

    /// Starts counting at clock reading `now_us`, with no rate computed yet.
    pub fn new(now_us: u64) -> (s: FrameStats)
        ensures
            s == Self::initial(now_us),
            s.well_formed(),
    {
        FrameStats {
            last_frame_time_us: now_us,
            frame_count: 0,
            fps_milli: 0,
            fps_print_interval_us: FPS_PRINT_INTERVAL_US,
        }
    }

    /// Counts one rendered frame at clock reading `now_us`; if the sample
    /// window is complete, recomputes the rate and opens a new window.
    pub fn update(&mut self, now_us: u64)
        requires
            old(self).well_formed(),
            now_us >= old(self).last_frame_time_us,
            old(self).frame_count < u64::MAX,
        ensures
            *final(self) == old(self).updated(now_us),
            final(self).well_formed(),
    {
        self.frame_count = self.frame_count + 1;
        let elapsed: u64 = now_us - self.last_frame_time_us;
        if elapsed >= self.fps_print_interval_us {
            proof {
                assert((self.frame_count as int) * (MILLI_FPS_PER_FRAME_PER_US as int) <= (u64::MAX
                    as int) * (MILLI_FPS_PER_FRAME_PER_US as int)) by (nonlinear_arith)
                    requires
                        self.frame_count <= u64::MAX,
                ;
            }
            let numerator: u128 = (self.frame_count as u128) * (MILLI_FPS_PER_FRAME_PER_US as u128);
            let quotient: u128 = numerator / (elapsed as u128);
            self.fps_milli = if quotient > u64::MAX as u128 {
                u64::MAX
            } else {
                quotient as u64
            };
            self.frame_count = 0;
            self.last_frame_time_us = now_us;
        }
    }
}

/// The estimator as it stands after one `update` call per clock reading in
/// `times`, in order.
pub open spec fn updated_seq(s: FrameStats, times: Seq<u64>) -> FrameStats
    decreases times.len(),
{
    if times.len() == 0 {
        s
    } else {
        updated_seq(s.updated(times[0]), times.drop_first())
    }
}

/// A run of updates followed by one more update is the update of the run.
proof fn lemma_updated_seq_snoc(s: FrameStats, times: Seq<u64>, t: u64)
    ensures
        updated_seq(s, times.push(t)) == updated_seq(s, times).updated(t),
    decreases times.len(),
{
    if times.len() == 0 {
        assert(times.push(t).len() == 1);
        assert(times.push(t)[0] == t);
        assert(times.push(t).drop_first() =~= times);
        assert(updated_seq(s, times.push(t)) == updated_seq(
            s.updated(t),
            times.push(t).drop_first(),
        ));
        assert(updated_seq(s, times) == s);
    } else {
        assert(times.push(t)[0] == times[0]);
        assert(times.push(t).drop_first() =~= times.drop_first().push(t));
        lemma_updated_seq_snoc(s.updated(times[0]), times.drop_first(), t);
        assert(updated_seq(s, times.push(t)) == updated_seq(
            s.updated(times[0]),
            times.push(t).drop_first(),
        ));
        assert(updated_seq(s, times) == updated_seq(s.updated(times[0]), times.drop_first()));
    }
}

/// Between samples the rate is stale and the counter counts: a run of update
/// calls whose clock readings all fall short of the sampling interval leaves
/// the rate and the window start untouched and adds exactly one frame per
/// call.
pub proof fn lemma_updates_between_samples(s: FrameStats, times: Seq<u64>)
    requires
        s.well_formed(),
        s.frame_count + times.len() <= u64::MAX,
        forall|j: int|
            0 <= j < times.len() ==> s.last_frame_time_us <= #[trigger] times[j] && times[j]
                - s.last_frame_time_us < s.fps_print_interval_us,
    ensures
        updated_seq(s, times).fps_milli == s.fps_milli,
        updated_seq(s, times).frame_count == s.frame_count + times.len(),
        updated_seq(s, times).last_frame_time_us == s.last_frame_time_us,
        updated_seq(s, times).fps_print_interval_us == s.fps_print_interval_us,
    decreases times.len(),
{
    if times.len() > 0 {
        let s1 = s.updated(times[0]);
        assert(s1.fps_milli == s.fps_milli);
        assert(forall|j: int|
            0 <= j < times.drop_first().len() ==> s1.last_frame_time_us <= #[trigger] times.drop_first()[j]
                && times.drop_first()[j] - s1.last_frame_time_us < s1.fps_print_interval_us);
        lemma_updates_between_samples(s1, times.drop_first());
    }
}

/// A completed sample window computes the windowed average: starting with a
/// fresh frame counter, a run of update calls that stays inside the sampling
/// interval until its last reading finally reaches it leaves the rate at
/// frames divided by elapsed time, resets the counter, and restarts the
/// window at the last reading.
pub proof fn lemma_fps_sample(s: FrameStats, times: Seq<u64>)
    requires
        s.well_formed(),
        s.frame_count == 0,
        times.len() >= 1,
        times.len() <= u64::MAX,
        forall|j: int|
            0 <= j < times.len() - 1 ==> s.last_frame_time_us <= #[trigger] times[j] && times[j]
                - s.last_frame_time_us < s.fps_print_interval_us,
        times.last() >= s.last_frame_time_us,
        times.last() - s.last_frame_time_us >= s.fps_print_interval_us,
    ensures
        updated_seq(s, times).fps_milli == FrameStats::fps_milli_value(
            times.len() as nat,
            (times.last() - s.last_frame_time_us) as nat,
        ),
        updated_seq(s, times).frame_count == 0,
        updated_seq(s, times).last_frame_time_us == times.last(),
{
    let prefix = times.drop_last();
    lemma_updates_between_samples(s, prefix);
    lemma_updated_seq_snoc(s, prefix, times.last());
    assert(prefix.push(times.last()) =~= times);
    let s1 = updated_seq(s, prefix);
    assert(s1.frame_count == prefix.len());
    assert(updated_seq(s, times) == s1.updated(times.last()));
}

} // verus!
