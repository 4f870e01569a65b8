//! Start and end timestamps (Unix milliseconds) of the Discord progress bar.
use vstd::prelude::*;

verus! {

/// One year in milliseconds: while paused, the bar is shifted this far into
/// the future so that Discord shows it standing still.
pub const ONE_YEAR_MS: i64 = 31_536_000_000;

/// Whether `x` fits in an `i64`.
pub open spec fn fits_i64(x: int) -> bool {
    i64::MIN <= x <= i64::MAX
}

/// Timestamps shown while paused at `current_time` of a song of `duration`
/// milliseconds, at Unix time `now_ms`: the bar starts one year after the
/// moment the song would have started and lasts `duration`.
pub open spec fn paused_timestamps(current_time: int, duration: int, now_ms: int) -> (int, int) {
    let start = now_ms - current_time + ONE_YEAR_MS;
    (start, start + duration)
}

/// Every intermediate value of the paused computation fits in an `i64`.
pub open spec fn paused_in_range(current_time: int, duration: int, now_ms: int) -> bool {
    &&& fits_i64(now_ms - current_time)
    &&& fits_i64(now_ms - current_time + ONE_YEAR_MS)
    &&& fits_i64(now_ms - current_time + ONE_YEAR_MS + duration)
}

/// Timestamps shown while playing: the song started `current_time` ago and
/// ends `duration - current_time` from now; a position at or past the end
/// gives `(0, 0)`.
pub open spec fn playing_timestamps(current_time: int, duration: int, now_ms: int) -> (int, int) {
    if current_time >= duration {
        (0, 0)
    } else {
        (now_ms - current_time, now_ms + (duration - current_time))
    }
}

/// Every intermediate value of the playing computation fits in an `i64`.
pub open spec fn playing_in_range(current_time: int, duration: int, now_ms: int) -> bool {
    current_time >= duration || {
        &&& fits_i64(duration - current_time)
        &&& fits_i64(now_ms + (duration - current_time))
        &&& fits_i64(now_ms - current_time)
    }
}

/// Timestamps for a paused song.
pub fn calc_paused_timestamps(current_time: i64, duration: i64, now_ms: i64) -> (r: (i64, i64))
    requires
        paused_in_range(current_time as int, duration as int, now_ms as int),
    ensures
        (r.0 as int, r.1 as int) == paused_timestamps(
            current_time as int,
            duration as int,
            now_ms as int,
        ),
{
    let future_start = (now_ms - current_time) + ONE_YEAR_MS;
    let future_end = future_start + duration;
    (future_start, future_end)
}

/// Timestamps for a playing song.
pub fn calc_playing_timestamps(current_time: i64, duration: i64, now_ms: i64) -> (r: (i64, i64))
    requires
        playing_in_range(current_time as int, duration as int, now_ms as int),
    ensures
        (r.0 as int, r.1 as int) == playing_timestamps(
            current_time as int,
            duration as int,
            now_ms as int,
        ),
{
    if current_time >= duration {
        return (0, 0);
    }
    let diff = duration - current_time;
    let remaining = if diff > 0 {
        diff
    } else {
        0
    };
    let end = now_ms + remaining;
    let start = end - duration;
    (start, end)
}

} // verus!
