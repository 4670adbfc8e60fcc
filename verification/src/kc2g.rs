//! Choosing among KC2G point-to-point forecasts: the app fetches the
//! series, this module picks the sample nearest in time.

use vstd::prelude::*;

verus! {

/// How far a forecast at `ts` is from `now`, in seconds, as the forecasts
/// are ordered: `|ts - now|`, saturating at `i64::MAX`.
pub open spec fn time_distance(ts: i64, now: i64) -> int {
    let d = ts - now;
    if d == i64::MIN as int {
        i64::MAX as int
    } else if d < 0 {
        -d
    } else {
        d
    }
}

/// How far apart two instants are, in seconds, whichever comes first.
pub open spec fn abs_gap(a: int, b: int) -> int {
    if a >= b {
        a - b
    } else {
        b - a
    }
}

/// A forecast `d` seconds after `now` and one `d` seconds before it are
/// equally far from `now`: `d` seconds.
pub proof fn law_time_distance_symmetric(now: i64, d: int)
    requires
        0 <= d < i64::MAX,
        i64::MIN <= now + d <= i64::MAX,
        i64::MIN <= now - d <= i64::MAX,
    ensures
        time_distance((now + d) as i64, now) == d,
        time_distance((now - d) as i64, now) == d,
{
}

/// Position of the forecast whose time (seconds since the epoch) is nearest
/// to `now`; the first such on a tie, `None` for an empty series.
pub fn nearest(forecast_times: &[i64], now: i64) -> (r: Option<usize>)
    requires
        forall|i: int|
            0 <= i < forecast_times.len() ==> i64::MIN <= #[trigger] forecast_times[i] - now
                <= i64::MAX,
    ensures
        r is None <==> forecast_times.len() == 0,
        r matches Some(i) ==> {
            &&& i < forecast_times.len()
            &&& forall|j: int|
                0 <= j < forecast_times.len() ==> time_distance(forecast_times[i as int], now)
                    <= time_distance(#[trigger] forecast_times[j], now)
            &&& forall|j: int|
                0 <= j < i ==> time_distance(forecast_times[i as int], now) < time_distance(
                    #[trigger] forecast_times[j],
                    now,
                )
            &&& forall|j: int|
                0 <= j < forecast_times.len() && forecast_times[i as int] - now > i64::MIN
                    && #[trigger] forecast_times[j] - now > i64::MIN ==> abs_gap(
                    forecast_times[i as int] as int,
                    now as int,
                ) <= abs_gap(forecast_times[j] as int, now as int)
        },
{
    let n = forecast_times.len();
    if n == 0 {
        return None;
    }
    let mut best: usize = 0;
    let mut best_key: i64 = distance_key(forecast_times[0], now);
    let mut i: usize = 1;
    while i < n
        invariant
            n == forecast_times.len(),
            1 <= i <= n,
            best < i,
            best_key == time_distance(forecast_times[best as int], now),
            forall|j: int|
                0 <= j < forecast_times.len() ==> i64::MIN <= #[trigger] forecast_times[j] - now
                    <= i64::MAX,
            forall|j: int|
                0 <= j < i ==> best_key <= time_distance(#[trigger] forecast_times[j], now),
            forall|j: int| 0 <= j < best ==> best_key < time_distance(#[trigger] forecast_times[j], now),
        decreases n - i,
    {
        let key = distance_key(forecast_times[i], now);
        if key < best_key {
            best = i;
            best_key = key;
        }
        i = i + 1;
    }
    Some(best)
}

fn distance_key(ts: i64, now: i64) -> (k: i64)
    requires
        i64::MIN <= ts - now <= i64::MAX,
    ensures
        k == time_distance(ts, now),
{
    let d = ts - now;
    // `checked_abs`, with the one overflowing value mapped to the maximum.
    if d == i64::MIN {
        i64::MAX
    } else if d < 0 {
        -d
    } else {
        d
    }
}

} // verus!
