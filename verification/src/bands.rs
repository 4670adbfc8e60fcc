//! HF amateur band table and condition heuristics.
//!
//! The condition derivation is a HamQSL-style heuristic: SFI threshold per
//! band, K-index penalty on the lower bands (auroral absorption), and a
//! day/night flip — high bands favour daylight, low bands favour darkness.
//! These are visual ratings; not a substitute for real propagation
//! prediction.
//!
//! The indices are compared only against whole-number thresholds, so the
//! heuristic takes them rounded down to integers: for a real `x` and an
//! integer `t`, `x >= t` exactly when `floor(x) >= t`.

use vstd::prelude::*;
use crate::text::str_eq;

verus! {

/// One amateur HF band. `freq_khz` is the canonical "centre of activity"
/// used as a stand-in when comparing against MUF/LUF for a path.
#[derive(Debug, Clone, Copy)]
pub struct Band {
    pub label: &'static str,
    pub freq_khz: u32,
}

/// All HF amateur bands, ordered low-to-high in frequency.
pub open spec fn hf_band_table() -> Seq<Band> {
    seq![
        Band { label: "80m", freq_khz: 3700 },
        Band { label: "40m", freq_khz: 7100 },
        Band { label: "30m", freq_khz: 10125 },
        Band { label: "20m", freq_khz: 14200 },
        Band { label: "17m", freq_khz: 18100 },
        Band { label: "15m", freq_khz: 21200 },
        Band { label: "12m", freq_khz: 24940 },
        Band { label: "10m", freq_khz: 28500 },
    ]
}

/// All HF amateur bands, ordered low-to-high in frequency.
pub fn hf_bands() -> (v: Vec<Band>)
    ensures
        v@ == hf_band_table(),
{
    vec![
        Band { label: "80m", freq_khz: 3700 },
        Band { label: "40m", freq_khz: 7100 },
        Band { label: "30m", freq_khz: 10125 },
        Band { label: "20m", freq_khz: 14200 },
        Band { label: "17m", freq_khz: 18100 },
        Band { label: "15m", freq_khz: 21200 },
        Band { label: "12m", freq_khz: 24940 },
        Band { label: "10m", freq_khz: 28500 },
    ]
}

/// Visual rating of a band's expected condition.
#[derive(Debug, Clone, Copy, PartialEq, Eq, Structural)]
pub enum Rating {
    Good,
    Fair,
    Poor,
}

impl Rating {
    /// The rating's display text.
    pub fn as_str(&self) -> (s: &'static str)
        ensures
            s@ == rating_text(*self),
    {
        match self {
            Rating::Good => "Good",
            Rating::Fair => "Fair",
            Rating::Poor => "Poor",
        }
    }
}

pub open spec fn rating_text(r: Rating) -> Seq<char> {
    match r {
        Rating::Good => "Good"@,
        Rating::Fair => "Fair"@,
        Rating::Poor => "Poor"@,
    }
}

/// Day/night-flavoured rating for a single band.
#[derive(Debug, Clone, Copy)]
pub struct BandRating {
    pub label: &'static str,
    pub day: Rating,
    pub night: Rating,
}

/// 0 = no penalty, 1 = down one rung, 2 = down two rungs.
pub open spec fn k_penalty(k: int) -> int {
    if k >= 5 {
        2
    } else if k >= 4 {
        1
    } else {
        0
    }
}

pub open spec fn one_rung_down(r: Rating) -> Rating {
    match r {
        Rating::Good => Rating::Fair,
        Rating::Fair => Rating::Poor,
        Rating::Poor => Rating::Poor,
    }
}

/// `r` moved down `steps` rungs, stopping at `Poor`.
pub open spec fn downgraded(r: Rating, steps: int) -> Rating
    decreases steps,
{
    if steps <= 0 {
        r
    } else {
        downgraded(one_rung_down(r), steps - 1)
    }
}

/// SFI at which a high band rates `Good` by day.
pub open spec fn good_sfi(label: Seq<char>) -> int {
    if label == "17m"@ {
        85
    } else if label == "15m"@ {
        100
    } else if label == "12m"@ {
        120
    } else if label == "10m"@ {
        140
    } else {
        100
    }
}

/// Heuristic per band/day/night cell, for SFI and K-index rounded down.
///
/// Low bands (below 8 MHz): K-index drives absorption; night helps.
/// Mid bands (below 16 MHz): need modest SFI, sensitive to K.
/// High bands: need strong SFI, primarily a daytime phenomenon.
pub open spec fn band_rating(band: Band, sfi: int, k: int, is_day: bool) -> Rating {
    let base = if band.freq_khz < 8000 {
        if is_day {
            Rating::Fair
        } else {
            Rating::Good
        }
    } else if band.freq_khz < 16000 {
        if sfi >= 90 {
            Rating::Good
        } else if is_day && sfi >= 70 {
            Rating::Good
        } else if is_day {
            Rating::Fair
        } else if sfi >= 80 {
            Rating::Fair
        } else {
            Rating::Poor
        }
    } else {
        let good = good_sfi(band.label@);
        if is_day && sfi >= good {
            Rating::Good
        } else if is_day && sfi >= good - 25 {
            Rating::Fair
        } else if !is_day && sfi >= good + 30 {
            Rating::Fair
        } else {
            Rating::Poor
        }
    };
    downgraded(base, k_penalty(k))
}

/// 0 = no penalty, 1 = down one rung, 2 = down two rungs.
fn k_index_penalty(k: i64) -> (p: u8)
    ensures
        p == k_penalty(k as int),
{
    if k >= 5 {
        2
    } else if k >= 4 {
        1
    } else {
        0
    }
}

/// `r` moved down `steps` rungs, stopping at `Poor`.
pub fn downgrade(r: Rating, steps: u8) -> (out: Rating)
    ensures
        out == downgraded(r, steps as int),
{
    let ghost r0 = r;
    let mut r = r;
    let mut i: u8 = 0;
    while i < steps
        invariant
            i <= steps,
            downgraded(r, (steps - i) as int) == downgraded(r0, steps as int),
        decreases steps - i,
    {
        r = match r {
            Rating::Good => Rating::Fair,
            Rating::Fair => Rating::Poor,
            Rating::Poor => Rating::Poor,
        };
        i = i + 1;
    }
    r
}

fn good_sfi_for(label: &str) -> (t: i64)
    ensures
        t == good_sfi(label@),
{
    if str_eq(label, "17m") {
        85
    } else if str_eq(label, "15m") {
        100
    } else if str_eq(label, "12m") {
        120
    } else if str_eq(label, "10m") {
        140
    } else {
        100
    }
}

/// Heuristic per band/day/night cell; `sfi` and `k_index` are the indices
/// rounded down.
fn rate_at(band: Band, sfi: i64, k_index: i64, is_day: bool) -> (r: Rating)
    ensures
        r == band_rating(band, sfi as int, k_index as int, is_day),
{
    let freq = band.freq_khz;

    // Low bands: K-index drives absorption; nighttime helps a lot.
    if freq < 8000 {
        let base = if is_day {
            Rating::Fair
        } else {
            Rating::Good
        };
        return downgrade(base, k_index_penalty(k_index));
    }
    // Mid bands.
    if freq < 16000 {
        let base = if sfi >= 90 {
            Rating::Good
        } else if is_day && sfi >= 70 {
            Rating::Good
        } else if is_day {
            Rating::Fair
        } else if sfi >= 80 {
            Rating::Fair
        } else {
            Rating::Poor
        };
        return downgrade(base, k_index_penalty(k_index));
    }
    // High bands: very SFI-driven, very daytime-favoured.
    let good = good_sfi_for(band.label);
    let fair = good - 25;
    let base = if is_day && sfi >= good {
        Rating::Good
    } else if is_day && sfi >= fair {
        Rating::Fair
    } else if !is_day && sfi >= good + 30 {
        Rating::Fair
    } else {
        Rating::Poor
    };
    downgrade(base, k_index_penalty(k_index))
}

/// The day and night rating of one band.
pub open spec fn band_row(band: Band, sfi: int, k: int) -> BandRating {
    BandRating {
        label: band.label,
        day: band_rating(band, sfi, k, true),
        night: band_rating(band, sfi, k, false),
    }
}

fn rate(band: Band, sfi: i64, k_index: i64) -> (r: BandRating)
    ensures
        r == band_row(band, sfi as int, k_index as int),
{
    BandRating {
        label: band.label,
        day: rate_at(band, sfi, k_index, true),
        night: rate_at(band, sfi, k_index, false),
    }
}

/// Derive a HamQSL-style band-condition table from current solar indices,
/// one row per band of `hf_bands`, in order.
///
/// `sfi` — F10.7 cm flux rounded down (typical range 60..300).
/// `k_index` — planetary K-index rounded down, 0..9. Higher = more
/// disturbed ionosphere.
pub fn derive(sfi: i64, k_index: i64) -> (table: Vec<BandRating>)
    ensures
        table.len() == hf_band_table().len(),
        forall|i: int|
            0 <= i < table.len() ==> #[trigger] table@[i] == band_row(
                hf_band_table()[i],
                sfi as int,
                k_index as int,
            ),
{
    let bands = hf_bands();
    let mut table: Vec<BandRating> = Vec::new();
    let mut i: usize = 0;
    while i < bands.len()
        invariant
            bands@ == hf_band_table(),
            i <= bands.len(),
            table.len() == i,
            forall|j: int|
                0 <= j < i ==> #[trigger] table@[j] == band_row(
                    hf_band_table()[j],
                    sfi as int,
                    k_index as int,
                ),
        decreases bands.len() - i,
    {
        table.push(rate(bands[i], sfi, k_index));
        i = i + 1;
    }
    table
}

// ---- laws -----------------------------------------------------------------

/// Goodness of a rating: Good 2, Fair 1, Poor 0.
pub open spec fn rank(r: Rating) -> int {
    match r {
        Rating::Good => 2,
        Rating::Fair => 1,
        Rating::Poor => 0,
    }
}

/// Downgrading by `steps` lowers the rank by `steps`, stopping at Poor.
pub proof fn law_downgrade_rank(r: Rating, steps: int)
    requires
        steps >= 0,
    ensures
        rank(downgraded(r, steps)) == if rank(r) - steps > 0 {
            rank(r) - steps
        } else {
            0
        },
    decreases steps,
{
    if steps > 0 {
        law_downgrade_rank(one_rung_down(r), steps - 1);
    }
}

/// Two downgrades in a row are one downgrade by the sum.
pub proof fn law_downgrade_compose(r: Rating, a: int, b: int)
    requires
        a >= 0,
        b >= 0,
    ensures
        downgraded(downgraded(r, a), b) == downgraded(r, a + b),
    decreases a,
{
    if a > 0 {
        law_downgrade_compose(one_rung_down(r), a - 1, b);
    }
}

/// A higher solar flux never makes a band's rating worse.
pub proof fn law_more_flux_never_worse(band: Band, sfi1: int, sfi2: int, k: int, is_day: bool)
    requires
        sfi1 <= sfi2,
    ensures
        rank(band_rating(band, sfi1, k, is_day)) <= rank(band_rating(band, sfi2, k, is_day)),
{
    let p = k_penalty(k);
    reveal_with_fuel(downgraded, 3);
}

/// A higher K-index never makes a band's rating better.
pub proof fn law_more_k_never_better(band: Band, sfi: int, k1: int, k2: int, is_day: bool)
    requires
        k1 <= k2,
    ensures
        rank(band_rating(band, sfi, k2, is_day)) <= rank(band_rating(band, sfi, k1, is_day)),
{
    reveal_with_fuel(downgraded, 3);
}

/// Low bands (below 8 MHz) rate at least as well by night as by day; the
/// others at least as well by day as by night.
pub proof fn law_day_night(band: Band, sfi: int, k: int)
    ensures
        band.freq_khz < 8000 ==> rank(band_rating(band, sfi, k, false)) >= rank(
            band_rating(band, sfi, k, true),
        ),
        band.freq_khz >= 8000 ==> rank(band_rating(band, sfi, k, true)) >= rank(
            band_rating(band, sfi, k, false),
        ),
{
    reveal_with_fuel(downgraded, 3);
}

/// The band table runs strictly from low to high frequency.
pub proof fn law_band_table_ascending()
    ensures
        forall|i: int, j: int|
            0 <= i < j < hf_band_table().len() ==> (#[trigger] hf_band_table()[i]).freq_khz
                < (#[trigger] hf_band_table()[j]).freq_khz,
{
}

/// A quiet field (K-index at most 3) costs nothing; K 4 costs one rung;
/// K 5 and above leave every band Poor.
pub proof fn law_k_penalty_steps(band: Band, sfi: int, k: int, is_day: bool)
    ensures
        k <= 3 ==> band_rating(band, sfi, k, is_day) == band_rating(band, sfi, 0, is_day),
        k == 4 ==> rank(band_rating(band, sfi, k, is_day)) == if rank(
            band_rating(band, sfi, 0, is_day),
        ) > 0 {
            rank(band_rating(band, sfi, 0, is_day)) - 1
        } else {
            0
        },
        k >= 5 ==> band_rating(band, sfi, k, is_day) == Rating::Poor,
{
    reveal_with_fuel(downgraded, 3);
}

/// Low bands (below 8 MHz) in a quiet field: Fair by day and Good by night,
/// whatever the flux.
pub proof fn law_low_band_quiet(band: Band, sfi: int, k: int)
    requires
        band.freq_khz < 8000,
        k <= 3,
    ensures
        band_rating(band, sfi, k, true) == Rating::Fair,
        band_rating(band, sfi, k, false) == Rating::Good,
{
}

/// Mid bands (8 to 16 MHz) in a quiet field: a flux of 90 or more makes
/// them Good by day and by night; by day 70 is enough for Good and less is
/// Fair; by night 80 to 89 is Fair and less is Poor.
pub proof fn law_mid_band_quiet(band: Band, sfi: int, k: int)
    requires
        8000 <= band.freq_khz < 16000,
        k <= 3,
    ensures
        sfi >= 90 ==> band_rating(band, sfi, k, true) == Rating::Good && band_rating(
            band,
            sfi,
            k,
            false,
        ) == Rating::Good,
        70 <= sfi ==> band_rating(band, sfi, k, true) == Rating::Good,
        sfi < 70 ==> band_rating(band, sfi, k, true) == Rating::Fair,
        80 <= sfi < 90 ==> band_rating(band, sfi, k, false) == Rating::Fair,
        sfi < 80 ==> band_rating(band, sfi, k, false) == Rating::Poor,
{
}

/// The high bands of the table (17, 15, 12 and 10 m) in a quiet field: by
/// day Good from their threshold flux (85, 100, 120, 140), Fair within 25
/// below it, Poor further down; by night Fair from 30 above the threshold,
/// else Poor.
pub proof fn law_high_band_quiet(i: int, sfi: int, k: int)
    requires
        4 <= i < 8,
        k <= 3,
    ensures
        ({
            let band = hf_band_table()[i];
            let good = seq![85int, 100, 120, 140][i - 4];
            &&& band.freq_khz >= 16000
            &&& sfi >= good ==> band_rating(band, sfi, k, true) == Rating::Good
            &&& good - 25 <= sfi < good ==> band_rating(band, sfi, k, true) == Rating::Fair
            &&& sfi < good - 25 ==> band_rating(band, sfi, k, true) == Rating::Poor
            &&& sfi >= good + 30 ==> band_rating(band, sfi, k, false) == Rating::Fair
            &&& sfi < good + 30 ==> band_rating(band, sfi, k, false) == Rating::Poor
        }),
{
    reveal_strlit("17m");
    reveal_strlit("15m");
    reveal_strlit("12m");
    reveal_strlit("10m");
    let t = hf_band_table();
    if i == 4 {
        assert(good_sfi(t[4].label@) == 85);
    } else if i == 5 {
        assert(t[5].label@[1] != "17m"@[1]);
        assert(good_sfi(t[5].label@) == 100);
    } else if i == 6 {
        assert(t[6].label@[1] != "17m"@[1]);
        assert(t[6].label@[1] != "15m"@[1]);
        assert(good_sfi(t[6].label@) == 120);
    } else {
        assert(t[7].label@[1] != "17m"@[1]);
        assert(t[7].label@[1] != "15m"@[1]);
        assert(t[7].label@[1] != "12m"@[1]);
        assert(good_sfi(t[7].label@) == 140);
    }
}

} // verus!
