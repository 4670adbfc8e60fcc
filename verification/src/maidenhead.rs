//! Maidenhead Locator System decoder.
//!
//! Decodes 2/4/6/8-character grid locators (e.g. "JN58td", "JO99cd11") to
//! the *centre* of the smallest specified cell.
//!
//! Encoding scheme:
//!   chars 1-2: field    A..R, 20° lon × 10° lat
//!   chars 3-4: square   0..9, 2°  lon × 1°  lat
//!   chars 5-6: subsq.   a..x, 5'  lon × 2.5' lat
//!   chars 7-8: ext.     0..9, 30" lon × 15"  lat
//!
//! Coordinates are exact: every cell centre is a whole number of
//! 1/480 degree (7.5 arc-seconds), the unit of `GridPoint`.

use vstd::prelude::*;
use crate::text::{chars_of, lemma_trim_case, same_ignoring_case, trim, trim_bounds};

verus! {

/// How many `GridPoint` units make one degree.
pub const UNITS_PER_DEGREE: i32 = 480;

/// A position in units of 1/480 degree: latitude north positive, longitude
/// east positive.
#[derive(Debug, Clone, Copy, PartialEq, Eq, Structural)]
pub struct GridPoint {
    pub lat: i32,
    pub lon: i32,
}

/// Why a locator was refused. Field and subsquare errors carry the two
/// characters after case folding (upper and lower case respectively);
/// square and extended errors carry them as written.
#[derive(Debug, Clone, Copy, PartialEq, Eq, Structural)]
pub enum LocatorError {
    /// The trimmed locator is not 2, 4, 6 or 8 characters long.
    BadLength,
    BadField(char, char),
    BadSquare(char, char),
    BadSubsquare(char, char),
    BadExtended(char, char),
}

/// Index of an ASCII letter of either case among the first `count` letters.
pub open spec fn letter_index(c: char, count: u32) -> Option<int> {
    let u = c as u32;
    if 65 <= u < 65 + count {
        Some(u - 65)
    } else if 97 <= u < 97 + count {
        Some(u - 97)
    } else {
        None
    }
}

pub open spec fn digit_index(c: char) -> Option<int> {
    let u = c as u32;
    if 48 <= u <= 57 {
        Some(u - 48)
    } else {
        None
    }
}

pub open spec fn ascii_upper(c: char) -> char {
    let u = c as u32;
    if 97 <= u <= 122 {
        ((u - 32) as u8) as char
    } else {
        c
    }
}

pub open spec fn ascii_lower(c: char) -> char {
    let u = c as u32;
    if 65 <= u <= 90 {
        ((u + 32) as u8) as char
    } else {
        c
    }
}

/// Half the width, in units, of a cell of a locator of `n` characters.
pub open spec fn half_lon(n: int) -> int {
    if n == 2 {
        4800
    } else if n == 4 {
        480
    } else if n == 6 {
        20
    } else {
        2
    }
}

/// Half the height, in units, of a cell of a locator of `n` characters.
pub open spec fn half_lat(n: int) -> int {
    if n == 2 {
        2400
    } else if n == 4 {
        240
    } else if n == 6 {
        10
    } else {
        1
    }
}

/// South-west corner of the cell named by the first `n` characters of `t`.
pub open spec fn corner_lon(t: Seq<char>, n: int) -> int {
    9600 * letter_index(t[0], 18)->0 - 86400
        + (if n >= 4 { 960 * digit_index(t[2])->0 } else { 0 })
        + (if n >= 6 { 40 * letter_index(t[4], 24)->0 } else { 0 })
        + (if n >= 8 { 4 * digit_index(t[6])->0 } else { 0 })
}

pub open spec fn corner_lat(t: Seq<char>, n: int) -> int {
    4800 * letter_index(t[1], 18)->0 - 43200
        + (if n >= 4 { 480 * digit_index(t[3])->0 } else { 0 })
        + (if n >= 6 { 20 * letter_index(t[5], 24)->0 } else { 0 })
        + (if n >= 8 { 2 * digit_index(t[7])->0 } else { 0 })
}

/// Centre of the cell named by the first `n` characters of `t`.
pub open spec fn cell_centre(t: Seq<char>, n: int) -> GridPoint {
    GridPoint {
        lat: (corner_lat(t, n) + half_lat(n)) as i32,
        lon: (corner_lon(t, n) + half_lon(n)) as i32,
    }
}

/// Decoding of trimmed characters `t`, pair by pair.
pub open spec fn decode_chars(t: Seq<char>) -> Result<GridPoint, LocatorError> {
    let n = t.len();
    if !(n == 2 || n == 4 || n == 6 || n == 8) {
        Err(LocatorError::BadLength)
    } else if letter_index(t[0], 18) is None || letter_index(t[1], 18) is None {
        Err(LocatorError::BadField(ascii_upper(t[0]), ascii_upper(t[1])))
    } else if n == 2 {
        Ok(cell_centre(t, 2))
    } else if digit_index(t[2]) is None || digit_index(t[3]) is None {
        Err(LocatorError::BadSquare(t[2], t[3]))
    } else if n == 4 {
        Ok(cell_centre(t, 4))
    } else if letter_index(t[4], 24) is None || letter_index(t[5], 24) is None {
        Err(LocatorError::BadSubsquare(ascii_lower(t[4]), ascii_lower(t[5])))
    } else if n == 6 {
        Ok(cell_centre(t, 6))
    } else if digit_index(t[6]) is None || digit_index(t[7]) is None {
        Err(LocatorError::BadExtended(t[6], t[7]))
    } else {
        Ok(cell_centre(t, 8))
    }
}

/// What decoding the text `s` comes to: its characters, trimmed.
pub open spec fn locator_result(s: Seq<char>) -> Result<GridPoint, LocatorError> {
    decode_chars(trim(s))
}

fn letter_at(c: char, count: u32) -> (r: Option<i32>)
    requires
        count <= 26,
    ensures
        r matches Some(v) ==> letter_index(c, count) == Some(v as int),
        r is None ==> letter_index(c, count) is None,
{
    let u = c as u32;
    if 65 <= u && u < 65 + count {
        Some((u - 65) as i32)
    } else if 97 <= u && u < 97 + count {
        Some((u - 97) as i32)
    } else {
        None
    }
}

fn digit_at(c: char) -> (r: Option<i32>)
    ensures
        r matches Some(v) ==> digit_index(c) == Some(v as int),
        r is None ==> digit_index(c) is None,
{
    let u = c as u32;
    if 48 <= u && u <= 57 {
        Some((u - 48) as i32)
    } else {
        None
    }
}

fn to_upper(c: char) -> (r: char)
    ensures
        r == ascii_upper(c),
{
    let u = c as u32;
    if 97 <= u && u <= 122 {
        ((u - 32) as u8) as char
    } else {
        c
    }
}

fn to_lower(c: char) -> (r: char)
    ensures
        r == ascii_lower(c),
{
    let u = c as u32;
    if 65 <= u && u <= 90 {
        ((u + 32) as u8) as char
    } else {
        c
    }
}

/// Decode a locator (surrounding white space ignored) to the centre of its
/// smallest cell.
pub fn decode(locator: &str) -> (r: Result<GridPoint, LocatorError>)
    ensures
        r == locator_result(locator@),
{
    let all = chars_of(locator);
    let (lo, hi) = trim_bounds(&all);
    let mut t: Vec<char> = Vec::new();
    let mut i = lo;
    while i < hi
        invariant
            lo <= i <= hi <= all.len(),
            t@ == all@.subrange(lo as int, i as int),
        decreases hi - i,
    {
        t.push(all[i]);
        i = i + 1;
    }
    let n = t.len();
    if !(n == 2 || n == 4 || n == 6 || n == 8) {
        return Err(LocatorError::BadLength);
    }
    // Field (always present).
    let f1 = letter_at(t[0], 18);
    let f2 = letter_at(t[1], 18);
    let (f1, f2) = match (f1, f2) {
        (Some(a), Some(b)) => (a, b),
        _ => return Err(LocatorError::BadField(to_upper(t[0]), to_upper(t[1]))),
    };
    let mut lon: i32 = 9600 * f1 - 86400;
    let mut lat: i32 = 4800 * f2 - 43200;
    let mut half_lon_units: i32 = 4800;
    let mut half_lat_units: i32 = 2400;
    if n >= 4 {
        let (s1, s2) = match (digit_at(t[2]), digit_at(t[3])) {
            (Some(a), Some(b)) => (a, b),
            _ => return Err(LocatorError::BadSquare(t[2], t[3])),
        };
        lon = lon + 960 * s1;
        lat = lat + 480 * s2;
        half_lon_units = 480;
        half_lat_units = 240;
    }
    if n >= 6 {
        let (u1, u2) = match (letter_at(t[4], 24), letter_at(t[5], 24)) {
            (Some(a), Some(b)) => (a, b),
            _ => return Err(LocatorError::BadSubsquare(to_lower(t[4]), to_lower(t[5]))),
        };
        lon = lon + 40 * u1;
        lat = lat + 20 * u2;
        half_lon_units = 20;
        half_lat_units = 10;
    }
    if n >= 8 {
        let (e1, e2) = match (digit_at(t[6]), digit_at(t[7])) {
            (Some(a), Some(b)) => (a, b),
            _ => return Err(LocatorError::BadExtended(t[6], t[7])),
        };
        lon = lon + 4 * e1;
        lat = lat + 2 * e2;
        half_lon_units = 2;
        half_lat_units = 1;
    }
    // Centre within the smallest specified cell.
    Ok(GridPoint { lat: lat + half_lat_units, lon: lon + half_lon_units })
}

// ---- laws -----------------------------------------------------------------

/// A decoded point lies strictly inside the globe's coordinate range.
pub proof fn law_point_in_range(s: Seq<char>)
    requires
        locator_result(s) is Ok,
    ensures
        -90 * 480 < (locator_result(s)->Ok_0).lat < 90 * 480,
        -180 * 480 < (locator_result(s)->Ok_0).lon < 180 * 480,
{
}

/// Decoding ignores the letter case of the locator: the same inputs decode,
/// to the same point.
pub proof fn law_case_insensitive(s: Seq<char>, u: Seq<char>)
    requires
        s.len() == u.len(),
        forall|i: int| 0 <= i < s.len() ==> same_ignoring_case(#[trigger] s[i], u[i]),
    ensures
        (locator_result(s) is Ok) == (locator_result(u) is Ok),
        locator_result(s) is Ok ==> locator_result(s) == locator_result(u),
{
    lemma_trim_case(s, u);
    let ts = trim(s);
    let tu = trim(u);
    if ts.len() >= 2 {
        assert(same_ignoring_case(ts[0], tu[0]));
        assert(same_ignoring_case(ts[1], tu[1]));
    }
    if ts.len() >= 4 {
        assert(same_ignoring_case(ts[2], tu[2]));
        assert(same_ignoring_case(ts[3], tu[3]));
    }
    if ts.len() >= 6 {
        assert(same_ignoring_case(ts[4], tu[4]));
        assert(same_ignoring_case(ts[5], tu[5]));
    }
    if ts.len() >= 8 {
        assert(same_ignoring_case(ts[6], tu[6]));
        assert(same_ignoring_case(ts[7], tu[7]));
    }
}

/// Extending a locator with more characters gives a point inside the cell
/// of the shorter one: the cells nest.
pub proof fn law_refinement_stays_in_cell(a: Seq<char>, b: Seq<char>)
    requires
        locator_result(a) is Ok,
        locator_result(b) is Ok,
        trim(a).len() <= trim(b).len(),
        forall|i: int| 0 <= i < trim(a).len() ==> #[trigger] trim(a)[i] == trim(b)[i],
    ensures
        ({
            let p = locator_result(a)->Ok_0;
            let q = locator_result(b)->Ok_0;
            let n = trim(a).len() as int;
            &&& p.lon - half_lon(n) < q.lon < p.lon + half_lon(n)
            &&& p.lat - half_lat(n) < q.lat < p.lat + half_lat(n)
        }),
{
    let ta = trim(a);
    let tb = trim(b);
    assert(ta[0] == tb[0] && ta[1] == tb[1]);
    if ta.len() >= 4 {
        assert(ta[2] == tb[2] && ta[3] == tb[3]);
    }
    if ta.len() >= 6 {
        assert(ta[4] == tb[4] && ta[5] == tb[5]);
    }
    if ta.len() >= 8 {
        assert(ta[6] == tb[6] && ta[7] == tb[7]);
    }
}

} // verus!
