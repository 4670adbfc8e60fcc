//! Hex color parsing for config values.
//!
//! Accepts the three CSS-style hex shorthands, after trimming white space:
//!
//! - `#rgb`       — each digit doubled (`#abc` is `#aabbcc`)
//! - `#rrggbb`    — full 24-bit RGB
//! - `#rrggbbaa`  — 24-bit RGB plus alpha
//!
//! Only ASCII hex digits (either case) are accepted after the `#`.

use vstd::prelude::*;
use vstd::string::StrSliceExecFns;
use crate::text::{
    debug_quoted, debug_string, push_str, chars_of, is_ws, lemma_trim_case, same_ignoring_case, trim, trim_bounds, trim_end, trim_start,
};

verus! {

/// An RGBA color parsed from a CSS-style hex string. Components are stored
/// unmultiplied (the values from the source hex).
#[derive(Debug, Clone, Copy, PartialEq, Eq, Structural)]
pub struct Color {
    pub r: u8,
    pub g: u8,
    pub b: u8,
    pub a: u8,
}

/// The trimmed text that failed to parse as a color.
#[derive(Debug)]
pub struct ColorParseError(String);

impl View for ColorParseError {
    type V = Seq<char>;

    closed spec fn view(&self) -> Seq<char> {
        self.0@
    }
}

impl ColorParseError {
    /// The offending (trimmed) input.
    pub fn input(&self) -> (s: String)
        ensures
            s@ == self@,
    {
        self.0.clone()
    }

    /// The error's text: the offending input, quoted, and the accepted forms.
    pub fn message(&self) -> (m: String)
        ensures
            m@ == "invalid color "@ + debug_quoted(self@)
                + " (expected #rgb, #rrggbb, or #rrggbbaa)"@,
    {
        let mut m = String::new();
        push_str(&mut m, "invalid color ");
        push_str(&mut m, debug_string(self.0.as_str()).as_str());
        push_str(&mut m, " (expected #rgb, #rrggbb, or #rrggbbaa)");
        m
    }
}

/// Value of one hexadecimal digit (either case).
pub open spec fn hex_value(c: char) -> Option<u8> {
    let u = c as u32;
    if 48 <= u <= 57 {
        Some((u - 48) as u8)
    } else if 97 <= u <= 102 {
        Some((u - 87) as u8)
    } else if 65 <= u <= 70 {
        Some((u - 55) as u8)
    } else {
        None
    }
}

/// The byte that two hex digits spell, high digit first.
pub open spec fn byte_value(c1: char, c2: char) -> Option<u8> {
    match (hex_value(c1), hex_value(c2)) {
        (Some(h), Some(l)) => Some((16 * h + l) as u8),
        _ => None,
    }
}

/// One digit expanded to a full byte (`a` is `0xaa`).
pub open spec fn nibble_value(c: char) -> Option<u8> {
    match hex_value(c) {
        Some(n) => Some((17 * n) as u8),
        None => None,
    }
}

/// The color that a trimmed input denotes, if any.
pub open spec fn color_of(t: Seq<char>) -> Option<Color> {
    if t.len() == 9 && t[0] == '#' {
        match (
            byte_value(t[1], t[2]),
            byte_value(t[3], t[4]),
            byte_value(t[5], t[6]),
            byte_value(t[7], t[8]),
        ) {
            (Some(r), Some(g), Some(b), Some(a)) => Some(Color { r, g, b, a }),
            _ => None,
        }
    } else if t.len() == 7 && t[0] == '#' {
        match (byte_value(t[1], t[2]), byte_value(t[3], t[4]), byte_value(t[5], t[6])) {
            (Some(r), Some(g), Some(b)) => Some(Color { r, g, b, a: 0xff }),
            _ => None,
        }
    } else if t.len() == 4 && t[0] == '#' {
        match (nibble_value(t[1]), nibble_value(t[2]), nibble_value(t[3])) {
            (Some(r), Some(g), Some(b)) => Some(Color { r, g, b, a: 0xff }),
            _ => None,
        }
    } else {
        None
    }
}

/// What `Color::parse` gives for an input string.
pub open spec fn parse_result(s: Seq<char>) -> Option<Color> {
    color_of(trim(s))
}

// ---- the grammar, step by step --------------------------------------------
// Each step reads at a position of the input and, on success, gives the
// position after what it consumed.

spec fn nibble_at(s: Seq<char>, p: int) -> Option<(int, u8)> {
    if 0 <= p < s.len() {
        match nibble_value(s[p]) {
            Some(v) => Some((p + 1, v)),
            None => None,
        }
    } else {
        None
    }
}

spec fn byte_at(s: Seq<char>, p: int) -> Option<(int, u8)> {
    if 0 <= p && p + 2 <= s.len() {
        match byte_value(s[p], s[p + 1]) {
            Some(v) => Some((p + 2, v)),
            None => None,
        }
    } else {
        None
    }
}

spec fn short_at(s: Seq<char>, p: int) -> Option<(int, Color)> {
    match (nibble_at(s, p), nibble_at(s, p + 1), nibble_at(s, p + 2)) {
        (Some((_, r)), Some((_, g)), Some((q, b))) => Some((q, Color { r, g, b, a: 0xff })),
        _ => None,
    }
}

spec fn long_at(s: Seq<char>, p: int) -> Option<(int, Color)> {
    match (byte_at(s, p), byte_at(s, p + 2), byte_at(s, p + 4)) {
        (Some((_, r)), Some((_, g)), Some((q, b))) => Some((q, Color { r, g, b, a: 0xff })),
        _ => None,
    }
}

spec fn long_alpha_at(s: Seq<char>, p: int) -> Option<(int, Color)> {
    match (byte_at(s, p), byte_at(s, p + 2), byte_at(s, p + 4), byte_at(s, p + 6)) {
        (Some((_, r)), Some((_, g)), Some((_, b)), Some((q, a))) => Some((q, Color { r, g, b, a })),
        _ => None,
    }
}

/// `#` followed by the first of the three forms, longest first, that reads.
spec fn hex_color_at(s: Seq<char>, p: int) -> Option<(int, Color)> {
    if 0 <= p < s.len() && s[p] == '#' {
        if long_alpha_at(s, p + 1) is Some {
            long_alpha_at(s, p + 1)
        } else if long_at(s, p + 1) is Some {
            long_at(s, p + 1)
        } else {
            short_at(s, p + 1)
        }
    } else {
        None
    }
}

/// The grammar, read from the start and required to consume everything,
/// denotes exactly `color_of`.
proof fn lemma_grammar_is_color_of(t: Seq<char>)
    ensures
        color_of(t) == (match hex_color_at(t, 0) {
            Some((q, c)) => if q == t.len() {
                Some(c)
            } else {
                None
            },
            None => None,
        }),
{
}

fn hex_digit(c: char) -> (r: Option<u8>)
    ensures
        r == hex_value(c),
{
    let u = c as u32;
    if 48 <= u && u <= 57 {
        Some((u - 48) as u8)
    } else if 97 <= u && u <= 102 {
        Some((u - 87) as u8)
    } else if 65 <= u && u <= 70 {
        Some((u - 55) as u8)
    } else {
        None
    }
}

/// One hex digit expanded to a full byte (`a` is `0xaa`). Used by `#rgb`.
fn hex_nibble(s: &Vec<char>, p: usize) -> (r: Option<(usize, u8)>)
    ensures
        r matches Some((q, v)) ==> nibble_at(s@, p as int) == Some((q as int, v)),
        r is None ==> nibble_at(s@, p as int) is None,
{
    if p >= s.len() {
        return None;
    }
    match hex_digit(s[p]) {
        Some(n) => Some((p + 1, n * 17)),
        None => None,
    }
}

/// Two hex digits to one byte. Used by `#rrggbb` and
/// `#rrggbbaa`.
fn hex_byte(s: &Vec<char>, p: usize) -> (r: Option<(usize, u8)>)
    ensures
        r matches Some((q, v)) ==> byte_at(s@, p as int) == Some((q as int, v)),
        r is None ==> byte_at(s@, p as int) is None,
{
    if p >= s.len() || s.len() - p < 2 {
        return None;
    }
    match (hex_digit(s[p]), hex_digit(s[p + 1])) {
        (Some(h), Some(l)) => Some((p + 2, 16 * h + l)),
        _ => None,
    }
}

fn parse_short(s: &Vec<char>, p: usize) -> (r: Option<(usize, Color)>)
    requires
        p < usize::MAX - 8,
    ensures
        r matches Some((q, c)) ==> short_at(s@, p as int) == Some((q as int, c)),
        r is None ==> short_at(s@, p as int) is None,
{
    let (p1, r) = match hex_nibble(s, p) {
        Some(x) => x,
        None => return None,
    };
    let (p2, g) = match hex_nibble(s, p1) {
        Some(x) => x,
        None => return None,
    };
    let (p3, b) = match hex_nibble(s, p2) {
        Some(x) => x,
        None => return None,
    };
    Some((p3, Color { r, g, b, a: 0xff }))
}

fn parse_long(s: &Vec<char>, p: usize) -> (r: Option<(usize, Color)>)
    requires
        p < usize::MAX - 8,
    ensures
        r matches Some((q, c)) ==> long_at(s@, p as int) == Some((q as int, c)),
        r is None ==> long_at(s@, p as int) is None,
{
    let (p1, r) = match hex_byte(s, p) {
        Some(x) => x,
        None => return None,
    };
    let (p2, g) = match hex_byte(s, p1) {
        Some(x) => x,
        None => return None,
    };
    let (p3, b) = match hex_byte(s, p2) {
        Some(x) => x,
        None => return None,
    };
    Some((p3, Color { r, g, b, a: 0xff }))
}

fn parse_long_alpha(s: &Vec<char>, p: usize) -> (r: Option<(usize, Color)>)
    requires
        p < usize::MAX - 8,
    ensures
        r matches Some((q, c)) ==> long_alpha_at(s@, p as int) == Some((q as int, c)),
        r is None ==> long_alpha_at(s@, p as int) is None,
{
    let (p1, r) = match hex_byte(s, p) {
        Some(x) => x,
        None => return None,
    };
    let (p2, g) = match hex_byte(s, p1) {
        Some(x) => x,
        None => return None,
    };
    let (p3, b) = match hex_byte(s, p2) {
        Some(x) => x,
        None => return None,
    };
    let (p4, a) = match hex_byte(s, p3) {
        Some(x) => x,
        None => return None,
    };
    Some((p4, Color { r, g, b, a }))
}

/// `#` then the longest form that reads; the caller checks that all input
/// was consumed.
fn hex_color(s: &Vec<char>, p: usize) -> (r: Option<(usize, Color)>)
    requires
        p < usize::MAX - 9,
    ensures
        r matches Some((q, c)) ==> hex_color_at(s@, p as int) == Some((q as int, c)),
        r is None ==> hex_color_at(s@, p as int) is None,
{
    if p >= s.len() || s[p] != '#' {
        return None;
    }
    if let Some(x) = parse_long_alpha(s, p + 1) {
        return Some(x);
    }
    if let Some(x) = parse_long(s, p + 1) {
        return Some(x);
    }
    parse_short(s, p + 1)
}

/// `v * (f / 255)` rounded, in integers, as egui's `mul_frac_round`.
pub open spec fn mul_frac_round(v: u8, f: u8) -> u8 {
    let p = v as int * f as int + 128;
    ((p + p / 256) / 256) as u8
}

/// The RGBA bytes of `c` with alpha premultiplied, as egui's `Color32`
/// stores them: transparent is all zero, opaque keeps its channels.
pub open spec fn premultiplied(c: Color) -> Seq<u8> {
    if c.a == 0 {
        seq![0u8, 0u8, 0u8, 0u8]
    } else if c.a == 255 {
        seq![c.r, c.g, c.b, 255u8]
    } else {
        seq![mul_frac_round(c.r, c.a), mul_frac_round(c.g, c.a), mul_frac_round(c.b, c.a), c.a]
    }
}

/// `egui::Color32::from_rgba_unmultiplied(r, g, b, a).to_array()`. Claimed:
/// the bytes are those of ecolor's `from_rgba_unmultiplied_const` (all zero
/// for alpha 0, the channels unchanged for alpha 255, else each channel
/// through `mul_frac_round`), in RGBA order.
#[verifier::external_body]
fn color32_rgba(r: u8, g: u8, b: u8, a: u8) -> (px: [u8; 4])
    ensures
        px@ == premultiplied(Color { r, g, b, a }),
{
    egui::Color32::from_rgba_unmultiplied(r, g, b, a).to_array()
}

impl Color {
    /// The premultiplied RGBA bytes egui draws this color with (its
    /// `Color32`).
    pub fn to_premultiplied(&self) -> (px: [u8; 4])
        ensures
            px@ == premultiplied(*self),
    {
        color32_rgba(self.r, self.g, self.b, self.a)
    }

    /// Opaque color from its three channels.
    pub fn rgb(r: u8, g: u8, b: u8) -> (c: Self)
        ensures
            c == (Color { r, g, b, a: 0xff }),
    {
        Color { r, g, b, a: 0xff }
    }

    /// Parse a CSS-style hex color. Leading and trailing white space is
    /// trimmed; the error carries the trimmed text.
    pub fn parse(s: &str) -> (res: Result<Self, ColorParseError>)
        ensures
            res matches Ok(c) ==> parse_result(s@) == Some(c),
            res matches Err(e) ==> parse_result(s@) is None && e@ == trim(s@),
    {
        let all = chars_of(s);
        let (lo, hi) = trim_bounds(&all);
        let mut t: Vec<char> = Vec::new();
        let mut i = lo;
        while i < hi
            invariant
                lo <= i <= hi <= all.len(),
                t@ == all@.subrange(lo as int, i as int),
            decreases hi - i,
        {
            t.push(all[i]);
            i = i + 1;
        }
        proof {
            lemma_grammar_is_color_of(t@);
        }
        match hex_color(&t, 0) {
            Some((q, c)) if q == t.len() => Ok(c),
            _ => Err(ColorParseError(s.substring_char(lo, hi).to_owned())),
        }
    }
}

// ---- laws -----------------------------------------------------------------

/// Every character of `w` is white space.
pub open spec fn all_ws(w: Seq<char>) -> bool {
    forall|i: int| 0 <= i < w.len() ==> is_ws(#[trigger] w[i])
}

proof fn lemma_trim_start_skips_ws(w: Seq<char>, x: Seq<char>)
    requires
        all_ws(w),
    ensures
        trim_start(w + x) == trim_start(x),
    decreases w.len(),
{
    if w.len() > 0 {
        assert((w + x)[0] == w[0]);
        assert((w + x).drop_first() =~= w.drop_first() + x);
        lemma_trim_start_skips_ws(w.drop_first(), x);
    } else {
        assert(w + x =~= x);
    }
}

proof fn lemma_trim_start_concat(x: Seq<char>, y: Seq<char>)
    ensures
        trim_start(x + y) == if trim_start(x).len() > 0 {
            trim_start(x) + y
        } else {
            trim_start(y)
        },
    decreases x.len(),
{
    if x.len() == 0 {
        assert(x + y =~= y);
    } else {
        assert((x + y)[0] == x[0]);
        if is_ws(x[0]) {
            assert((x + y).drop_first() =~= x.drop_first() + y);
            lemma_trim_start_concat(x.drop_first(), y);
        }
    }
}

proof fn lemma_trim_end_skips_ws(x: Seq<char>, w: Seq<char>)
    requires
        all_ws(w),
    ensures
        trim_end(x + w) == trim_end(x),
    decreases w.len(),
{
    if w.len() > 0 {
        assert((x + w).last() == w.last());
        assert((x + w).drop_last() =~= x + w.drop_last());
        lemma_trim_end_skips_ws(x, w.drop_last());
    } else {
        assert(x + w =~= x);
    }
}

/// White space around a color does not change what it parses to.
pub proof fn law_surrounding_whitespace_ignored(w1: Seq<char>, t: Seq<char>, w2: Seq<char>)
    requires
        all_ws(w1),
        all_ws(w2),
    ensures
        trim(w1 + t + w2) == trim(t),
        parse_result(w1 + t + w2) == parse_result(t),
{
    assert(w1 + t + w2 =~= w1 + (t + w2));
    lemma_trim_start_skips_ws(w1, t + w2);
    lemma_trim_start_concat(t, w2);
    let e: Seq<char> = Seq::empty();
    lemma_trim_start_skips_ws(w2, e);
    assert(w2 + e =~= w2);
    if trim_start(t).len() > 0 {
        lemma_trim_end_skips_ws(trim_start(t), w2);
    }
}

/// Hex digits read the same in either letter case.
proof fn lemma_hex_value_case(c: char, d: char)
    requires
        same_ignoring_case(c, d),
    ensures
        hex_value(c) == hex_value(d),
{
}

/// Parsing ignores the letter case of the input.
pub proof fn law_case_insensitive(t: Seq<char>, u: Seq<char>)
    requires
        t.len() == u.len(),
        forall|i: int| 0 <= i < t.len() ==> same_ignoring_case(#[trigger] t[i], u[i]),
    ensures
        color_of(t) == color_of(u),
        parse_result(t) == parse_result(u),
{
    assert forall|i: int| 0 <= i < t.len() implies hex_value(#[trigger] t[i]) == hex_value(u[i])
        && (t[i] == '#' <==> u[i] == '#') by {
        lemma_hex_value_case(t[i], u[i]);
    }
    lemma_trim_case(t, u);
    let tt = trim(t);
    let uu = trim(u);
    assert forall|i: int| 0 <= i < tt.len() implies hex_value(#[trigger] tt[i]) == hex_value(uu[i])
        && (tt[i] == '#' <==> uu[i] == '#') by {
        lemma_hex_value_case(tt[i], uu[i]);
    }
}

/// The `#rgb` form is `#rrggbb` with each digit doubled.
pub proof fn law_short_form_doubles_digits(x: char, y: char, z: char)
    requires
        hex_value(x) is Some,
        hex_value(y) is Some,
        hex_value(z) is Some,
    ensures
        color_of(seq!['#', x, y, z]) == color_of(seq!['#', x, x, y, y, z, z]),
        color_of(seq!['#', x, y, z]) is Some,
{
}

} // verus!
