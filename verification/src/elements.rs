//! The element vocabulary: which element types exist, the tests their
//! configs go through, their defaults, and the text the propagation panel
//! shows.

use vstd::prelude::*;
use vstd::string::StringExecFns;
use crate::bands::{hf_band_table, hf_bands, Band};
use crate::color::Color;
use crate::text::{padded2, push_char, push_padded2, push_str, str_eq};

verus! {

/// The element types a config can name.
#[derive(Debug, Clone, Copy, PartialEq, Eq, Structural)]
pub enum ElementKind {
    Clock,
    WorldMap,
    Callsign,
    Propagation,
}

/// An element `type` that names no element.
#[derive(Debug, Clone, PartialEq, Eq)]
pub struct UnknownElement(pub String);

pub open spec fn element_kind_of(name: Seq<char>) -> Option<ElementKind> {
    if name == "clock"@ {
        Some(ElementKind::Clock)
    } else if name == "map"@ {
        Some(ElementKind::WorldMap)
    } else if name == "callsign"@ {
        Some(ElementKind::Callsign)
    } else if name == "propagation"@ {
        Some(ElementKind::Propagation)
    } else {
        None
    }
}

impl ElementKind {
    /// The element type named by a config's `type`.
    pub fn parse(name: &str) -> (r: Result<ElementKind, UnknownElement>)
        ensures
            r matches Ok(k) ==> element_kind_of(name@) == Some(k),
            r matches Err(e) ==> element_kind_of(name@) is None && e.0@ == name@,
    {
        if str_eq(name, "clock") {
            Ok(ElementKind::Clock)
        } else if str_eq(name, "map") {
            Ok(ElementKind::WorldMap)
        } else if str_eq(name, "callsign") {
            Ok(ElementKind::Callsign)
        } else if str_eq(name, "propagation") {
            Ok(ElementKind::Propagation)
        } else {
            Err(UnknownElement(name.to_owned()))
        }
    }
}

// ---- callsign ---------------------------------------------------------------

/// Default color of a callsign element.
pub fn default_callsign_color() -> (c: Color)
    ensures
        c == (Color { r: 0xff, g: 0xd6, b: 0x6b, a: 0xff }),
{
    Color::rgb(0xff, 0xd6, 0x6b)
}

// ---- map --------------------------------------------------------------------

/// A projection name the map does not draw.
#[derive(Debug, Clone, PartialEq, Eq)]
pub struct UnsupportedProjection(pub String);

/// The map draws the plate carrée, under either of its names.
pub fn check_projection(name: &str) -> (r: Result<(), UnsupportedProjection>)
    ensures
        r is Ok <==> (name@ == "equirectangular"@ || name@ == "platecarree"@),
        r matches Err(e) ==> e.0@ == name@,
{
    if str_eq(name, "equirectangular") || str_eq(name, "platecarree") {
        Ok(())
    } else {
        Err(UnsupportedProjection(name.to_owned()))
    }
}

pub fn default_projection() -> (s: String)
    ensures
        s@ == "equirectangular"@,
{
    String::from_str("equirectangular")
}

pub fn default_terminator() -> (b: bool)
    ensures
        b,
{
    true
}

pub fn default_coast_color() -> (c: Color)
    ensures
        c == (Color { r: 0x39, g: 0xc0, b: 0x8c, a: 0xff }),
{
    Color::rgb(0x39, 0xc0, 0x8c)
}

pub fn default_grid() -> (b: bool)
    ensures
        b,
{
    true
}

pub fn default_grid_color() -> (c: Color)
    ensures
        c == (Color { r: 0x1c, g: 0x3a, b: 0x3a, a: 0xff }),
{
    Color::rgb(0x1c, 0x3a, 0x3a)
}

pub fn default_subsolar_marker() -> (b: bool)
    ensures
        b,
{
    true
}

pub fn default_marker_color() -> (c: Color)
    ensures
        c == (Color { r: 0xff, g: 0x55, b: 0x77, a: 0xff }),
{
    Color::rgb(0xff, 0x55, 0x77)
}

pub fn default_night_color() -> (c: Color)
    ensures
        c == (Color { r: 0x04, g: 0x09, b: 0x1e, a: 0xff }),
{
    Color::rgb(0x04, 0x09, 0x1e)
}

pub fn default_twilight_color() -> (c: Color)
    ensures
        c == (Color { r: 0xff, g: 0xb0, b: 0x60, a: 0xff }),
{
    Color::rgb(0xff, 0xb0, 0x60)
}

pub fn default_day_color() -> (c: Color)
    ensures
        c == (Color { r: 0x15, g: 0x23, b: 0x3f, a: 0xff }),
{
    Color::rgb(0x15, 0x23, 0x3f)
}

pub fn default_coastline() -> (b: bool)
    ensures
        b,
{
    true
}

// ---- propagation --------------------------------------------------------------

/// The propagation element was configured without a home station.
#[derive(Debug, Clone, Copy, PartialEq, Eq, Structural)]
pub struct MissingHome;

/// Positions, in order, of the markers whose text differs from `home`.
pub open spec fn non_home(texts: Seq<String>, home: Seq<char>) -> Seq<int>
    decreases texts.len(),
{
    if texts.len() == 0 {
        Seq::empty()
    } else {
        let rest = non_home(texts.drop_last(), home);
        if texts.last()@ != home {
            rest.push(texts.len() - 1)
        } else {
            rest
        }
    }
}

/// Path targets: every marker but the home station (matched by text). A
/// propagation element needs a home station.
pub fn propagation_targets(home_text: &Option<String>, marker_texts: &Vec<String>) -> (r: Result<
    Vec<usize>,
    MissingHome,
>)
    ensures
        home_text is None <==> r is Err,
        r matches Ok(v) ==> v@.map_values(|i: usize| i as int) == non_home(
            marker_texts@,
            home_text->0@,
        ),
{
    let home = match home_text {
        Some(h) => h,
        None => return Err(MissingHome),
    };
    let mut v: Vec<usize> = Vec::new();
    let mut i: usize = 0;
    while i < marker_texts.len()
        invariant
            i <= marker_texts.len(),
            v@.map_values(|i: usize| i as int) == non_home(marker_texts@.take(i as int), home@),
        decreases marker_texts.len() - i,
    {
        proof {
            assert(marker_texts@.take(i + 1).drop_last() =~= marker_texts@.take(i as int));
        }
        if !(marker_texts[i] == *home) {
            v.push(i);
            proof {
                assert(v@.map_values(|i: usize| i as int) =~= non_home(
                    marker_texts@.take(i as int),
                    home@,
                ).push(i as int));
            }
        }
        i = i + 1;
    }
    proof {
        assert(marker_texts@.take(i as int) =~= marker_texts@);
    }
    Ok(v)
}

/// Labels of the bands flagged open, in band order.
pub open spec fn open_labels(open: Seq<bool>, bands: Seq<Band>) -> Seq<Seq<char>>
    decreases open.len(),
{
    if open.len() == 0 || bands.len() == 0 {
        Seq::empty()
    } else {
        let rest = open_labels(open.drop_last(), bands.drop_last());
        if open.last() {
            rest.push(bands.last().label@)
        } else {
            rest
        }
    }
}

/// Words joined by single spaces.
pub open spec fn joined(words: Seq<Seq<char>>) -> Seq<char>
    decreases words.len(),
{
    if words.len() == 0 {
        Seq::empty()
    } else if words.len() == 1 {
        words[0]
    } else {
        joined(words.drop_last()) + seq![' '] + words.last()
    }
}

/// The open-bands column of a path row: the open bands' labels, or a dash
/// when none is open.
pub open spec fn open_bands_text(open: Seq<bool>) -> Seq<char> {
    let labels = open_labels(open, hf_band_table());
    if labels.len() == 0 {
        "—"@
    } else {
        joined(labels)
    }
}

/// The labels of the bands of `hf_bands` whose flag in `open` is set,
/// space-separated; a dash when none is.
pub fn open_bands_string(open: &Vec<bool>) -> (s: String)
    requires
        open.len() == hf_band_table().len(),
    ensures
        s@ == open_bands_text(open@),
{
    let bands = hf_bands();
    let mut s = String::new();
    let mut count: usize = 0;
    let mut i: usize = 0;
    while i < bands.len()
        invariant
            bands@ == hf_band_table(),
            open.len() == bands.len(),
            i <= bands.len(),
            count <= i,
            count == open_labels(open@.take(i as int), bands@.take(i as int)).len(),
            s@ == joined(open_labels(open@.take(i as int), bands@.take(i as int))),
        decreases bands.len() - i,
    {
        proof {
            assert(open@.take(i + 1).drop_last() =~= open@.take(i as int));
            assert(bands@.take(i + 1).drop_last() =~= bands@.take(i as int));
        }
        if open[i] {
            if count > 0 {
                push_char(&mut s, ' ');
            }
            push_str(&mut s, bands[i].label);
            proof {
                let labels = open_labels(open@.take(i as int), bands@.take(i as int));
                let next = labels.push(bands@[i as int].label@);
                assert(next.drop_last() =~= labels);
                if count > 0 {
                    assert(s@ =~= joined(next));
                } else {
                    assert(labels.len() == 0);
                    assert(s@ =~= joined(next));
                }
            }
            count = count + 1;
        }
        i = i + 1;
    }
    proof {
        assert(open@.take(i as int) =~= open@);
        assert(bands@.take(i as int) =~= bands@);
    }
    if count == 0 {
        String::from_str("—")
    } else {
        s
    }
}

/// The propagation panel's status line, from the time of the last good
/// fetch (hour, minute, UTC) and whether the last fetch failed.
pub open spec fn status_text(fetched_at: Option<(u32, u32)>, has_error: bool) -> Seq<char> {
    match fetched_at {
        Some((h, m)) => if has_error {
            "STALE — "@ + padded2(h as nat, '0') + seq![':'] + padded2(m as nat, '0') + seq!['Z']
        } else {
            "as of "@ + padded2(h as nat, '0') + seq![':'] + padded2(m as nat, '0') + seq!['Z']
        },
        None => if has_error {
            "ERR"@
        } else {
            "loading…"@
        },
    }
}

pub fn status_line(fetched_at: Option<(u32, u32)>, has_error: bool) -> (s: String)
    ensures
        s@ == status_text(fetched_at, has_error),
{
    match fetched_at {
        Some((h, m)) => {
            let mut s = if has_error {
                String::from_str("STALE — ")
            } else {
                String::from_str("as of ")
            };
            push_padded2(&mut s, h as u64, '0');
            push_char(&mut s, ':');
            push_padded2(&mut s, m as u64, '0');
            push_char(&mut s, 'Z');
            proof {
                assert(s@ =~= status_text(fetched_at, has_error));
            }
            s
        },
        None => if has_error {
            String::from_str("ERR")
        } else {
            String::from_str("loading…")
        },
    }
}

/// A marker's local time as the map shows it: `HH:MM`, zero-padded.
pub fn marker_time_text(hour: u32, minute: u32) -> (s: String)
    ensures
        s@ == padded2(hour as nat, '0') + seq![':'] + padded2(minute as nat, '0'),
{
    let mut s = String::new();
    push_padded2(&mut s, hour as u64, '0');
    push_char(&mut s, ':');
    push_padded2(&mut s, minute as u64, '0');
    proof {
        assert(s@ =~= padded2(hour as nat, '0') + seq![':'] + padded2(minute as nat, '0'));
    }
    s
}

/// The color of the propagation panel's status line: warm when the last
/// fetch failed, cool otherwise.
pub fn status_color(has_error: bool) -> (c: Color)
    ensures
        c == (if has_error {
            Color { r: 255, g: 140, b: 90, a: 0xff }
        } else {
            Color { r: 140, g: 180, b: 200, a: 0xff }
        }),
{
    if has_error {
        Color::rgb(255, 140, 90)
    } else {
        Color::rgb(140, 180, 200)
    }
}

} // verus!
