//! Configuration vocabulary: marker kinds, slots, window overrides, the
//! IANA time-zone lookup and the defaults that config values fall back to.

use vstd::prelude::*;
use vstd::string::StringExecFns;
use crate::color::Color;
use crate::text::str_eq;

verus! {

#[verifier::external_type_specification]
#[verifier::external_body]
pub struct ExTz(chrono_tz::Tz);

/// What chrono-tz's table of IANA time zones holds under `name`: the zone
/// stored there, or none when the table has no such name.
pub uninterp spec fn tz_lookup(name: Seq<char>) -> Option<chrono_tz::Tz>;

/// `chrono_tz::Tz::from_str`: an exact lookup of `name` in the IANA zone
/// table compiled into chrono-tz. Claimed: the result is what that table
/// holds under the name, a function of the name alone.
#[verifier::external_body]
pub(crate) fn parse_tz(name: &str) -> (r: Option<chrono_tz::Tz>)
    ensures
        r == tz_lookup(name@),
{
    match name.parse::<chrono_tz::Tz>() {
        Ok(tz) => Some(tz),
        Err(_) => None,
    }
}

/// Visual style of a map marker.
#[derive(Debug, Clone, Copy, PartialEq, Eq, Structural)]
pub enum MarkerKind {
    Dot,
}

/// Why a marker's style could not be resolved.
#[derive(Debug, Clone, PartialEq, Eq)]
pub enum MarkerStyleError {
    /// The `kind` is not one this program draws.
    UnknownKind(String),
    /// The `timezone` is not an IANA zone name.
    UnknownTimezone(String),
}

/// Resolve a marker's `kind` and optional `timezone`, checked in that
/// order.
pub fn resolve_marker_style(kind: &str, timezone: &Option<String>) -> (r: Result<
    (MarkerKind, Option<chrono_tz::Tz>),
    MarkerStyleError,
>)
    ensures
        kind@ != "dot"@ ==> (r matches Err(MarkerStyleError::UnknownKind(k)) && k@ == kind@),
        kind@ == "dot"@ ==> match timezone {
            None => (r matches Ok((MarkerKind::Dot, None))),
            Some(z) => match tz_lookup(z@) {
                Some(zone) => (r matches Ok((MarkerKind::Dot, Some(tz))) && tz == zone),
                None => (r matches Err(MarkerStyleError::UnknownTimezone(e)) && e@ == z@),
            },
        },
{
    if !str_eq(kind, "dot") {
        return Err(MarkerStyleError::UnknownKind(kind.to_owned()));
    }
    match timezone {
        None => Ok((MarkerKind::Dot, None)),
        Some(z) => match parse_tz(z.as_str()) {
            Some(tz) => Ok((MarkerKind::Dot, Some(tz))),
            None => Err(MarkerStyleError::UnknownTimezone(z.clone())),
        },
    }
}

/// Where an element goes on screen.
#[derive(Debug, Clone, Copy, PartialEq, Eq, Structural)]
pub enum SlotKind {
    Top,
    Center,
    Window,
}

/// Which side of the top panel a top element packs against.
#[derive(Debug, Clone, Copy, PartialEq, Eq, Structural)]
pub enum TopAlign {
    Left,
    Right,
}

impl Default for TopAlign {
    fn default() -> (a: Self)
        ensures
            a == TopAlign::Left,
    {
        TopAlign::Left
    }
}

/// The window settings that command-line flags can override.
#[derive(Debug, Clone, Copy, PartialEq, Eq, Structural)]
pub struct WindowFlags {
    pub width: u32,
    pub height: u32,
    pub fullscreen: bool,
    pub no_cursor: bool,
}

/// The command-line overrides: a size replaces the configured one, a flag
/// that is set switches the setting on.
#[derive(Debug, Clone, Copy, PartialEq, Eq, Structural)]
pub struct CliOverrides {
    pub width: Option<u32>,
    pub height: Option<u32>,
    pub fullscreen: bool,
    pub no_cursor: bool,
}

pub open spec fn overridden(w: WindowFlags, cli: CliOverrides) -> WindowFlags {
    WindowFlags {
        width: match cli.width {
            Some(x) => x,
            None => w.width,
        },
        height: match cli.height {
            Some(x) => x,
            None => w.height,
        },
        fullscreen: w.fullscreen || cli.fullscreen,
        no_cursor: w.no_cursor || cli.no_cursor,
    }
}

impl WindowFlags {
    /// Apply the command-line overrides on top of the configured values.
    pub fn apply_cli(&mut self, cli: &CliOverrides)
        ensures
            *final(self) == overridden(*old(self), *cli),
    {
        if let Some(w) = cli.width {
            self.width = w;
        }
        if let Some(h) = cli.height {
            self.height = h;
        }
        if cli.fullscreen {
            self.fullscreen = true;
        }
        if cli.no_cursor {
            self.no_cursor = true;
        }
    }
}

/// Applying the same overrides twice changes nothing the first time did not.
pub proof fn law_overrides_idempotent(w: WindowFlags, cli: CliOverrides)
    ensures
        overridden(overridden(w, cli), cli) == overridden(w, cli),
{
}

/// A size given on the command line replaces the configured one and an
/// absent one leaves it; a flag that is set switches its setting on, an unset
/// flag leaves the configured setting.
pub proof fn law_cli_overrides(w: WindowFlags, cli: CliOverrides)
    ensures
        cli.width matches Some(x) ==> overridden(w, cli).width == x,
        cli.width is None ==> overridden(w, cli).width == w.width,
        cli.height matches Some(h) ==> overridden(w, cli).height == h,
        cli.height is None ==> overridden(w, cli).height == w.height,
        cli.fullscreen ==> overridden(w, cli).fullscreen,
        !cli.fullscreen ==> overridden(w, cli).fullscreen == w.fullscreen,
        cli.no_cursor ==> overridden(w, cli).no_cursor,
        !cli.no_cursor ==> overridden(w, cli).no_cursor == w.no_cursor,
{
}

pub fn default_marker_kind() -> (s: String)
    ensures
        s@ == "dot"@,
{
    String::from_str("dot")
}

pub fn default_width() -> (w: u32)
    ensures
        w == 1920,
{
    1920
}

pub fn default_height() -> (h: u32)
    ensures
        h == 1080,
{
    1080
}

pub fn default_background() -> (c: Color)
    ensures
        c == (Color { r: 0x0a, g: 0x0a, b: 0x14, a: 0xff }),
{
    Color::rgb(0x0a, 0x0a, 0x14)
}

pub fn default_true() -> (b: bool)
    ensures
        b,
{
    true
}

/// Where a config file was found.
#[derive(Debug, Clone, Copy, PartialEq, Eq, Structural)]
pub enum ConfigPlace {
    /// The `--config` path.
    Explicit,
    /// `<config-dir>/wjmclock/wjmclock.toml`.
    Platform,
    /// `./wjmclock.toml`.
    Local,
}

/// What loading the config comes to.
#[derive(Debug, Clone, Copy, PartialEq, Eq, Structural)]
pub enum ConfigSource {
    /// Read the file found there.
    Read(ConfigPlace),
    /// A `--config` path was given and there is no file there.
    NotFound,
    /// No config anywhere: use the built-in defaults.
    Defaults,
}

/// The config lookup order: an explicit `--config` path (which must exist),
/// then the platform config directory, then the working directory, then
/// the defaults. `explicit` is whether the `--config` file exists, when one
/// was given; `platform` whether the platform file exists, when the platform
/// has a config directory.
pub fn config_source(explicit: Option<bool>, platform: Option<bool>, local_exists: bool) -> (r:
    ConfigSource)
    ensures
        r == (match explicit {
            Some(true) => ConfigSource::Read(ConfigPlace::Explicit),
            Some(false) => ConfigSource::NotFound,
            None => if platform == Some(true) {
                ConfigSource::Read(ConfigPlace::Platform)
            } else if local_exists {
                ConfigSource::Read(ConfigPlace::Local)
            } else {
                ConfigSource::Defaults
            },
        }),
{
    match explicit {
        Some(exists) => if exists {
            ConfigSource::Read(ConfigPlace::Explicit)
        } else {
            ConfigSource::NotFound
        },
        None => match platform {
            Some(true) => ConfigSource::Read(ConfigPlace::Platform),
            _ => if local_exists {
                ConfigSource::Read(ConfigPlace::Local)
            } else {
                ConfigSource::Defaults
            },
        },
    }
}

/// The elements of a config file, or the default layout when it names
/// none.
pub fn elements_or_defaults<T>(given: Vec<T>, defaults: Vec<T>) -> (elements: Vec<T>)
    ensures
        elements@ == if given@.len() == 0 {
            defaults@
        } else {
            given@
        },
{
    if given.len() == 0 {
        defaults
    } else {
        given
    }
}

} // verus!
