//! Placing configured elements on screen: the top panel's two sides, the
//! single central element, and floating windows.

use vstd::prelude::*;
use crate::config::{SlotKind, TopAlign};
use crate::text::{chars_of, push_char};

verus! {

/// The full uppercase mapping of `c` (one or more characters), as
/// `char::to_uppercase` yields it.
pub uninterp spec fn uppercase_of(c: char) -> Seq<char>;

/// `char::to_uppercase`, collected. Claimed: the characters are the
/// Unicode uppercase mapping of `c`, a function of `c` alone.
#[verifier::external_body]
fn to_uppercase(c: char) -> (v: Vec<char>)
    ensures
        v@ == uppercase_of(c),
{
    c.to_uppercase().collect()
}

/// `s` with its first character in upper case.
pub open spec fn capitalized(s: Seq<char>) -> Seq<char> {
    if s.len() == 0 {
        Seq::empty()
    } else {
        uppercase_of(s[0]) + s.drop_first()
    }
}

/// `rest` with its first character replaced by `first_upper`, the
/// uppercase form of that character; empty stays empty.
pub fn join_capitalized(first_upper: &Vec<char>, rest: &Vec<char>) -> (r: String)
    ensures
        r@ == if rest@.len() == 0 {
            Seq::<char>::empty()
        } else {
            first_upper@ + rest@.drop_first()
        },
{
    let mut r = String::new();
    if rest.len() == 0 {
        return r;
    }
    let mut i: usize = 0;
    while i < first_upper.len()
        invariant
            i <= first_upper.len(),
            r@ == first_upper@.take(i as int),
        decreases first_upper.len() - i,
    {
        push_char(&mut r, first_upper[i]);
        assert(first_upper@.take(i + 1) =~= first_upper@.take(i as int).push(
            first_upper@[i as int],
        ));
        i = i + 1;
    }
    assert(first_upper@.take(i as int) =~= first_upper@);
    let mut j: usize = 1;
    while j < rest.len()
        invariant
            rest.len() >= 1,
            1 <= j <= rest.len(),
            r@ == first_upper@ + rest@.subrange(1, j as int),
        decreases rest.len() - j,
    {
        push_char(&mut r, rest[j]);
        assert(rest@.subrange(1, j + 1) =~= rest@.subrange(1, j as int).push(rest@[j as int]));
        j = j + 1;
    }
    assert(rest@.subrange(1, j as int) =~= rest@.drop_first());
    r
}

/// `s` with its first character in upper case.
pub fn capitalize(s: &str) -> (r: String)
    ensures
        r@ == capitalized(s@),
{
    let v = chars_of(s);
    if v.len() == 0 {
        return String::new();
    }
    let first = to_uppercase(v[0]);
    join_capitalized(&first, &v)
}

#[verifier::external_type_specification]
#[verifier::external_body]
pub struct ExKey(egui::Key);

/// The key that egui's key-name table gives for `name`, if any.
pub uninterp spec fn key_named(name: Seq<char>) -> Option<egui::Key>;

/// `egui::Key::from_name`: a lookup of key names (and their symbols) in a
/// fixed table. Claimed: the result is a function of the name alone,
/// named `key_named`.
#[verifier::external_body]
fn key_from_name(name: &str) -> (r: Option<egui::Key>)
    ensures
        r == key_named(name@),
{
    egui::Key::from_name(name)
}

/// The key that toggles a window: none when no `key` is configured, else
/// the key the name denotes.
pub fn toggle_key(key: &Option<String>, kind: &str) -> (r: Result<Option<egui::Key>, SlotError>)
    ensures
        key is None ==> (r matches Ok(None)),
        key matches Some(name) ==> match key_named(name@) {
            Some(k) => (r matches Ok(Some(k2)) && k2 == k),
            None => (r matches Err(SlotError::UnknownKey(t, n)) && t@ == kind@ && n@ == name@),
        },
{
    match key {
        None => Ok(None),
        Some(name) => match key_from_name(name.as_str()) {
            Some(k) => Ok(Some(k)),
            None => Err(SlotError::UnknownKey(kind.to_owned(), name.clone())),
        },
    }
}

/// A window's title: the configured one, else the element type
/// capitalized.
pub fn window_title(title: &Option<String>, kind: &str) -> (r: String)
    ensures
        r@ == match title {
            Some(t) => t@,
            None => capitalized(kind@),
        },
{
    match title {
        Some(t) => t.clone(),
        None => capitalize(kind),
    }
}

/// Where an accepted element goes.
#[derive(Debug, Clone, Copy, PartialEq, Eq, Structural)]
pub enum Placement {
    TopLeft,
    TopRight,
    Center,
    Window,
}

/// Why an element's slot was refused.
#[derive(Debug, Clone, PartialEq, Eq)]
pub enum SlotError {
    /// A second element asked for the central slot.
    MultipleCenterElements,
    /// A window element (of this type) came without its `rect`.
    WindowWithoutRect(String),
    /// A window element (of this type) names a toggle key that does not
    /// exist (this name).
    UnknownKey(String, String),
}

/// Where an element with these slot settings goes, given whether the
/// centre is already taken; `None` when it is refused.
pub open spec fn placement_of(
    center_taken: bool,
    slot: SlotKind,
    align: TopAlign,
    has_rect: bool,
) -> Option<Placement> {
    match slot {
        SlotKind::Top => match align {
            TopAlign::Left => Some(Placement::TopLeft),
            TopAlign::Right => Some(Placement::TopRight),
        },
        SlotKind::Center => if center_taken {
            None
        } else {
            Some(Placement::Center)
        },
        SlotKind::Window => if has_rect {
            Some(Placement::Window)
        } else {
            None
        },
    }
}

/// Places elements one after another, in config order.
pub struct SlotPlanner {
    pub center_taken: bool,
}

impl SlotPlanner {
    pub fn new() -> (p: Self)
        ensures
            !p.center_taken,
    {
        SlotPlanner { center_taken: false }
    }

    /// Place the next element (`kind` names its type, for the error).
    pub fn place(&mut self, slot: SlotKind, align: TopAlign, has_rect: bool, kind: &str) -> (r:
        Result<Placement, SlotError>)
        ensures
            r matches Ok(p) ==> placement_of(old(self).center_taken, slot, align, has_rect) == Some(
                p,
            ),
            r is Err ==> placement_of(old(self).center_taken, slot, align, has_rect) is None,
            placement_of(old(self).center_taken, slot, align, has_rect) matches Some(p) ==> (
            r matches Ok(q) && q == p),
            slot == SlotKind::Center && old(self).center_taken ==> (r matches Err(
                SlotError::MultipleCenterElements,
            )),
            slot == SlotKind::Window && !has_rect ==> (r matches Err(
                SlotError::WindowWithoutRect(k),
            ) && k@ == kind@),
            final(self).center_taken == (old(self).center_taken || r == Ok::<
                Placement,
                SlotError,
            >(Placement::Center)),
    {
        match slot {
            SlotKind::Top => match align {
                TopAlign::Left => Ok(Placement::TopLeft),
                TopAlign::Right => Ok(Placement::TopRight),
            },
            SlotKind::Center => {
                if self.center_taken {
                    Err(SlotError::MultipleCenterElements)
                } else {
                    self.center_taken = true;
                    Ok(Placement::Center)
                }
            },
            SlotKind::Window => {
                if has_rect {
                    Ok(Placement::Window)
                } else {
                    Err(SlotError::WindowWithoutRect(kind.to_owned()))
                }
            },
        }
    }
}

/// The slot settings of one element: slot, alignment, whether a `rect` is
/// given.
pub type SlotRequest = (SlotKind, TopAlign, bool);

/// Placing a list of elements in order from an empty screen: the
/// placements, or `None` if one is refused.
pub open spec fn plan(requests: Seq<SlotRequest>) -> Option<Seq<Placement>>
    decreases requests.len(),
{
    if requests.len() == 0 {
        Some(Seq::empty())
    } else {
        match plan(requests.drop_last()) {
            Some(ps) => {
                let (slot, align, has_rect) = requests.last();
                match placement_of(ps.contains(Placement::Center), slot, align, has_rect) {
                    Some(p) => Some(ps.push(p)),
                    None => None,
                }
            },
            None => None,
        }
    }
}

pub open spec fn center_requests(requests: Seq<SlotRequest>) -> int
    decreases requests.len(),
{
    if requests.len() == 0 {
        0
    } else {
        center_requests(requests.drop_last()) + if requests.last().0 == SlotKind::Center {
            1int
        } else {
            0int
        }
    }
}

/// Every window request in the list comes with its rect.
pub open spec fn windows_have_rects(requests: Seq<SlotRequest>) -> bool {
    forall|i: int|
        0 <= i < requests.len() && (#[trigger] requests[i]).0 == SlotKind::Window ==> requests[i].2
}

/// A list of elements can be placed exactly when at most one asks for the
/// centre and every window has its rect; the placements then hold the centre
/// at most once, one placement per element.
pub proof fn law_single_center(requests: Seq<SlotRequest>)
    ensures
        plan(requests) is Some <==> (center_requests(requests) <= 1 && windows_have_rects(
            requests,
        )),
        plan(requests) matches Some(ps) ==> ps.len() == requests.len() && (ps.contains(
            Placement::Center,
        ) <==> center_requests(requests) == 1),
    decreases requests.len(),
{
    if requests.len() == 0 {
        return;
    }
    let init = requests.drop_last();
    let n = init.len() as int;
    law_single_center(init);
    assert forall|i: int| 0 <= i < init.len() implies #[trigger] init[i] == requests[i] by {}
    let (slot, align, has_rect) = requests.last();
    assert(requests[n] == requests.last());
    assert(center_requests(init) >= 0) by {
        lemma_center_requests_nonneg(init);
    }
    if !windows_have_rects(init) {
        let i = choose|i: int|
            0 <= i < init.len() && (#[trigger] init[i]).0 == SlotKind::Window && !init[i].2;
        assert(requests[i] == init[i]);
    }
    if windows_have_rects(init) && !(slot == SlotKind::Window && !has_rect) {
        assert forall|i: int|
            0 <= i < requests.len() && (#[trigger] requests[i]).0 == SlotKind::Window implies requests[i].2 by {
            if i < n {
                assert(requests[i] == init[i]);
            }
        }
    }
    if let Some(ps) = plan(init) {
        if let Some(p) = placement_of(ps.contains(Placement::Center), slot, align, has_rect) {
            let qs = ps.push(p);
            if p == Placement::Center {
                assert(qs[n] == Placement::Center);
            } else {
                if qs.contains(Placement::Center) {
                    let k = choose|k: int| 0 <= k < qs.len() && qs[k] == Placement::Center;
                    assert(ps[k] == Placement::Center);
                }
                if ps.contains(Placement::Center) {
                    let k = choose|k: int| 0 <= k < ps.len() && ps[k] == Placement::Center;
                    assert(qs[k] == Placement::Center);
                }
            }
        }
    }
}

proof fn lemma_center_requests_nonneg(requests: Seq<SlotRequest>)
    ensures
        center_requests(requests) >= 0,
    decreases requests.len(),
{
    if requests.len() > 0 {
        lemma_center_requests_nonneg(requests.drop_last());
    }
}

} // verus!
