//! Choosing the latest NOAA SWPC sample: the app fetches the JSON arrays,
//! this module picks, among the samples that carry a value, the one with
//! the greatest `time_tag`. The feeds do not agree on their order, so the
//! order is not trusted.

use vstd::prelude::*;
use crate::text::chars_of;

verus! {

/// `a` sorts strictly before `b`, comparing characters by code point, the
/// order of `str`'s `Ord` (UTF-8 keeps code point order).
pub open spec fn tag_lt(a: Seq<char>, b: Seq<char>) -> bool
    decreases a.len(),
{
    if a.len() == 0 {
        b.len() > 0
    } else if b.len() == 0 {
        false
    } else if a[0] != b[0] {
        (a[0] as u32) < (b[0] as u32)
    } else {
        tag_lt(a.drop_first(), b.drop_first())
    }
}

proof fn lemma_char_u32_injective(c: char, d: char)
    ensures
        (c as u32 == d as u32) == (c == d),
{
    vstd::utf8::char_u32_cast(c, c as u32);
    vstd::utf8::char_u32_cast(d, d as u32);
}

/// Exactly one of `a < b`, `a == b`, `b < a`.
pub proof fn lemma_tag_lt_total(a: Seq<char>, b: Seq<char>)
    ensures
        a != b ==> tag_lt(a, b) || tag_lt(b, a),
        !(tag_lt(a, b) && tag_lt(b, a)),
        !tag_lt(a, a),
    decreases a.len(),
{
    if a.len() > 0 && b.len() > 0 {
        lemma_char_u32_injective(a[0], b[0]);
        lemma_tag_lt_total(a.drop_first(), b.drop_first());
        if a[0] == b[0] && a.drop_first() == b.drop_first() {
            assert(a =~= seq![a[0]] + a.drop_first());
            assert(b =~= seq![b[0]] + b.drop_first());
        }
    } else if a.len() == 0 && b.len() == 0 {
        assert(a =~= b);
    }
    if a.len() > 0 {
        lemma_tag_lt_total(a.drop_first(), a.drop_first());
    }
}

pub proof fn lemma_tag_lt_transitive(a: Seq<char>, b: Seq<char>, c: Seq<char>)
    requires
        tag_lt(a, b),
        tag_lt(b, c),
    ensures
        tag_lt(a, c),
    decreases a.len(),
{
    if a.len() > 0 && b.len() > 0 && c.len() > 0 {
        lemma_char_u32_injective(a[0], b[0]);
        lemma_char_u32_injective(b[0], c[0]);
        lemma_char_u32_injective(a[0], c[0]);
        if a[0] == b[0] && b[0] == c[0] {
            lemma_tag_lt_transitive(a.drop_first(), b.drop_first(), c.drop_first());
        }
    }
}

/// Whether `a` sorts strictly before `b`.
fn tag_less(a: &String, b: &String) -> (r: bool)
    ensures
        r == tag_lt(a@, b@),
{
    let x = chars_of(a.as_str());
    let y = chars_of(b.as_str());
    let mut i: usize = 0;
    assert(x@.skip(0) =~= x@);
    assert(y@.skip(0) =~= y@);
    while i < x.len() && i < y.len() && (x[i] as u32) == (y[i] as u32)
        invariant
            x@ == a@,
            y@ == b@,
            i <= x.len(),
            i <= y.len(),
            tag_lt(a@, b@) == tag_lt(x@.skip(i as int), y@.skip(i as int)),
        decreases x.len() - i,
    {
        proof {
            lemma_char_u32_injective(x@[i as int], y@[i as int]);
            assert(x@.skip(i as int).drop_first() =~= x@.skip(i + 1));
            assert(y@.skip(i as int).drop_first() =~= y@.skip(i + 1));
        }
        i = i + 1;
    }
    if i < x.len() && i < y.len() {
        proof {
            lemma_char_u32_injective(x@[i as int], y@[i as int]);
        }
        (x[i] as u32) < (y[i] as u32)
    } else {
        i == x.len() && i < y.len()
    }
}

/// Position of the sample with the greatest tag among those with a value
/// (`present`); the last such on a tie, `None` when no sample has a value.
pub fn latest_present(tags: &Vec<String>, present: &Vec<bool>) -> (r: Option<usize>)
    requires
        tags.len() == present.len(),
    ensures
        r is None <==> forall|j: int| 0 <= j < present.len() ==> !#[trigger] present[j],
        r matches Some(i) ==> {
            &&& i < tags.len()
            &&& present[i as int]
            &&& forall|j: int|
                0 <= j < tags.len() && present[j] ==> !tag_lt(tags[i as int]@, #[trigger] tags[j]@)
            &&& forall|j: int|
                i < j < tags.len() && present[j] ==> tag_lt(#[trigger] tags[j]@, tags[i as int]@)
        },
{
    let mut best: Option<usize> = None;
    let mut i: usize = 0;
    while i < tags.len()
        invariant
            tags.len() == present.len(),
            i <= tags.len(),
            best is None <==> forall|j: int| 0 <= j < i ==> !#[trigger] present[j],
            best matches Some(b) ==> {
                &&& b < i
                &&& present[b as int]
                &&& forall|j: int|
                    0 <= j < i && present[j] ==> !tag_lt(tags[b as int]@, #[trigger] tags[j]@)
                &&& forall|j: int|
                    b < j < i && present[j] ==> tag_lt(#[trigger] tags[j]@, tags[b as int]@)
            },
        decreases tags.len() - i,
    {
        if present[i] {
            match best {
                None => {
                    proof {
                        lemma_tag_lt_total(tags[i as int]@, tags[i as int]@);
                    }
                    best = Some(i);
                },
                Some(b) => {
                    // Keep the later sample unless it sorts strictly before.
                    if !tag_less(&tags[i], &tags[b]) {
                        proof {
                            lemma_tag_lt_total(tags[i as int]@, tags[b as int]@);
                            assert forall|j: int|
                                0 <= j < i + 1 && present[j] implies !tag_lt(
                                tags[i as int]@,
                                #[trigger] tags[j]@,
                            ) by {
                                lemma_tag_lt_total(tags[i as int]@, tags[j]@);
                                lemma_tag_lt_total(tags[b as int]@, tags[j]@);
                                if tag_lt(tags[i as int]@, tags[j]@) {
                                    if tags[i as int]@ != tags[b as int]@ {
                                        lemma_tag_lt_transitive(
                                            tags[b as int]@,
                                            tags[i as int]@,
                                            tags[j]@,
                                        );
                                    }
                                }
                            }
                        }
                        best = Some(i);
                    } else {
                        proof {
                            lemma_tag_lt_total(tags[i as int]@, tags[b as int]@);
                        }
                    }
                },
            }
        }
        i = i + 1;
    }
    best
}

} // verus!
