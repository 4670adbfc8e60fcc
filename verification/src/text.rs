//! Character-level helpers shared by the parsers: the Unicode white-space
//! class, trimming, ASCII letter case and a few string builders.

use vstd::prelude::*;

verus! {

/// Unicode `White_Space`, the class that `str::trim` removes.
pub open spec fn is_ws(c: char) -> bool {
    let u = c as u32;
    ||| 0x09 <= u <= 0x0D
    ||| u == 0x20
    ||| u == 0x85
    ||| u == 0xA0
    ||| u == 0x1680
    ||| 0x2000 <= u <= 0x200A
    ||| u == 0x2028
    ||| u == 0x2029
    ||| u == 0x202F
    ||| u == 0x205F
    ||| u == 0x3000
}

/// `s` with its leading white space removed.
pub open spec fn trim_start(s: Seq<char>) -> Seq<char>
    decreases s.len(),
{
    if s.len() > 0 && is_ws(s[0]) {
        trim_start(s.drop_first())
    } else {
        s
    }
}

/// `s` with its trailing white space removed.
pub open spec fn trim_end(s: Seq<char>) -> Seq<char>
    decreases s.len(),
{
    if s.len() > 0 && is_ws(s.last()) {
        trim_end(s.drop_last())
    } else {
        s
    }
}

/// `s` with white space removed at both ends, as `str::trim` does.
pub open spec fn trim(s: Seq<char>) -> Seq<char> {
    trim_end(trim_start(s))
}

/// Whether `c` is white space (`char::is_whitespace`).
pub fn is_whitespace(c: char) -> (r: bool)
    ensures
        r == is_ws(c),
{
    let u = c as u32;
    (0x09 <= u && u <= 0x0D) || u == 0x20 || u == 0x85 || u == 0xA0 || u == 0x1680 || (0x2000
        <= u && u <= 0x200A) || u == 0x2028 || u == 0x2029 || u == 0x202F || u == 0x205F || u
        == 0x3000
}

/// The characters of `s`, in order.
pub fn chars_of(s: &str) -> (v: Vec<char>)
    ensures
        v@ == s@,
{
    let mut v: Vec<char> = Vec::new();
    for c in it: s.chars()
        invariant
            v@ == it.seq().take(it.index()),
    {
        v.push(c);
    }
    v
}

/// Character positions `(lo, hi)` such that `v[lo..hi]` is `v` trimmed.
pub fn trim_bounds(v: &Vec<char>) -> (r: (usize, usize))
    ensures
        r.0 <= r.1 <= v.len(),
        v@.subrange(r.0 as int, r.1 as int) == trim(v@),
{
    let n = v.len();
    let mut lo: usize = 0;
    assert(v@.subrange(0, n as int) =~= v@);
    while lo < n && is_whitespace(v[lo])
        invariant
            n == v.len(),
            lo <= n,
            trim_start(v@) == trim_start(v@.subrange(lo as int, n as int)),
        decreases n - lo,
    {
        assert(v@.subrange(lo as int, n as int).drop_first() =~= v@.subrange(lo + 1, n as int));
        lo = lo + 1;
    }
    let mut hi: usize = n;
    while hi > lo && is_whitespace(v[hi - 1])
        invariant
            n == v.len(),
            lo <= hi <= n,
            trim(v@) == trim_end(v@.subrange(lo as int, hi as int)),
        decreases hi - lo,
    {
        assert(v@.subrange(lo as int, hi as int).drop_last() =~= v@.subrange(
            lo as int,
            hi - 1,
        ));
        hi = hi - 1;
    }
    (lo, hi)
}

/// `c` and `d` are the same character up to ASCII letter case.
pub open spec fn same_ignoring_case(c: char, d: char) -> bool {
    let u = c as u32;
    let v = d as u32;
    ||| c == d
    ||| (65 <= u <= 90 && v == u + 32)
    ||| (65 <= v <= 90 && u == v + 32)
}

/// Trimming keeps two inputs that differ only in letter case aligned.
pub proof fn lemma_trim_case(t: Seq<char>, u: Seq<char>)
    requires
        t.len() == u.len(),
        forall|i: int| 0 <= i < t.len() ==> same_ignoring_case(#[trigger] t[i], u[i]),
    ensures
        trim(t).len() == trim(u).len(),
        forall|i: int| 0 <= i < trim(t).len() ==> same_ignoring_case(#[trigger] trim(t)[i], trim(u)[i]),
{
    lemma_trim_start_case(t, u);
    lemma_trim_end_case(trim_start(t), trim_start(u));
}

proof fn lemma_ws_case(c: char, d: char)
    requires
        same_ignoring_case(c, d),
    ensures
        is_ws(c) == is_ws(d),
{
}

proof fn lemma_trim_start_case(t: Seq<char>, u: Seq<char>)
    requires
        t.len() == u.len(),
        forall|i: int| 0 <= i < t.len() ==> same_ignoring_case(#[trigger] t[i], u[i]),
    ensures
        trim_start(t).len() == trim_start(u).len(),
        forall|i: int|
            0 <= i < trim_start(t).len() ==> same_ignoring_case(
                #[trigger] trim_start(t)[i],
                trim_start(u)[i],
            ),
    decreases t.len(),
{
    if t.len() > 0 {
        lemma_ws_case(t[0], u[0]);
        if is_ws(t[0]) {
            assert forall|i: int| 0 <= i < t.drop_first().len() implies same_ignoring_case(
                #[trigger] t.drop_first()[i],
                u.drop_first()[i],
            ) by {
                assert(same_ignoring_case(t[i + 1], u[i + 1]));
            }
            lemma_trim_start_case(t.drop_first(), u.drop_first());
        }
    }
}

proof fn lemma_trim_end_case(t: Seq<char>, u: Seq<char>)
    requires
        t.len() == u.len(),
        forall|i: int| 0 <= i < t.len() ==> same_ignoring_case(#[trigger] t[i], u[i]),
    ensures
        trim_end(t).len() == trim_end(u).len(),
        forall|i: int|
            0 <= i < trim_end(t).len() ==> same_ignoring_case(
                #[trigger] trim_end(t)[i],
                trim_end(u)[i],
            ),
    decreases t.len(),
{
    if t.len() > 0 {
        lemma_ws_case(t.last(), u.last());
        if is_ws(t.last()) {
            assert forall|i: int| 0 <= i < t.drop_last().len() implies same_ignoring_case(
                #[trigger] t.drop_last()[i],
                u.drop_last()[i],
            ) by {
                assert(same_ignoring_case(t[i], u[i]));
            }
            lemma_trim_end_case(t.drop_last(), u.drop_last());
        }
    }
}

/// Whether two strings hold the same characters.
pub fn str_eq(a: &str, b: &str) -> (r: bool)
    ensures
        r == (a@ == b@),
{
    let x = chars_of(a);
    let y = chars_of(b);
    if x.len() != y.len() {
        return false;
    }
    let mut i: usize = 0;
    while i < x.len()
        invariant
            x@ == a@,
            y@ == b@,
            x.len() == y.len(),
            i <= x.len(),
            forall|j: int| 0 <= j < i ==> x@[j] == y@[j],
        decreases x.len() - i,
    {
        if (x[i] as u32) != (y[i] as u32) {
            assert(x@[i as int] != y@[i as int]);
            return false;
        }
        proof {
            vstd::utf8::char_u32_cast(x@[i as int], x@[i as int] as u32);
            vstd::utf8::char_u32_cast(y@[i as int], y@[i as int] as u32);
        }
        i = i + 1;
    }
    assert(x@ =~= y@);
    true
}

/// `String::push`: appends one character.
#[verifier::external_body]
pub(crate) fn push_char(s: &mut String, c: char)
    ensures
        final(s)@ == old(s)@.push(c),
{
    s.push(c);
}

pub open spec fn digit_char(d: int) -> char {
    if d == 0 {
        '0'
    } else if d == 1 {
        '1'
    } else if d == 2 {
        '2'
    } else if d == 3 {
        '3'
    } else if d == 4 {
        '4'
    } else if d == 5 {
        '5'
    } else if d == 6 {
        '6'
    } else if d == 7 {
        '7'
    } else if d == 8 {
        '8'
    } else {
        '9'
    }
}

/// Decimal digits of `n`, most significant first, no leading zeros.
pub open spec fn decimal(n: nat) -> Seq<char>
    decreases n,
{
    if n < 10 {
        seq![digit_char(n as int)]
    } else {
        decimal(n / 10).push(digit_char((n % 10) as int))
    }
}

/// `n` in decimal, padded to two characters with `pad` (`{:02}` or `{:>2}`).
pub open spec fn padded2(n: nat, pad: char) -> Seq<char> {
    if n < 10 {
        seq![pad] + decimal(n)
    } else {
        decimal(n)
    }
}

/// `n` in decimal with a leading `-` when negative (`{}`).
pub open spec fn signed_decimal(n: int) -> Seq<char> {
    if n < 0 {
        seq!['-'] + decimal((-n) as nat)
    } else {
        decimal(n as nat)
    }
}

fn digit(d: u64) -> (c: char)
    requires
        d < 10,
    ensures
        c == digit_char(d as int),
{
    if d == 0 {
        '0'
    } else if d == 1 {
        '1'
    } else if d == 2 {
        '2'
    } else if d == 3 {
        '3'
    } else if d == 4 {
        '4'
    } else if d == 5 {
        '5'
    } else if d == 6 {
        '6'
    } else if d == 7 {
        '7'
    } else if d == 8 {
        '8'
    } else {
        '9'
    }
}

/// Appends the decimal digits of `n`.
pub fn push_decimal(s: &mut String, n: u64)
    ensures
        final(s)@ == old(s)@ + decimal(n as nat),
    decreases n,
{
    if n >= 10 {
        push_decimal(s, n / 10);
    }
    push_char(s, digit(n % 10));
    proof {
        if n >= 10 {
            assert(old(s)@ + decimal((n / 10) as nat) + seq![digit_char((n % 10) as int)]
                =~= old(s)@ + decimal(n as nat));
        } else {
            assert(old(s)@.push(digit_char((n % 10) as int)) =~= old(s)@ + decimal(n as nat));
        }
    }
}

/// Appends `n` padded to two characters with `pad`.
pub fn push_padded2(s: &mut String, n: u64, pad: char)
    ensures
        final(s)@ == old(s)@ + padded2(n as nat, pad),
{
    if n < 10 {
        push_char(s, pad);
    }
    push_decimal(s, n);
    proof {
        if n < 10 {
            assert(old(s)@.push(pad) + decimal(n as nat) =~= old(s)@ + (seq![pad] + decimal(
                n as nat,
            )));
        }
    }
}

/// Appends `n` in decimal, with a leading `-` when negative.
pub fn push_signed_decimal(s: &mut String, n: i64)
    ensures
        final(s)@ == old(s)@ + signed_decimal(n as int),
{
    if n < 0 {
        push_char(s, '-');
        let m: u64 = if n == i64::MIN {
            9223372036854775808u64
        } else {
            (-n) as u64
        };
        push_decimal(s, m);
        assert(old(s)@.push('-') + decimal(m as nat) =~= old(s)@ + (seq!['-'] + decimal(
            m as nat,
        )));
    } else {
        push_decimal(s, n as u64);
    }
}

/// Appends all of `t`.
pub fn push_str(s: &mut String, t: &str)
    ensures
        final(s)@ == old(s)@ + t@,
{
    let v = chars_of(t);
    let mut i: usize = 0;
    while i < v.len()
        invariant
            v@ == t@,
            i <= v.len(),
            s@ == old(s)@ + v@.take(i as int),
        decreases v.len() - i,
    {
        push_char(s, v[i]);
        assert(v@.take(i + 1) =~= v@.take(i as int).push(v@[i as int]));
        i = i + 1;
    }
    assert(v@.take(i as int) =~= v@);
}

/// What `{:?}` prints for a string: quoted, with escapes.
pub uninterp spec fn debug_quoted(s: Seq<char>) -> Seq<char>;

/// `<str as Debug>::fmt`, through `format!("{:?}", s)`. Claimed: the text
/// is a function of the string alone, named `debug_quoted`.
#[verifier::external_body]
pub(crate) fn debug_string(s: &str) -> (r: String)
    ensures
        r@ == debug_quoted(s@),
{
    format!("{:?}", s)
}

} // verus!
