//! Text helpers over the character view of strings.

use vstd::prelude::*;
use vstd::string::StringExecFns;

verus! {

broadcast use vstd::string::group_string_axioms;

/// The characters of `s`, in order.
pub fn chars_of(s: &str) -> (v: Vec<char>)
    ensures
        v@ == s@,
{
    let mut v: Vec<char> = Vec::new();
    for c in it: s.chars()
        invariant
            v@ == it.seq().take(it.index()),
    {
        v.push(c);
    }
    v
}

/// Whether the two texts hold the same characters.
pub fn same_text(a: &str, b: &str) -> (r: bool)
    ensures
        r == (a@ == b@),
{
    let va = chars_of(a);
    let vb = chars_of(b);
    if va.len() != vb.len() {
        return false;
    }
    let n = va.len();
    let mut i: usize = 0;
    while i < n
        invariant
            va@ == a@,
            vb@ == b@,
            n == va@.len(),
            n == vb@.len(),
            i <= n,
            forall|j: int| 0 <= j < i ==> va@[j] == vb@[j],
        decreases n - i,
    {
        if va[i] != vb[i] {
            assert(va@[i as int] != vb@[i as int]);
            return false;
        }
        i = i + 1;
    }
    assert(va@ =~= vb@);
    true
}

/// Whether `needle` occurs in `hay` at position `at`.
pub open spec fn occurs_at(hay: Seq<char>, needle: Seq<char>, at: int) -> bool {
    0 <= at && at + needle.len() <= hay.len() && hay.subrange(at, at + needle.len()) == needle
}

/// Whether `needle` occurs anywhere in `hay`.
pub open spec fn text_contains(hay: Seq<char>, needle: Seq<char>) -> bool {
    exists|at: int| occurs_at(hay, needle, at)
}

/// Whether `s` holds `prefix` from position `start` on.
fn matches_at(s: &Vec<char>, start: usize, prefix: &Vec<char>) -> (r: bool)
    requires
        start <= s@.len(),
    ensures
        r == prefix@.is_prefix_of(s@.skip(start as int)),
        r == occurs_at(s@, prefix@, start as int),
{
    let n = prefix.len();
    if n > s.len() - start {
        return false;
    }
    let len = s.len();
    let mut i: usize = 0;
    while i < n
        invariant
            n == prefix@.len(),
            len == s@.len(),
            start + n <= len,
            i <= n,
            forall|j: int| 0 <= j < i ==> s@[start + j] == prefix@[j],
        decreases n - i,
    {
        if s[start + i] != prefix[i] {
            assert(s@.skip(start as int)[i as int] != prefix@[i as int]);
            assert(s@.subrange(start as int, start + n)[i as int] != prefix@[i as int]);
            return false;
        }
        i = i + 1;
    }
    assert(s@.skip(start as int).take(n as int) =~= prefix@);
    assert(s@.subrange(start as int, start + n) =~= prefix@);
    true
}

/// Whether `s` from position `start` on is exactly `other`.
fn equals_from(s: &Vec<char>, start: usize, other: &Vec<char>) -> (r: bool)
    requires
        start <= s@.len(),
    ensures
        r == (s@.skip(start as int) == other@),
{
    if s.len() - start != other.len() {
        assert(s@.skip(start as int).len() != other@.len());
        return false;
    }
    let r = matches_at(s, start, other);
    if r {
        assert(s@.skip(start as int) =~= s@.skip(start as int).take(other@.len() as int));
    }
    r
}

/// Whether `needle` occurs in `hay`.
pub fn contains_text(hay: &str, needle: &str) -> (r: bool)
    ensures
        r == text_contains(hay@, needle@),
{
    let h = chars_of(hay);
    let nd = chars_of(needle);
    if nd.len() > h.len() {
        return false;
    }
    let last = h.len() - nd.len();
    let mut at: usize = 0;
    while at < last
        invariant
            h@ == hay@,
            nd@ == needle@,
            last == h@.len() - nd@.len(),
            at <= last,
            forall|k: int| 0 <= k < at ==> !occurs_at(hay@, needle@, k),
        decreases last - at,
    {
        if matches_at(&h, at, &nd) {
            return true;
        }
        at = at + 1;
    }
    if matches_at(&h, last, &nd) {
        return true;
    }
    assert forall|k: int| !occurs_at(hay@, needle@, k) by {
        if 0 <= k && k < at {
        }
    }
    false
}

/// What follows the first space of `s`, where `s` holds one.
pub open spec fn after_first_space(s: Seq<char>) -> Option<Seq<char>>
    decreases s.len(),
{
    if s.len() == 0 {
        None
    } else if s[0] == ' ' {
        Some(s.drop_first())
    } else {
        after_first_space(s.drop_first())
    }
}

/// The position of the first space of `s`.
fn first_space(s: &Vec<char>) -> (r: Option<usize>)
    ensures
        match r {
            Some(i) => i < s@.len() && after_first_space(s@) == Some(s@.skip(i + 1)),
            None => after_first_space(s@) is None,
        },
{
    let mut i: usize = 0;
    assert(s@.skip(0) =~= s@);
    while i < s.len()
        invariant
            i <= s@.len(),
            after_first_space(s@) == after_first_space(s@.skip(i as int)),
        decreases s.len() - i,
    {
        assert(s@.skip(i as int).drop_first() =~= s@.skip(i + 1));
        if s[i] == ' ' {
            return Some(i);
        }
        i = i + 1;
    }
    assert(s@.skip(i as int).len() == 0);
    None
}

/// The characters after the first space of `s`, where it holds one.
pub fn split_after_space(s: &str) -> (r: Option<Vec<char>>)
    ensures
        match r {
            Some(v) => after_first_space(s@) == Some(v@),
            None => after_first_space(s@) is None,
        },
{
    let v = chars_of(s);
    match first_space(&v) {
        Some(i) => {
            let len = v.len();
            assert(i < len);
            let mut rest: Vec<char> = Vec::new();
            let mut j: usize = i + 1;
            while j < v.len()
                invariant
                    i + 1 <= j <= v@.len(),
                    rest@ == v@.subrange(i + 1, j as int),
                decreases v.len() - j,
            {
                rest.push(v[j]);
                j = j + 1;
            }
            assert(rest@ =~= v@.skip(i + 1));
            Some(rest)
        },
        None => None,
    }
}

/// Whether `prefix` opens `s` from position `start` on.
pub fn chars_start_with(s: &Vec<char>, start: usize, prefix: &str) -> (r: bool)
    requires
        start <= s@.len(),
    ensures
        r == prefix@.is_prefix_of(s@.skip(start as int)),
{
    let p = chars_of(prefix);
    matches_at(s, start, &p)
}

/// Whether `s` from position `start` on is exactly `other`.
pub fn chars_equal_from(s: &Vec<char>, start: usize, other: &str) -> (r: bool)
    requires
        start <= s@.len(),
    ensures
        r == (s@.skip(start as int) == other@),
{
    let o = chars_of(other);
    equals_from(s, start, &o)
}

/// The text `a` followed by the text `b`.
pub fn join_text(a: &str, b: &str) -> (r: String)
    ensures
        r@ == a@ + b@,
{
    let s = String::from_str(a);
    s.concat(b)
}

/// The character of the decimal digit `d`.
pub open spec fn digit_char(d: nat) -> char {
    ((48 + d) as u8) as char
}

/// The decimal notation of `n`, without leading zeros.
pub open spec fn decimal(n: nat) -> Seq<char>
    decreases n,
{
    if n < 10 {
        seq![digit_char(n)]
    } else {
        decimal(n / 10).push(digit_char(n % 10))
    }
}

fn digit_text(d: u8) -> (r: &'static str)
    requires
        d < 10,
    ensures
        r@ == seq![digit_char(d as nat)],
{
    proof {
        reveal_strlit("0");
        reveal_strlit("1");
        reveal_strlit("2");
        reveal_strlit("3");
        reveal_strlit("4");
        reveal_strlit("5");
        reveal_strlit("6");
        reveal_strlit("7");
        reveal_strlit("8");
        reveal_strlit("9");
    }
    match d {
        0 => "0",
        1 => "1",
        2 => "2",
        3 => "3",
        4 => "4",
        5 => "5",
        6 => "6",
        7 => "7",
        8 => "8",
        _ => "9",
    }
}

/// The decimal notation of `n`.
pub fn u8_to_text(n: u8) -> (r: String)
    ensures
        r@ == decimal(n as nat),
{
    let mut s = String::new();
    if n >= 100 {
        s = s.concat(digit_text(n / 100));
    }
    if n >= 10 {
        s = s.concat(digit_text((n / 10) % 10));
    }
    s = s.concat(digit_text(n % 10));
    proof {
        reveal_with_fuel(decimal, 3);
        let q = (n / 10) as nat;
        if n >= 100 {
            assert(q / 10 == n / 100);
            assert(q % 10 == (n / 10) % 10);
            assert(decimal(q / 10) == seq![digit_char((n / 100) as nat)]);
        }
        assert(s@ =~= decimal(n as nat));
    }
    s
}

/// The lower-case form of a text, as std's `str::to_lowercase` gives it.
pub uninterp spec fn lowercase(s: Seq<char>) -> Seq<char>;

/// Calls std's `str::to_lowercase`. Its result is the Unicode lower-case
/// mapping of the characters of `s`, a function of `s` alone; the contract
/// names that result and says nothing more of it.
#[verifier::external_body]
pub(crate) fn to_lowercase(s: &str) -> (r: String)
    ensures
        r@ == lowercase(s@),
{
    s.to_lowercase()
}

} // verus!
