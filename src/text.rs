//! Byte-string searching and small text builders shared by the proxy's
//! request and response handling.
use vstd::prelude::*;
use vstd::string::StringExecFns;

verus! {

/// ASCII lower-casing of one byte; other bytes are left as they are.
pub open spec fn lower_byte(b: u8) -> u8 {
    if 65 <= b && b <= 90 {
        (b + 32) as u8
    } else {
        b
    }
}

/// ASCII lower-casing of a byte string.
pub open spec fn lower_bytes(s: Seq<u8>) -> Seq<u8> {
    s.map_values(|b: u8| lower_byte(b))
}

/// The byte string as compared: folded to lower case when `fold` is set.
pub open spec fn folded(s: Seq<u8>, fold: bool) -> Seq<u8> {
    if fold {
        lower_bytes(s)
    } else {
        s
    }
}

/// Whether `needle` occurs in `hay` starting at position `i`.
pub open spec fn occurs_at(hay: Seq<u8>, needle: Seq<u8>, i: int) -> bool {
    0 <= i && i + needle.len() <= hay.len() && hay.subrange(i, i + needle.len()) == needle
}

/// Whether `needle` occurs anywhere in `hay`.
pub open spec fn contains(hay: Seq<u8>, needle: Seq<u8>) -> bool {
    exists|i: int| occurs_at(hay, needle, i)
}

/// Whether `i` is the position of the first occurrence of `needle` in `hay`.
pub open spec fn first_occurrence(hay: Seq<u8>, needle: Seq<u8>, i: int) -> bool {
    occurs_at(hay, needle, i) && forall|k: int| 0 <= k < i ==> !occurs_at(hay, needle, k)
}

/// Whether two byte strings are equal up to ASCII case.
pub open spec fn equal_ignoring_case(a: Seq<u8>, b: Seq<u8>) -> bool {
    lower_bytes(a) == lower_bytes(b)
}

/// The decimal digit `d` as a character.
pub open spec fn digit_char(d: nat) -> char {
    ((48 + d) as u32) as char
}

/// The decimal rendering of `n`, without leading zeros.
pub open spec fn decimal(n: nat) -> Seq<char>
    decreases n,
{
    if n < 10 {
        seq![digit_char(n)]
    } else {
        decimal(n / 10) + seq![digit_char(n % 10)]
    }
}

fn lower(b: u8) -> (r: u8)
    ensures
        r == lower_byte(b),
{
    if 65 <= b && b <= 90 {
        b + 32
    } else {
        b
    }
}

/// Tests whether `needle` occurs in `hay` at position `i`, up to ASCII case
/// when `fold` is set.
fn matches_at(hay: &[u8], needle: &[u8], i: usize, fold: bool) -> (r: bool)
    requires
        i <= hay@.len(),
    ensures
        r == occurs_at(folded(hay@, fold), folded(needle@, fold), i as int),
{
    let n = hay.len();
    let m = needle.len();
    if m > n - i {
        return false;
    }
    let ghost h = folded(hay@, fold);
    let ghost p = folded(needle@, fold);
    let mut j: usize = 0;
    while j < m
        invariant
            n == hay@.len(),
            m == needle@.len(),
            h == folded(hay@, fold),
            p == folded(needle@, fold),
            h.len() == n,
            p.len() == m,
            i + m <= n,
            j <= m,
            forall|k: int| 0 <= k < j ==> h[i + k] == p[k],
        decreases m - j,
    {
        let a = if fold {
            lower(hay[i + j])
        } else {
            hay[i + j]
        };
        let b = if fold {
            lower(needle[j])
        } else {
            needle[j]
        };
        if a != b {
            assert(h.subrange(i as int, i + m)[j as int] != p[j as int]);
            return false;
        }
        j = j + 1;
    }
    assert(h.subrange(i as int, i + m) =~= p);
    true
}

/// Position of the first occurrence of `needle` in `hay`, compared up to ASCII
/// case when `fold` is set.
fn find_from_start(hay: &[u8], needle: &[u8], fold: bool) -> (r: Option<usize>)
    ensures
        match r {
            Some(i) => first_occurrence(folded(hay@, fold), folded(needle@, fold), i as int),
            None => !contains(folded(hay@, fold), folded(needle@, fold)),
        },
{
    let ghost h = folded(hay@, fold);
    let ghost p = folded(needle@, fold);
    let n = hay.len();
    let mut i: usize = 0;
    loop
        invariant
            n == hay@.len(),
            h == folded(hay@, fold),
            p == folded(needle@, fold),
            h.len() == n,
            i <= n,
            forall|k: int| 0 <= k < i ==> !occurs_at(h, p, k),
        decreases n - i,
    {
        if matches_at(hay, needle, i, fold) {
            return Some(i);
        }
        if i == n {
            assert forall|k: int| !occurs_at(h, p, k) by {
                if 0 <= k && k <= i {
                } else if k > i {
                    assert(k + p.len() > h.len());
                }
            }
            return None;
        }
        i = i + 1;
    }
}

/// Position of the first occurrence of `needle` in `hay`.
pub fn find_bytes(hay: &[u8], needle: &[u8]) -> (r: Option<usize>)
    ensures
        match r {
            Some(i) => first_occurrence(hay@, needle@, i as int),
            None => !contains(hay@, needle@),
        },
{
    find_from_start(hay, needle, false)
}

/// Position of the first occurrence of `needle` in `hay`, comparing letters
/// without regard to ASCII case.
pub fn find_bytes_ignore_case(hay: &[u8], needle: &[u8]) -> (r: Option<usize>)
    ensures
        match r {
            Some(i) => first_occurrence(lower_bytes(hay@), lower_bytes(needle@), i as int),
            None => !contains(lower_bytes(hay@), lower_bytes(needle@)),
        },
{
    find_from_start(hay, needle, true)
}

/// Whether `needle` occurs anywhere in `hay`.
pub fn contains_bytes(hay: &[u8], needle: &[u8]) -> (r: bool)
    ensures
        r == contains(hay@, needle@),
{
    find_bytes(hay, needle).is_some()
}

/// Whether `a` and `b` are equal up to ASCII case.
pub fn eq_ignore_case(a: &[u8], b: &[u8]) -> (r: bool)
    ensures
        r == equal_ignoring_case(a@, b@),
{
    if a.len() != b.len() {
        assert(lower_bytes(a@).len() != lower_bytes(b@).len());
        return false;
    }
    let r = matches_at(a, b, 0, true);
    assert(lower_bytes(a@).subrange(0, b@.len() as int) =~= lower_bytes(a@));
    r
}

/// Whether `a` and `b` hold the same bytes.
pub fn bytes_equal(a: &[u8], b: &[u8]) -> (r: bool)
    ensures
        r == (a@ == b@),
{
    if a.len() != b.len() {
        return false;
    }
    let r = matches_at(a, b, 0, false);
    assert(a@.subrange(0, b@.len() as int) =~= a@);
    r
}

/// Appends the bytes of `src` to `dst`.
pub fn append_bytes(dst: &mut Vec<u8>, src: &[u8])
    ensures
        final(dst)@ == old(dst)@ + src@,
{
    let n = src.len();
    let mut i: usize = 0;
    while i < n
        invariant
            n == src@.len(),
            i <= n,
            dst@ == old(dst)@ + src@.subrange(0, i as int),
        decreases n - i,
    {
        dst.push(src[i]);
        i = i + 1;
        assert(dst@ =~= old(dst)@ + src@.subrange(0, i as int));
    }
    assert(src@.subrange(0, n as int) =~= src@);
}

/// The one-character text of the decimal digit `d`.
fn digit_text(d: u64) -> (r: &'static str)
    requires
        d < 10,
    ensures
        r@ == seq![digit_char(d as nat)],
{
    if d == 0 {
        proof {
            reveal_strlit("0");
        }
        "0"
    } else if d == 1 {
        proof {
            reveal_strlit("1");
        }
        "1"
    } else if d == 2 {
        proof {
            reveal_strlit("2");
        }
        "2"
    } else if d == 3 {
        proof {
            reveal_strlit("3");
        }
        "3"
    } else if d == 4 {
        proof {
            reveal_strlit("4");
        }
        "4"
    } else if d == 5 {
        proof {
            reveal_strlit("5");
        }
        "5"
    } else if d == 6 {
        proof {
            reveal_strlit("6");
        }
        "6"
    } else if d == 7 {
        proof {
            reveal_strlit("7");
        }
        "7"
    } else if d == 8 {
        proof {
            reveal_strlit("8");
        }
        "8"
    } else {
        proof {
            reveal_strlit("9");
        }
        "9"
    }
}

/// The decimal rendering of `n`.
pub fn decimal_text(n: u64) -> (r: String)
    ensures
        r@ == decimal(n as nat),
    decreases n,
{
    if n < 10 {
        digit_text(n).to_owned()
    } else {
        let mut s = decimal_text(n / 10);
        s.append(digit_text(n % 10));
        s
    }
}

} // verus!
