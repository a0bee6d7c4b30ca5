//! Character-sequence utilities: substring search, prefix/suffix trimming and
//! decimal parsing, each stated over `Seq<char>` views.
use vstd::prelude::*;

verus! {

/// `needle` occurs in `hay` starting at position `i`.
pub open spec fn contains_at(hay: Seq<char>, needle: Seq<char>, i: int) -> bool {
    0 <= i && i + needle.len() <= hay.len() && hay.subrange(i, i + needle.len() as int) == needle
}

/// `needle` occurs somewhere in `hay`.
pub open spec fn contains_seq(hay: Seq<char>, needle: Seq<char>) -> bool {
    exists|i: int| contains_at(hay, needle, i)
}

/// Whether `needle` occurs in `hay` at position `i`, by character comparison.
fn matches_at(hay: &str, needle: &str, i: usize, hay_len: usize, needle_len: usize) -> (r: bool)
    requires
        hay_len == hay@.len(),
        needle_len == needle@.len(),
        i + needle_len <= hay_len,
    ensures
        r == contains_at(hay@, needle@, i as int),
{
    let mut j: usize = 0;
    while j < needle_len
        invariant
            hay_len == hay@.len(),
            needle_len == needle@.len(),
            i + needle_len <= hay_len,
            0 <= j <= needle_len,
            forall|k: int| 0 <= k < j ==> hay@[i + k] == needle@[k],
        decreases needle_len - j,
    {
        if hay.get_char(i + j) != needle.get_char(j) {
            assert(hay@.subrange(i as int, i + needle_len as int)[j as int] != needle@[j as int]);
            return false;
        }
        j = j + 1;
    }
    assert(hay@.subrange(i as int, i + needle_len as int) =~= needle@);
    true
}

/// Substring search: whether `needle` occurs anywhere in `hay`.
pub fn str_contains(hay: &str, needle: &str) -> (r: bool)
    ensures
        r == contains_seq(hay@, needle@),
{
    let hay_len = hay.unicode_len();
    let needle_len = needle.unicode_len();
    if needle_len > hay_len {
        assert(forall|i: int| !contains_at(hay@, needle@, i));
        return false;
    }
    if needle_len == 0 {
        assert(hay@.subrange(0, 0) =~= needle@);
        assert(contains_at(hay@, needle@, 0));
        return true;
    }
    let bound = hay_len - needle_len;
    let mut i: usize = 0;
    while i <= bound
        invariant
            hay_len == hay@.len(),
            needle_len == needle@.len(),
            1 <= needle_len <= hay_len,
            bound == hay_len - needle_len,
            0 <= i <= bound + 1,
            forall|k: int| 0 <= k < i ==> !contains_at(hay@, needle@, k),
        decreases bound + 1 - i,
    {
        if matches_at(hay, needle, i, hay_len, needle_len) {
            return true;
        }
        i = i + 1;
    }
    assert(forall|k: int| !contains_at(hay@, needle@, k));
    false
}

/// `s` begins with `p`.
pub open spec fn starts_with_seq(s: Seq<char>, p: Seq<char>) -> bool {
    p.len() <= s.len() && s.subrange(0, p.len() as int) == p
}

/// `s` ends with `p`.
pub open spec fn ends_with_seq(s: Seq<char>, p: Seq<char>) -> bool {
    p.len() <= s.len() && s.subrange(s.len() - p.len(), s.len() as int) == p
}

/// `s` with every leading copy of `p` removed.
pub open spec fn trim_prefix_spec(s: Seq<char>, p: Seq<char>) -> Seq<char>
    decreases s.len(),
{
    if p.len() > 0 && starts_with_seq(s, p) {
        trim_prefix_spec(s.subrange(p.len() as int, s.len() as int), p)
    } else {
        s
    }
}

/// `s` with every trailing copy of `p` removed.
pub open spec fn trim_suffix_spec(s: Seq<char>, p: Seq<char>) -> Seq<char>
    decreases s.len(),
{
    if p.len() > 0 && ends_with_seq(s, p) {
        trim_suffix_spec(s.subrange(0, s.len() - p.len()), p)
    } else {
        s
    }
}

/// Removes every leading copy of `p` from `s`.
pub fn trim_prefix(s: &str, p: &str) -> (r: String)
    ensures
        r@ == trim_prefix_spec(s@, p@),
{
    let p_len = p.unicode_len();
    if p_len == 0 {
        return String::from_str(s);
    }
    let mut rest: &str = s;
    loop
        invariant
            p_len == p@.len(),
            p_len > 0,
            trim_prefix_spec(s@, p@) == trim_prefix_spec(rest@, p@),
        decreases rest@.len(),
    {
        let rest_len = rest.unicode_len();
        if p_len <= rest_len && matches_at(rest, p, 0, rest_len, p_len) {
            assert(starts_with_seq(rest@, p@));
            rest = rest.substring_char(p_len, rest_len);
        } else {
            assert(!starts_with_seq(rest@, p@));
            return String::from_str(rest);
        }
    }
}

/// Removes every trailing copy of `p` from `s`.
pub fn trim_suffix(s: &str, p: &str) -> (r: String)
    ensures
        r@ == trim_suffix_spec(s@, p@),
{
    let p_len = p.unicode_len();
    if p_len == 0 {
        return String::from_str(s);
    }
    let mut rest: &str = s;
    loop
        invariant
            p_len == p@.len(),
            p_len > 0,
            trim_suffix_spec(s@, p@) == trim_suffix_spec(rest@, p@),
        decreases rest@.len(),
    {
        let rest_len = rest.unicode_len();
        if p_len <= rest_len && matches_at(rest, p, rest_len - p_len, rest_len, p_len) {
            assert(ends_with_seq(rest@, p@));
            rest = rest.substring_char(0, rest_len - p_len);
        } else {
            assert(!ends_with_seq(rest@, p@));
            return String::from_str(rest);
        }
    }
}

/// `c` is an ASCII decimal digit.
pub open spec fn is_digit(c: char) -> bool {
    '0' <= c && c <= '9'
}

/// Every character of `s` is an ASCII decimal digit.
pub open spec fn all_digits(s: Seq<char>) -> bool {
    forall|i: int| 0 <= i < s.len() ==> is_digit(s[i])
}

/// The numeric value of a digit character.
pub open spec fn digit_val(c: char) -> nat {
    (c as int - '0' as int) as nat
}

/// The value of a digit string read in base ten.
pub open spec fn digits_val(s: Seq<char>) -> nat
    decreases s.len(),
{
    if s.len() == 0 {
        0
    } else {
        digits_val(s.drop_last()) * 10 + digit_val(s.last())
    }
}

/// The value of a digit string never falls when more digits follow.
proof fn lemma_digits_val_prefix_le(s: Seq<char>, i: int, j: int)
    requires
        0 <= i <= j <= s.len(),
    ensures
        digits_val(s.take(i)) <= digits_val(s.take(j)),
    decreases j - i,
{
    if i < j {
        lemma_digits_val_prefix_le(s, i, j - 1);
        assert(s.take(j).drop_last() =~= s.take(j - 1));
        assert(digits_val(s.take(j)) == digits_val(s.take(j - 1)) * 10 + digit_val(s.take(j).last()));
    }
}

/// Parses a base-ten unsigned integer: defined exactly when `s` is non-empty,
/// all digits, and its value fits in a `u64`.
pub fn parse_u64(s: &str) -> (r: Option<u64>)
    ensures
        match r {
            Some(v) => s@.len() > 0 && all_digits(s@) && digits_val(s@) == v,
            None => s@.len() == 0 || !all_digits(s@) || digits_val(s@) > u64::MAX,
        },
{
    let len = s.unicode_len();
    if len == 0 {
        return None;
    }
    let mut i: usize = 0;
    let mut val: u64 = 0;
    while i < len
        invariant
            len == s@.len(),
            0 <= i <= len,
            forall|k: int| 0 <= k < i ==> is_digit(s@[k]),
            val == digits_val(s@.take(i as int)),
        decreases len - i,
    {
        let c = s.get_char(i);
        let code = c as u32;
        if code < 48 || code > 57 {
            assert(!is_digit(s@[i as int]));
            return None;
        }
        let d: u64 = (code - 48) as u64;
        proof {
            assert(is_digit(s@[i as int]));
            assert(d == digit_val(s@[i as int]));
            assert(s@.take(i + 1).drop_last() =~= s@.take(i as int));
            assert(s@.take(i + 1).last() == s@[i as int]);
            assert(digits_val(s@.take(i + 1)) == digits_val(s@.take(i as int)) * 10 + digit_val(
                s@[i as int],
            ));
        }
        let scaled = match val.checked_mul(10) {
            Some(x) => x,
            None => {
                proof {
                    lemma_digits_val_prefix_le(s@, i + 1, len as int);
                    assert(s@.take(len as int) =~= s@);
                }
                return None;
            },
        };
        let next = match scaled.checked_add(d) {
            Some(x) => x,
            None => {
                proof {
                    lemma_digits_val_prefix_le(s@, i + 1, len as int);
                    assert(s@.take(len as int) =~= s@);
                }
                return None;
            },
        };
        val = next;
        i = i + 1;
    }
    proof {
        assert(s@.take(len as int) =~= s@);
        assert(all_digits(s@));
    }
    Some(val)
}

/// If `needle` occurs in `hay` and `inner` occurs in `needle`, then `inner`
/// occurs in `hay`.
pub proof fn lemma_contains_trans(hay: Seq<char>, needle: Seq<char>, inner: Seq<char>)
    requires
        contains_seq(hay, needle),
        contains_seq(needle, inner),
    ensures
        contains_seq(hay, inner),
{
    let i = choose|i: int| contains_at(hay, needle, i);
    let j = choose|j: int| contains_at(needle, inner, j);
    assert(hay.subrange(i + j, i + j + inner.len() as int) =~= hay.subrange(
        i,
        i + needle.len() as int,
    ).subrange(j, j + inner.len() as int));
    assert(contains_at(hay, inner, i + j));
}

} // verus!
