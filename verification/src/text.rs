//! Verified text utilities: comparison, search, decimal formatting and
//! path joining, stated over character sequences.

use vstd::prelude::*;

verus! {

/// The decimal digit character for a value below ten.
pub open spec fn digit_char(d: nat) -> char
    recommends
        d < 10,
{
    if d == 0 {
        '0'
    } else if d == 1 {
        '1'
    } else if d == 2 {
        '2'
    } else if d == 3 {
        '3'
    } else if d == 4 {
        '4'
    } else if d == 5 {
        '5'
    } else if d == 6 {
        '6'
    } else if d == 7 {
        '7'
    } else if d == 8 {
        '8'
    } else {
        '9'
    }
}

/// The decimal rendering of a natural number, without leading zeros
/// (a single zero for zero itself).
pub open spec fn dec_str(n: nat) -> Seq<char>
    decreases n,
{
    if n < 10 {
        seq![digit_char(n)]
    } else {
        dec_str(n / 10).push(digit_char(n % 10))
    }
}

/// Renders a number in decimal.
pub fn u64_to_string(n: u64) -> (r: String)
    ensures
        r@ == dec_str(n as nat),
    decreases n,
{
    let digits = "0123456789";
    proof {
        reveal_strlit("0123456789");
    }
    if n < 10 {
        let d = digits.substring_char(n as usize, n as usize + 1);
        proof {
            assert(d@ =~= seq![digit_char(n as nat)]);
        }
        String::from_str(d)
    } else {
        let mut s = u64_to_string(n / 10);
        let m = (n % 10) as usize;
        let d = digits.substring_char(m, m + 1);
        proof {
            assert(d@ =~= seq![digit_char((n % 10) as nat)]);
        }
        s.append(d);
        proof {
            assert(s@ =~= dec_str(n as nat));
        }
        s
    }
}

/// A decimal digit.
pub open spec fn is_digit(c: char) -> bool {
    48 <= c as u32 <= 57
}

/// The value of a digit character; zero for anything else.
pub open spec fn digit_val(c: char) -> nat {
    if is_digit(c) {
        (c as u32 - 48) as nat
    } else {
        0
    }
}

/// Every character is a decimal digit.
pub open spec fn all_digits(s: Seq<char>) -> bool {
    forall|i: int| 0 <= i < s.len() ==> is_digit(#[trigger] s[i])
}

/// The number a digit string denotes.
pub open spec fn digits_val(s: Seq<char>) -> nat
    decreases s.len(),
{
    if s.len() == 0 {
        0
    } else {
        digits_val(s.drop_last()) * 10 + digit_val(s.last())
    }
}

/// What a decimal string parses to: nothing when empty, when any
/// character is not a digit, or when the value does not fit.
pub open spec fn parse_u32_spec(s: Seq<char>) -> Option<u32> {
    if s.len() == 0 || !all_digits(s) || digits_val(s) > u32::MAX {
        None
    } else {
        Some(digits_val(s) as u32)
    }
}

/// A digit string's value only grows as digits are appended.
proof fn lemma_digits_val_prefix(s: Seq<char>, k: int)
    requires
        0 <= k <= s.len(),
    ensures
        digits_val(s.subrange(0, k)) <= digits_val(s),
    decreases s.len() - k,
{
    if k == s.len() {
        assert(s.subrange(0, k) =~= s);
    } else {
        lemma_digits_val_prefix(s, k + 1);
        assert(s.subrange(0, k + 1).drop_last() =~= s.subrange(0, k));
        assert(digits_val(s.subrange(0, k + 1)) == digits_val(s.subrange(0, k)) * 10 + digit_val(
            s.subrange(0, k + 1).last(),
        ));
    }
}

/// Parses a string of decimal digits; rejects the empty string, any
/// non-digit character, and values that do not fit.
pub fn parse_u32(s: &str) -> (r: Option<u32>)
    ensures
        r == parse_u32_spec(s@),
{
    let len = s.unicode_len();
    if len == 0 {
        return None;
    }
    let mut acc: u64 = 0;
    let mut i: usize = 0;
    while i < len
        invariant
            0 < len == s@.len(),
            i <= len,
            forall|j: int| 0 <= j < i ==> is_digit(#[trigger] s@[j]),
            acc == digits_val(s@.subrange(0, i as int)),
            acc <= u32::MAX,
        decreases len - i,
    {
        let c = s.get_char(i);
        let cv = c as u32;
        if cv < 48 || cv > 57 {
            return None;
        }
        let d = (cv - 48) as u64;
        proof {
            assert(s@.subrange(0, i + 1).drop_last() =~= s@.subrange(0, i as int));
            assert(s@.subrange(0, i + 1).last() == s@[i as int]);
        }
        acc = acc * 10 + d;
        if acc > 0xFFFF_FFFF {
            proof {
                lemma_digits_val_prefix(s@, i + 1);
            }
            return None;
        }
        i = i + 1;
    }
    proof {
        assert(s@.subrange(0, len as int) =~= s@);
    }
    Some(acc as u32)
}

/// The whitespace characters stripped by trimming: space, tab,
/// carriage return and newline.
pub open spec fn is_space(c: char) -> bool {
    c == ' ' || c == '\t' || c == '\r' || c == '\n'
}

/// `s` without its leading whitespace.
pub open spec fn trim_left_spec(s: Seq<char>) -> Seq<char>
    decreases s.len(),
{
    if s.len() == 0 {
        s
    } else if is_space(s[0]) {
        trim_left_spec(s.skip(1))
    } else {
        s
    }
}

/// `s` without its trailing whitespace.
pub open spec fn trim_right_spec(s: Seq<char>) -> Seq<char>
    decreases s.len(),
{
    if s.len() == 0 {
        s
    } else if is_space(s.last()) {
        trim_right_spec(s.drop_last())
    } else {
        s
    }
}

/// `s` without leading and trailing whitespace.
pub open spec fn trim_spec(s: Seq<char>) -> Seq<char> {
    trim_right_spec(trim_left_spec(s))
}

fn trim_left(s: &str) -> (r: String)
    ensures
        r@ == trim_left_spec(s@),
    decreases s@.len(),
{
    let len = s.unicode_len();
    if len == 0 {
        return String::from_str(s);
    }
    let c = s.get_char(0);
    if c == ' ' || c == '\t' || c == '\r' || c == '\n' {
        let tail = s.substring_char(1, len);
        proof {
            assert(tail@ =~= s@.skip(1));
        }
        trim_left(tail)
    } else {
        String::from_str(s)
    }
}

fn trim_right(s: &str) -> (r: String)
    ensures
        r@ == trim_right_spec(s@),
    decreases s@.len(),
{
    let len = s.unicode_len();
    if len == 0 {
        return String::from_str(s);
    }
    let c = s.get_char(len - 1);
    if c == ' ' || c == '\t' || c == '\r' || c == '\n' {
        let head = s.substring_char(0, len - 1);
        proof {
            assert(head@ =~= s@.drop_last());
        }
        trim_right(head)
    } else {
        String::from_str(s)
    }
}

/// Strips leading and trailing whitespace (space, tab, carriage
/// return, newline).
pub fn str_trim(s: &str) -> (r: String)
    ensures
        r@ == trim_spec(s@),
{
    let left = trim_left(s);
    trim_right(left.as_str())
}

/// `s` split at the first occurrence of `c`: the part before and the
/// part after, or nothing when `c` does not occur.
pub open spec fn split_once_spec(s: Seq<char>, c: char) -> Option<(Seq<char>, Seq<char>)>
    decreases s.len(),
{
    if s.len() == 0 {
        None
    } else if s[0] == c {
        Some((Seq::empty(), s.skip(1)))
    } else {
        match split_once_spec(s.skip(1), c) {
            None => None,
            Some(p) => Some((seq![s[0]] + p.0, p.1)),
        }
    }
}

/// Splits at the first occurrence of `c`.
pub fn split_once_char(s: &str, c: char) -> (r: Option<(String, String)>)
    ensures
        r is Some <==> split_once_spec(s@, c) is Some,
        r matches Some(p) ==> split_once_spec(s@, c) == Some((p.0@, p.1@)),
    decreases s@.len(),
{
    let len = s.unicode_len();
    if len == 0 {
        return None;
    }
    let head = s.get_char(0);
    let tail = s.substring_char(1, len);
    proof {
        assert(tail@ =~= s@.skip(1));
    }
    if head == c {
        Some((String::new(), String::from_str(tail)))
    } else {
        match split_once_char(tail, c) {
            None => None,
            Some(p) => {
                let h = s.substring_char(0, 1);
                let mut before = String::from_str(h);
                before.append(p.0.as_str());
                proof {
                    assert(h@ =~= seq![s@[0]]);
                }
                Some((before, p.1))
            },
        }
    }
}

/// The lines of a text: split at every newline, with a trailing
/// newline ending the last line rather than opening an empty one.
pub open spec fn lines_of(s: Seq<char>) -> Seq<Seq<char>>
    decreases s.len(),
{
    if s.len() == 0 {
        Seq::empty()
    } else if s[0] == '\n' {
        seq![Seq::<char>::empty()] + lines_of(s.skip(1))
    } else {
        let rest = lines_of(s.skip(1));
        if rest.len() == 0 {
            seq![s]
        } else {
            seq![seq![s[0]] + rest[0]] + rest.skip(1)
        }
    }
}

/// Splits a text into its lines.
pub fn split_lines(s: &str) -> (r: Vec<String>)
    ensures
        r@.len() == lines_of(s@).len(),
        forall|i: int| 0 <= i < r@.len() ==> (#[trigger] r@[i])@ == lines_of(s@)[i],
    decreases s@.len(),
{
    let len = s.unicode_len();
    if len == 0 {
        return Vec::new();
    }
    let head = s.get_char(0);
    let tail = s.substring_char(1, len);
    proof {
        assert(tail@ =~= s@.skip(1));
    }
    if head == '\n' {
        let mut rest = split_lines(tail);
        rest.insert(0, String::new());
        return rest;
    }
    let mut rest = split_lines(tail);
    if rest.len() == 0 {
        let mut v: Vec<String> = Vec::new();
        v.push(String::from_str(s));
        v
    } else {
        let h = s.substring_char(0, 1);
        let mut first = String::from_str(h);
        proof {
            assert(h@ =~= seq![s@[0]]);
        }
        let old_first = &rest[0];
        first.append(old_first.as_str());
        rest.set(0, first);
        rest
    }
}

/// `needle` occurs as a contiguous run inside `hay`.
pub open spec fn has_sub(hay: Seq<char>, needle: Seq<char>) -> bool {
    exists|i: int|
        0 <= i && i + needle.len() <= hay.len() && #[trigger] hay.subrange(i, i + needle.len())
            == needle
}

/// Substring search: whether `needle` occurs anywhere in `hay`.
pub fn str_contains(hay: &str, needle: &str) -> (r: bool)
    ensures
        r == has_sub(hay@, needle@),
{
    let hlen = hay.unicode_len();
    let nlen = needle.unicode_len();
    if nlen > hlen {
        return false;
    }
    if nlen == 0 {
        proof {
            assert(hay@.subrange(0, 0 + needle@.len() as int) =~= needle@);
        }
        return true;
    }
    let limit = hlen - nlen;
    let mut i: usize = 0;
    while i <= limit
        invariant
            1 <= nlen <= hlen,
            limit == hlen - nlen,
            hlen == hay@.len(),
            nlen == needle@.len(),
            i <= limit + 1,
            forall|j: int|
                0 <= j < i ==> #[trigger] hay@.subrange(j, j + needle@.len()) != needle@,
        decreases limit + 1 - i,
    {
        let w = hay.substring_char(i, i + nlen);
        if str_eq(w, needle) {
            proof {
                assert(hay@.subrange(i as int, i + needle@.len()) == needle@);
            }
            return true;
        }
        i = i + 1;
    }
    proof {
        assert(!has_sub(hay@, needle@)) by {
            assert(forall|j: int|
                0 <= j && j + needle@.len() <= hay@.len() ==> #[trigger] hay@.subrange(
                    j,
                    j + needle@.len(),
                ) != needle@);
        }
    }
    false
}

/// A string is among a list of strings.
pub open spec fn seq_contains_str(v: Seq<Seq<char>>, s: Seq<char>) -> bool {
    exists|j: int| 0 <= j < v.len() && v[j] == s
}

/// Whether any string of `v` equals `s`.
pub fn contains_string(v: &Vec<String>, s: &str) -> (r: bool)
    ensures
        r == seq_contains_str(v.deep_view(), s@),
{
    let mut j: usize = 0;
    while j < v.len()
        invariant
            j <= v@.len(),
            forall|k: int| 0 <= k < j ==> v.deep_view()[k] != s@,
        decreases v@.len() - j,
    {
        if str_eq(v[j].as_str(), s) {
            proof {
                assert(v.deep_view()[j as int] == s@);
            }
            return true;
        }
        j = j + 1;
    }
    false
}

/// `suffix` is a final run of `s`.
pub open spec fn has_suffix(s: Seq<char>, suffix: Seq<char>) -> bool {
    suffix.len() <= s.len() && s.subrange(s.len() - suffix.len(), s.len() as int) == suffix
}

/// Whether `s` ends with `suffix`.
pub fn str_ends_with(s: &str, suffix: &str) -> (r: bool)
    ensures
        r == has_suffix(s@, suffix@),
{
    let slen = s.unicode_len();
    let xlen = suffix.unicode_len();
    if xlen > slen {
        return false;
    }
    let tail = s.substring_char(slen - xlen, slen);
    str_eq(tail, suffix)
}

/// `prefix` is an initial run of `s`.
pub open spec fn has_prefix(s: Seq<char>, prefix: Seq<char>) -> bool {
    prefix.len() <= s.len() && s.subrange(0, prefix.len() as int) == prefix
}

/// Whether `s` starts with `prefix`.
pub fn str_starts_with(s: &str, prefix: &str) -> (r: bool)
    ensures
        r == has_prefix(s@, prefix@),
{
    let slen = s.unicode_len();
    let plen = prefix.unicode_len();
    if plen > slen {
        return false;
    }
    let head = s.substring_char(0, plen);
    str_eq(head, prefix)
}

/// Joins a base path and a relative path with a single separator.
pub fn path_join(base: &str, rel: &str) -> (r: String)
    ensures
        r@ == base@ + "/"@ + rel@,
{
    let mut s = String::from_str(base);
    s.append("/");
    s.append(rel);
    s
}

/// Character-for-character string equality.
pub fn str_eq(a: &str, b: &str) -> (r: bool)
    ensures
        r == (a@ == b@),
    decreases a@.len(),
{
    let alen = a.unicode_len();
    let blen = b.unicode_len();
    if alen != blen {
        proof {
            assert(a@ != b@) by {
                assert(a@.len() != b@.len());
            }
        }
        false
    } else if alen == 0 {
        proof {
            assert(a@ =~= b@);
        }
        true
    } else if a.get_char(0) != b.get_char(0) {
        proof {
            assert(a@ != b@) by {
                assert(a@[0] != b@[0]);
            }
        }
        false
    } else {
        let a2 = a.substring_char(1, alen);
        let b2 = b.substring_char(1, blen);
        proof {
            assert(a2@ =~= a@.skip(1));
            assert(b2@ =~= b@.skip(1));
        }
        let tails = str_eq(a2, b2);
        proof {
            if tails {
                assert forall|i: int| 0 <= i < a@.len() implies a@[i] == b@[i] by {
                    if i >= 1 {
                        assert(a@[i] == a@.skip(1)[i - 1]);
                        assert(b@[i] == b@.skip(1)[i - 1]);
                    }
                }
                assert(a@ =~= b@);
            } else {
                assert(a@ != b@) by {
                    if a@ == b@ {
                        assert(a@.skip(1) =~= b@.skip(1));
                    }
                }
            }
        }
        tails
    }
}

} // verus!
