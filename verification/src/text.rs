//! Text facts shared by the block parsers and renderers: the spec-level
//! decimal form of a number, decimal parsing, token scanning, and small
//! verified helpers over `String` and `&str`.

use vstd::prelude::*;
use vstd::string::StrSliceExecFns;

verus! {

/// The character for one decimal digit `d`.
pub open spec fn digit_char(d: int) -> char
    recommends
        0 <= d < 10,
{
    if d == 0 {
        '0'
    } else if d == 1 {
        '1'
    } else if d == 2 {
        '2'
    } else if d == 3 {
        '3'
    } else if d == 4 {
        '4'
    } else if d == 5 {
        '5'
    } else if d == 6 {
        '6'
    } else if d == 7 {
        '7'
    } else if d == 8 {
        '8'
    } else {
        '9'
    }
}

/// The decimal representation of `n`, most significant digit first,
/// with no leading zeros (a single `'0'` for zero).
pub open spec fn dec_digits(n: nat) -> Seq<char>
    decreases n,
{
    if n < 10 {
        seq![digit_char(n as int)]
    } else {
        dec_digits(n / 10).push(digit_char((n % 10) as int))
    }
}

/// Exactly two digits, zero padded.
pub open spec fn two_digits(n: int) -> Seq<char>
    recommends
        0 <= n < 100,
{
    seq![digit_char(n / 10), digit_char(n % 10)]
}

/// Whether `c` is a decimal digit.
pub open spec fn is_digit(c: char) -> bool {
    48 <= c as u32 <= 57
}

/// The numeric value of a digit character.
pub open spec fn digit_val(c: char) -> int
    recommends
        is_digit(c),
{
    c as u32 - 48
}

/// The value of `s` read as a decimal numeral.
pub open spec fn dec_val(s: Seq<char>) -> int
    decreases s.len(),
{
    if s.len() == 0 {
        0
    } else {
        dec_val(s.drop_last()) * 10 + digit_val(s.last())
    }
}

/// Whether every character of `s` is a decimal digit.
pub open spec fn all_digits(s: Seq<char>) -> bool {
    forall|j: int| 0 <= j < s.len() ==> is_digit(#[trigger] s[j])
}

/// Whether `s` is a decimal numeral whose value fits in a `u64`.
pub open spec fn is_dec_u64(s: Seq<char>) -> bool {
    s.len() > 0 && all_digits(s) && dec_val(s) <= u64::MAX
}

pub proof fn lemma_dec_val_nonneg(s: Seq<char>)
    requires
        all_digits(s),
    ensures
        dec_val(s) >= 0,
    decreases s.len(),
{
    if s.len() > 0 {
        assert(all_digits(s.drop_last()));
        lemma_dec_val_nonneg(s.drop_last());
    }
}

/// Reading one more digit never shrinks the value: the value of any
/// digit prefix bounds the value of the whole numeral from below.
pub proof fn lemma_dec_val_prefix(s: Seq<char>, i: int)
    requires
        0 <= i <= s.len(),
        all_digits(s),
    ensures
        dec_val(s.take(i)) <= dec_val(s),
    decreases s.len() - i,
{
    if i < s.len() {
        assert(s.take(i + 1).drop_last() =~= s.take(i));
        assert(all_digits(s.take(i)));
        lemma_dec_val_nonneg(s.take(i));
        assert(dec_val(s.take(i + 1)) == dec_val(s.take(i)) * 10 + digit_val(s.take(i + 1).last()));
        assert(s.take(i + 1).last() == s[i]);
        assert(dec_val(s.take(i)) * 10 >= dec_val(s.take(i)));
        lemma_dec_val_prefix(s, i + 1);
    } else {
        assert(s.take(i) =~= s);
    }
}

/// The length of the longest prefix of `s` on which `stop` never holds.
pub open spec fn scan_len(s: Seq<char>, stop: spec_fn(char) -> bool) -> nat
    decreases s.len(),
{
    if s.len() == 0 || stop(s[0]) {
        0
    } else {
        (1 + scan_len(s.drop_first(), stop)) as nat
    }
}

/// A scan never runs past the end.
pub proof fn lemma_scan_len_le(s: Seq<char>, stop: spec_fn(char) -> bool)
    ensures
        scan_len(s, stop) <= s.len(),
    decreases s.len(),
{
    if s.len() > 0 && !stop(s[0]) {
        lemma_scan_len_le(s.drop_first(), stop);
    }
}

/// A position `k` with no stop character before it, and a stop character
/// (or the end) at it, is the scan length.
pub proof fn lemma_scan_len(s: Seq<char>, stop: spec_fn(char) -> bool, k: int)
    requires
        0 <= k <= s.len(),
        forall|j: int| 0 <= j < k ==> !stop(#[trigger] s[j]),
        k == s.len() || stop(s[k]),
    ensures
        scan_len(s, stop) == k,
    decreases s.len(),
{
    if k == 0 {
    } else {
        assert(!stop(s[0]));
        lemma_scan_len(s.drop_first(), stop, k - 1);
    }
}

/// `s` with every trailing whitespace character removed.
pub open spec fn is_space(c: char) -> bool {
    c == ' ' || c == '\t' || c == '\n' || c == '\r'
}

pub open spec fn trim_end_spec(s: Seq<char>) -> Seq<char>
    decreases s.len(),
{
    if s.len() > 0 && is_space(s.last()) {
        trim_end_spec(s.drop_last())
    } else {
        s
    }
}

pub proof fn lemma_trim_end(s: Seq<char>, k: int)
    requires
        0 <= k <= s.len(),
        forall|j: int| k <= j < s.len() ==> is_space(#[trigger] s[j]),
        k == 0 || !is_space(s[k - 1]),
    ensures
        trim_end_spec(s) == s.take(k),
    decreases s.len(),
{
    if s.len() == 0 {
        assert(s.take(0) =~= s);
    } else if k == s.len() {
        assert(!is_space(s.last()));
        assert(s.take(k) =~= s);
    } else {
        assert(is_space(s.last()));
        lemma_trim_end(s.drop_last(), k);
        assert(s.drop_last().take(k) =~= s.take(k));
    }
}

/// Relies on String::push: appends exactly one character.
#[verifier::external_body]
pub(crate) fn push_char(s: &mut String, c: char)
    ensures
        final(s)@ == old(s)@.push(c),
{
    s.push(c);
}

fn digit_to_char(d: u64) -> (c: char)
    ensures
        c == digit_char(d as int),
{
    match d {
        0 => '0',
        1 => '1',
        2 => '2',
        3 => '3',
        4 => '4',
        5 => '5',
        6 => '6',
        7 => '7',
        8 => '8',
        _ => '9',
    }
}

/// Appends the decimal representation of `n` to `s`.
pub fn push_u64(s: &mut String, n: u64)
    ensures
        final(s)@ == old(s)@ + dec_digits(n as nat),
    decreases n,
{
    if n < 10 {
        push_char(s, digit_to_char(n));
        assert(s@ =~= old(s)@ + dec_digits(n as nat));
    } else {
        push_u64(s, n / 10);
        push_char(s, digit_to_char(n % 10));
        assert(s@ =~= old(s)@ + dec_digits(n as nat));
    }
}

/// Appends `n` as exactly two digits, zero padded.
pub fn push_2d(s: &mut String, n: u64)
    ensures
        final(s)@ == old(s)@ + two_digits(n as int),
{
    push_char(s, digit_to_char(n / 10));
    push_char(s, digit_to_char(n % 10));
    assert(s@ =~= old(s)@ + two_digits(n as int));
}

/// The decimal representation of `n` as a fresh string.
pub fn fmt_u64(n: u64) -> (s: String)
    ensures
        s@ == dec_digits(n as nat),
{
    let mut s = String::new();
    push_u64(&mut s, n);
    assert(s@ =~= dec_digits(n as nat));
    s
}

/// Whether the character of `s` at `i` is whitespace.
pub fn space_at(s: &str, i: usize) -> (r: bool)
    requires
        i < s@.len(),
    ensures
        r == is_space(s@[i as int]),
{
    let c = s.get_char(i);
    c == ' ' || c == '\t' || c == '\n' || c == '\r'
}

/// Whether two string slices hold the same characters.
pub fn str_eq(a: &str, b: &str) -> (r: bool)
    ensures
        r == (a@ == b@),
{
    let n = a.unicode_len();
    if n != b.unicode_len() {
        return false;
    }
    let mut i: usize = 0;
    while i < n
        invariant
            0 <= i <= n,
            n == a@.len(),
            n == b@.len(),
            forall|j: int| 0 <= j < i ==> a@[j] == b@[j],
        decreases n - i,
    {
        if a.get_char(i) != b.get_char(i) {
            return false;
        }
        i += 1;
    }
    assert(a@ =~= b@);
    true
}

/// Reads `s` as a decimal `u64`; `None` on an empty string, a non-digit,
/// or a value over `u64::MAX`.
pub fn parse_u64(s: &str) -> (r: Option<u64>)
    ensures
        is_dec_u64(s@) ==> r == Some(dec_val(s@) as u64),
        !is_dec_u64(s@) ==> r is None,
{
    let n = s.unicode_len();
    if n == 0 {
        return None;
    }
    let mut i: usize = 0;
    let mut acc: u64 = 0;
    while i < n
        invariant
            0 <= i <= n,
            n == s@.len(),
            all_digits(s@.take(i as int)),
            acc == dec_val(s@.take(i as int)),
        decreases n - i,
    {
        let c = s.get_char(i);
        let v = c as u32;
        if v < 48 || v > 57 {
            assert(!is_digit(s@[i as int]));
            return None;
        }
        let d = (v - 48) as u64;
        let wide: u128 = acc as u128 * 10 + d as u128;
        proof {
            assert(s@.take(i + 1).drop_last() =~= s@.take(i as int));
            assert(s@.take(i + 1).last() == s@[i as int]);
            assert(all_digits(s@.take(i + 1)));
            assert(dec_val(s@.take(i + 1)) == acc * 10 + d);
        }
        if wide > u64::MAX as u128 {
            proof {
                if all_digits(s@) {
                    lemma_dec_val_prefix(s@, i + 1);
                }
            }
            return None;
        }
        acc = wide as u64;
        i += 1;
    }
    assert(s@.take(n as int) =~= s@);
    Some(acc)
}

/// The number a property file holds: its content with trailing whitespace
/// trimmed, read as a decimal `u64`.
pub open spec fn prop_num(s: Seq<char>) -> Option<int> {
    if is_dec_u64(trim_end_spec(s)) {
        Some(dec_val(trim_end_spec(s)))
    } else {
        None
    }
}

/// Reads a property file's content as a number, ignoring trailing whitespace.
pub fn parse_prop(s: &str) -> (r: Option<u64>)
    ensures
        r matches Some(v) ==> prop_num(s@) == Some(v as int),
        r is None ==> prop_num(s@) is None,
{
    let n = s.unicode_len();
    let mut k: usize = n;
    while k > 0 && space_at(s, k - 1)
        invariant
            0 <= k <= n,
            n == s@.len(),
            forall|j: int| k <= j < n ==> is_space(#[trigger] s@[j]),
        decreases k,
    {
        k -= 1;
    }
    proof {
        lemma_trim_end(s@, k as int);
    }
    let t = s.substring_char(0, k);
    assert(t@ =~= trim_end_spec(s@));
    proof {
        if is_dec_u64(t@) {
            lemma_dec_val_nonneg(t@);
        }
    }
    parse_u64(t)
}

} // verus!
