//! The volume block: one status line of the helper process parsed into
//! device letter, volume percentage and mute flag, and its rendering.
//!
//! A line holds three tab-separated fields: the device name, the volume
//! as a decimal fraction, and the mute flag as `true` or `false`.  The
//! device letter is the character after the first `.` of the device name;
//! the fraction is rounded to the nearest percent, half up, and saturated
//! to the `u16` range.

use vstd::prelude::*;
use vstd::string::{StrSliceExecFns, StringExecFns};
use crate::blocks::{Block, BlockSignal, Sources};
use crate::text::{
    all_digits, dec_digits, dec_val, digit_val, is_digit, lemma_dec_val_nonneg, lemma_scan_len,
    parse_u64, push_char, push_u64, scan_len, str_eq,
};

verus! {

/// Facts captured from one helper line: volume percentage, mute flag,
/// and the device letter.
#[derive(Clone, Copy, Debug, PartialEq, Eq, Structural)]
pub struct Volume {
    pub volume: u16,
    pub muted: bool,
    pub device: char,
}

/// The error of a malformed helper line.
#[derive(Clone, Copy, Debug, PartialEq, Eq, Structural)]
pub struct ParseVolumeError;

impl ParseVolumeError {
    /// The human-readable description of the error.
    pub fn message(&self) -> (s: String)
        ensures
            s@ == "could not parse volume"@,
    {
        let mut s = String::new();
        s.append("could not parse volume");
        s
    }
}

/// The three tab-separated fields of a helper line: everything before the
/// first tab, between the first and second tab, and after the second tab
/// (further tabs stay in the third field).  Fewer than two tabs is a
/// malformed line.
pub open spec fn fields_of(s: Seq<char>) -> Option<(Seq<char>, Seq<char>, Seq<char>)> {
    let t1 = scan_len(s, |c: char| c == '\t') as int;
    if t1 == s.len() {
        None
    } else {
        let rest = s.skip(t1 + 1);
        let t2 = scan_len(rest, |c: char| c == '\t') as int;
        if t2 == rest.len() {
            None
        } else {
            Some((s.take(t1), rest.take(t2), rest.skip(t2 + 1)))
        }
    }
}

/// The device letter: the character right after the first `.` of the
/// device name; a name without one, or with nothing after it, is malformed.
pub open spec fn device_of(d: Seq<char>) -> Option<char> {
    let k = scan_len(d, |c: char| c == '.') as int;
    if k == d.len() || k + 1 == d.len() {
        None
    } else {
        Some(d[k + 1])
    }
}

/// The digit of `f` at `i`, taking absent places as zero.
pub open spec fn frac_digit(f: Seq<char>, i: int) -> int {
    if 0 <= i < f.len() {
        digit_val(f[i])
    } else {
        0
    }
}

/// The integer and fraction digits of a decimal-fraction numeral: digits,
/// optionally around a single `.`, at least one digit in all.
pub open spec fn percent_parts(v: Seq<char>) -> Option<(Seq<char>, Seq<char>)> {
    let k = scan_len(v, |c: char| c == '.') as int;
    let ip = v.take(k);
    let fp = if k == v.len() {
        Seq::<char>::empty()
    } else {
        v.skip(k + 1)
    };
    if all_digits(ip) && all_digits(fp) && ip.len() + fp.len() >= 1 {
        Some((ip, fp))
    } else {
        None
    }
}

/// The fraction read as percent, rounded to the nearest percent, half up.
pub open spec fn percent_val(ip: Seq<char>, fp: Seq<char>) -> int {
    dec_val(ip) * 100 + frac_digit(fp, 0) * 10 + frac_digit(fp, 1) + if frac_digit(fp, 2) >= 5 {
        1int
    } else {
        0int
    }
}

/// The volume a fraction field denotes, saturated to the `u16` range.
pub open spec fn percent_of(v: Seq<char>) -> Option<u16> {
    match percent_parts(v) {
        Some(p) => Some(
            if percent_val(p.0, p.1) > 65535 {
                65535u16
            } else {
                percent_val(p.0, p.1) as u16
            },
        ),
        None => None,
    }
}

/// The mute flag: exactly `true` or `false`.
pub open spec fn muted_of(m: Seq<char>) -> Option<bool> {
    if m == "true"@ {
        Some(true)
    } else if m == "false"@ {
        Some(false)
    } else {
        None
    }
}

/// What a helper line denotes, if well formed.
pub open spec fn parse_spec(s: Seq<char>) -> Option<Volume> {
    match fields_of(s) {
        Some(f) => match (device_of(f.0), percent_of(f.1), muted_of(f.2)) {
            (Some(d), Some(p), Some(m)) => Some(Volume { volume: p, muted: m, device: d }),
            _ => None,
        },
        None => None,
    }
}

/// Scans `s` for the first occurrence of `stop` at or after nothing,
/// returning its index, or the length if absent.
fn scan_for(s: &str, stop: char) -> (k: usize)
    ensures
        k == scan_len(s@, |c: char| c == stop),
        k <= s@.len(),
{
    let n = s.unicode_len();
    let mut k: usize = 0;
    while k < n && s.get_char(k) != stop
        invariant
            0 <= k <= n,
            n == s@.len(),
            forall|j: int| 0 <= j < k ==> s@[j] != stop,
        decreases n - k,
    {
        k += 1;
    }
    proof {
        lemma_scan_len(s@, |c: char| c == stop, k as int);
    }
    k
}

/// Reads a fraction field as a saturated percentage.
fn percent_exec(v: &str) -> (r: Option<u16>)
    ensures
        r == percent_of(v@),
{
    let n = v.unicode_len();
    let k = scan_for(v, '.');
    let ghost ip = v@.take(k as int);
    let ghost fp = if k == n {
        Seq::<char>::empty()
    } else {
        v@.skip(k as int + 1)
    };
    // every character of both parts must be a digit, one digit at least
    let mut i: usize = 0;
    while i < k
        invariant
            0 <= i <= k <= n,
            n == v@.len(),
            k == scan_len(v@, |c: char| c == '.'),
            ip == v@.take(k as int),
            forall|j: int| 0 <= j < i ==> is_digit(#[trigger] ip[j]),
        decreases k - i,
    {
        let c = v.get_char(i);
        if (c as u32) < 48 || (c as u32) > 57 {
            assert(!is_digit(ip[i as int]));
            return None;
        }
        i += 1;
    }
    assert(all_digits(ip));
    if k < n {
        let mut i: usize = k + 1;
        while i < n
            invariant
                k < n,
                k + 1 <= i <= n,
                n == v@.len(),
                k == scan_len(v@, |c: char| c == '.'),
                ip == v@.take(k as int),
                fp == v@.skip(k as int + 1),
                all_digits(ip),
                forall|j: int| k + 1 <= j < i ==> is_digit(#[trigger] v@[j]),
            decreases n - i,
        {
            let c = v.get_char(i);
            if (c as u32) < 48 || (c as u32) > 57 {
                assert(!is_digit(fp[i - k - 1]));
                return None;
            }
            i += 1;
        }
        assert forall|j: int| 0 <= j < fp.len() implies is_digit(#[trigger] fp[j]) by {
            assert(fp[j] == v@[k + 1 + j]);
        }
    }
    assert(all_digits(fp));
    let fplen: usize = if k < n {
        n - k - 1
    } else {
        0
    };
    assert(fplen == fp.len());
    if k == 0 && fplen == 0 {
        return None;
    }
    // the integer part, saturating when it alone is over the range
    let ipv: u64 = if k == 0 {
        0
    } else {
        let ip_str = v.substring_char(0, k);
        assert(ip_str@ =~= ip);
        match parse_u64(ip_str) {
            Some(x) => x,
            None => {
                // all digits, so the value itself is over `u64::MAX`
                proof {
                    lemma_dec_val_nonneg(ip);
                    assert(dec_val(ip) * 100 >= dec_val(ip));
                }
                return Some(65535);
            },
        }
    };
    proof {
        lemma_dec_val_nonneg(ip);
        if k == 0 {
            assert(ip =~= Seq::<char>::empty());
        }
    }
    let d1: u64 = frac_digit_exec(v, k, n, 0);
    let d2: u64 = frac_digit_exec(v, k, n, 1);
    let d3: u64 = frac_digit_exec(v, k, n, 2);
    let round: u64 = if d3 >= 5 {
        1
    } else {
        0
    };
    let wide: u128 = ipv as u128 * 100 + d1 as u128 * 10 + d2 as u128 + round as u128;
    assert(wide == percent_val(ip, fp));
    if wide > 65535 {
        Some(65535)
    } else {
        Some(wide as u16)
    }
}

/// The digit of the fraction part at place `i`, zero when absent.
fn frac_digit_exec(v: &str, k: usize, n: usize, i: usize) -> (d: u64)
    requires
        n == v@.len(),
        k <= n,
        i < 3,
        forall|j: int| k + 1 <= j < n ==> is_digit(#[trigger] v@[j]),
    ensures
        d == frac_digit(
            if k == n {
                Seq::<char>::empty()
            } else {
                v@.skip(k as int + 1)
            },
            i as int,
        ),
{
    if k < n && i < n - (k + 1) {
        let c = v.get_char(k + 1 + i);
        assert(is_digit(v@[k + 1 + i]));
        ((c as u32) - 48) as u64
    } else {
        0
    }
}

impl Volume {
    /// The default facts: zero volume, not muted, the null device letter.
    pub open spec fn default_spec() -> Volume {
        Volume { volume: 0, muted: false, device: '\0' }
    }

    /// Parses one helper line.  A line without two tabs, a device name
    /// without a letter after its first `.`, a fraction that is not
    /// digits around at most one `.`, or a mute flag that is neither
    /// `true` nor `false` is an error.
    pub fn from_str(s: &str) -> (r: Result<Volume, ParseVolumeError>)
        ensures
            r matches Ok(v) ==> parse_spec(s@) == Some(v),
            r is Err ==> parse_spec(s@) is None,
    {
        let n = s.unicode_len();
        let t1 = scan_for(s, '\t');
        if t1 == n {
            return Err(ParseVolumeError);
        }
        let rest = s.substring_char(t1 + 1, n);
        assert(rest@ =~= s@.skip(t1 as int + 1));
        let m = rest.unicode_len();
        let t2 = scan_for(rest, '\t');
        if t2 == m {
            return Err(ParseVolumeError);
        }
        let dev = s.substring_char(0, t1);
        assert(dev@ =~= s@.take(t1 as int));
        let vol_str = rest.substring_char(0, t2);
        assert(vol_str@ =~= rest@.take(t2 as int));
        let muted_str = rest.substring_char(t2 + 1, m);
        assert(muted_str@ =~= rest@.skip(t2 as int + 1));
        // the device letter
        let dn = dev.unicode_len();
        let dk = scan_for(dev, '.');
        if dk == dn || dk + 1 == dn {
            return Err(ParseVolumeError);
        }
        let device = dev.get_char(dk + 1);
        // the volume percentage
        let volume = match percent_exec(vol_str) {
            Some(p) => p,
            None => {
                return Err(ParseVolumeError);
            },
        };
        // the mute flag
        let muted = if str_eq(muted_str, "true") {
            true
        } else if str_eq(muted_str, "false") {
            false
        } else {
            return Err(ParseVolumeError);
        };
        Ok(Volume { volume, muted, device })
    }
}

impl Default for Volume {
    /// The default facts: zero volume, not muted, the null device letter.
    fn default() -> (v: Volume)
        ensures
            v == Volume::default_spec(),
    {
        Volume { volume: 0, muted: false, device: '\0' }
    }
}

impl Block for Volume {
    open spec fn identity_spec(&self) -> BlockSignal {
        BlockSignal::Volume
    }

    /// `{mute_flag} vol/{percent}%/{device_letter}` with an `m` flag when
    /// muted and an empty flag otherwise.
    open spec fn rendered(&self) -> Seq<char> {
        (if self.muted {
            "m"@
        } else {
            Seq::<char>::empty()
        }) + " vol/"@ + dec_digits(self.volume as nat) + "%/"@ + seq![self.device]
    }

    fn signal(&self) -> (s: BlockSignal) {
        BlockSignal::Volume
    }

    /// The volume block's facts arrive only on the helper's stream, so a
    /// synchronous refresh keeps the current facts.
    fn update(&mut self, sources: &Sources)
        ensures
            *final(self) == *old(self),
    {
    }

    fn render(&self) -> (s: String) {
        let mut s = String::new();
        if self.muted {
            s.append("m");
        }
        s.append(" vol/");
        push_u64(&mut s, self.volume as u64);
        s.append("%/");
        push_char(&mut s, self.device);
        assert(s@ =~= self.rendered());
        s
    }
}

} // verus!
