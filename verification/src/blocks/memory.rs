//! The memory block: the counters of the memory-info pseudo-file and the
//! used-memory figure they render.
//!
//! The file holds one counter per line: a name ending in a colon, then a
//! decimal value, separated by whitespace.  Lines without both tokens,
//! with an unreadable value, or with an unknown name contribute nothing.

use vstd::prelude::*;
use vstd::string::{StrSliceExecFns, StringExecFns};
use crate::blocks::{Block, BlockSignal, Sources};
use crate::text::{
    dec_digits, dec_val, is_dec_u64, is_space, lemma_scan_len, parse_u64, push_char, push_u64,
    scan_len, space_at, str_eq,
};

verus! {

/// The counters captured from the memory-info file, in kibibytes.
#[derive(Clone, Copy, Debug, PartialEq, Eq, Structural)]
pub struct Memory {
    pub mem_total: u64,
    pub mem_free: u64,
    pub mem_available: u64,
    pub buffers: u64,
    pub cache: u64,
    pub s_reclaimable: u64,
    pub swap_total: u64,
    pub swap_free: u64,
    pub swap_cached: u64,
}

/// The whitespace-separated words of `s`.
pub open spec fn words(s: Seq<char>) -> Seq<Seq<char>>
    decreases s.len(),
    via words_decreases
{
    if s.len() == 0 {
        Seq::empty()
    } else if is_space(s[0]) {
        words(s.skip(1))
    } else {
        let w = scan_len(s, |c: char| is_space(c)) as int;
        seq![s.take(w)] + words(s.skip(w))
    }
}

#[via_fn]
proof fn words_decreases(s: Seq<char>) {
    if s.len() > 0 && !is_space(s[0]) {
        crate::text::lemma_scan_len_le(s, |c: char| is_space(c));
        assert(scan_len(s, |c: char| is_space(c)) >= 1);
    }
}

/// Leading whitespace never changes the words.
proof fn lemma_words_skip_spaces(s: Seq<char>, a: int)
    requires
        0 <= a <= s.len(),
        forall|j: int| 0 <= j < a ==> is_space(#[trigger] s[j]),
    ensures
        words(s) == words(s.skip(a)),
    decreases a,
{
    if a > 0 {
        lemma_words_skip_spaces(s.skip(1), a - 1);
        assert(s.skip(1).skip(a - 1) =~= s.skip(a));
        assert(s.skip(0) =~= s);
    } else {
        assert(s.skip(0) =~= s);
    }
}

/// The counter `name` selects, replaced by `v`; an unknown name selects none.
pub open spec fn set_field(m: Memory, name: Seq<char>, v: u64) -> Memory {
    if name == "MemTotal:"@ {
        Memory { mem_total: v, ..m }
    } else if name == "MemFree:"@ {
        Memory { mem_free: v, ..m }
    } else if name == "MemAvailable:"@ {
        Memory { mem_available: v, ..m }
    } else if name == "Buffers:"@ {
        Memory { buffers: v, ..m }
    } else if name == "Cached:"@ {
        Memory { cache: v, ..m }
    } else if name == "SReclaimable:"@ {
        Memory { s_reclaimable: v, ..m }
    } else if name == "SwapTotal:"@ {
        Memory { swap_total: v, ..m }
    } else if name == "SwapFree:"@ {
        Memory { swap_free: v, ..m }
    } else if name == "SwapCached:"@ {
        Memory { swap_cached: v, ..m }
    } else {
        m
    }
}

/// What one line contributes: its named counter set to its value, when
/// the line has a name, a readable value, and a known name.
pub open spec fn apply_line(m: Memory, line: Seq<char>) -> Memory {
    let ws = words(line);
    if ws.len() < 2 || !is_dec_u64(ws[1]) {
        m
    } else {
        set_field(m, ws[0], dec_val(ws[1]) as u64)
    }
}

/// The counters after reading `s` line by line, starting from `m`.
pub open spec fn mem_scan(m: Memory, s: Seq<char>) -> Memory
    decreases s.len(),
    via mem_scan_decreases
{
    if s.len() == 0 {
        m
    } else {
        let k = scan_len(s, |c: char| c == '\n') as int;
        if k == s.len() {
            apply_line(m, s)
        } else {
            mem_scan(apply_line(m, s.take(k)), s.skip(k + 1))
        }
    }
}

#[via_fn]
proof fn mem_scan_decreases(m: Memory, s: Seq<char>) {
    if s.len() > 0 {
        crate::text::lemma_scan_len_le(s, |c: char| c == '\n');
    }
}

/// The counters the whole file content denotes.
pub open spec fn mem_of(content: Seq<char>) -> Memory {
    mem_scan(Memory::default_spec(), content)
}

/// `a - b`, saturated at zero.
pub open spec fn sat_sub(a: int, b: int) -> int {
    if a >= b {
        a - b
    } else {
        0
    }
}

/// Kibibytes in use: total less free, buffers, cache and reclaimable
/// slab, each subtraction saturated at zero.
pub open spec fn used_kib(m: Memory) -> int {
    sat_sub(sat_sub(sat_sub(sat_sub(m.mem_total as int, m.mem_free as int), m.buffers as int),
        m.cache as int), m.s_reclaimable as int)
}

/// Used memory in tenths of gibibytes, rounded half up.
pub open spec fn gi_tenths(m: Memory) -> int {
    (used_kib(m) * 10 + 524288) / 1048576
}

fn set_field_exec(m: Memory, name: &str, v: u64) -> (r: Memory)
    ensures
        r == set_field(m, name@, v),
{
    if str_eq(name, "MemTotal:") {
        Memory { mem_total: v, ..m }
    } else if str_eq(name, "MemFree:") {
        Memory { mem_free: v, ..m }
    } else if str_eq(name, "MemAvailable:") {
        Memory { mem_available: v, ..m }
    } else if str_eq(name, "Buffers:") {
        Memory { buffers: v, ..m }
    } else if str_eq(name, "Cached:") {
        Memory { cache: v, ..m }
    } else if str_eq(name, "SReclaimable:") {
        Memory { s_reclaimable: v, ..m }
    } else if str_eq(name, "SwapTotal:") {
        Memory { swap_total: v, ..m }
    } else if str_eq(name, "SwapFree:") {
        Memory { swap_free: v, ..m }
    } else if str_eq(name, "SwapCached:") {
        Memory { swap_cached: v, ..m }
    } else {
        m
    }
}

fn apply_line_exec(m: Memory, line: &str) -> (r: Memory)
    ensures
        r == apply_line(m, line@),
{
    let n = line.unicode_len();
    let mut a: usize = 0;
    while a < n && space_at(line, a)
        invariant
            0 <= a <= n,
            n == line@.len(),
            forall|j: int| 0 <= j < a ==> is_space(#[trigger] line@[j]),
        decreases n - a,
    {
        a += 1;
    }
    proof {
        lemma_words_skip_spaces(line@, a as int);
    }
    if a == n {
        assert(line@.skip(a as int) =~= Seq::<char>::empty());
        return m;
    }
    let mut b: usize = a;
    while b < n && !space_at(line, b)
        invariant
            a <= b <= n,
            n == line@.len(),
            forall|j: int| a <= j < b ==> !is_space(#[trigger] line@[j]),
        decreases n - b,
    {
        b += 1;
    }
    proof {
        let t = line@.skip(a as int);
        lemma_scan_len(t, |c: char| is_space(c), b - a);
        assert(words(t) == seq![t.take(b - a)] + words(t.skip(b - a)));
        assert(t.skip(b - a) =~= line@.skip(b as int));
    }
    let name = line.substring_char(a, b);
    assert(name@ =~= line@.skip(a as int).take(b - a));
    let mut c: usize = b;
    while c < n && space_at(line, c)
        invariant
            b <= c <= n,
            n == line@.len(),
            forall|j: int| b <= j < c ==> is_space(#[trigger] line@[j]),
        decreases n - c,
    {
        c += 1;
    }
    proof {
        let u = line@.skip(b as int);
        lemma_words_skip_spaces(u, c - b);
        assert(u.skip(c - b) =~= line@.skip(c as int));
    }
    if c == n {
        assert(line@.skip(c as int) =~= Seq::<char>::empty());
        assert(words(line@).len() == 1);
        return m;
    }
    let mut d: usize = c;
    while d < n && !space_at(line, d)
        invariant
            c <= d <= n,
            n == line@.len(),
            forall|j: int| c <= j < d ==> !is_space(#[trigger] line@[j]),
        decreases n - d,
    {
        d += 1;
    }
    proof {
        let v = line@.skip(c as int);
        lemma_scan_len(v, |c: char| is_space(c), d - c);
        assert(words(v) == seq![v.take(d - c)] + words(v.skip(d - c)));
    }
    let value = line.substring_char(c, d);
    assert(value@ =~= line@.skip(c as int).take(d - c));
    assert(words(line@).len() >= 2);
    assert(words(line@)[0] == name@);
    assert(words(line@)[1] == value@);
    match parse_u64(value) {
        Some(v) => set_field_exec(m, name, v),
        None => m,
    }
}

impl Memory {
    /// The default counters: everything zero.
    pub open spec fn default_spec() -> Memory {
        Memory {
            mem_total: 0,
            mem_free: 0,
            mem_available: 0,
            buffers: 0,
            cache: 0,
            s_reclaimable: 0,
            swap_total: 0,
            swap_free: 0,
            swap_cached: 0,
        }
    }

    /// The counters a refresh takes from the sources: the memory-info
    /// content read line by line, or the defaults when it is missing.
    pub open spec fn of_sources_spec(s: Sources) -> Memory {
        match s.meminfo {
            Some(c) => mem_of(c@),
            None => Memory::default_spec(),
        }
    }

    /// Reads the counters out of the memory-info file's content.
    pub fn from_meminfo(content: &str) -> (m: Memory)
        ensures
            m == mem_of(content@),
    {
        let n = content.unicode_len();
        let mut m = Memory::default();
        let mut pos: usize = 0;
        assert(content@.skip(0) =~= content@);
        while pos < n
            invariant
                0 <= pos <= n,
                n == content@.len(),
                mem_of(content@) == mem_scan(m, content@.skip(pos as int)),
            decreases n - pos,
        {
            let mut e: usize = pos;
            while e < n && content.get_char(e) != '\n'
                invariant
                    pos <= e <= n,
                    n == content@.len(),
                    forall|j: int| pos <= j < e ==> content@[j] != '\n',
                decreases n - e,
            {
                e += 1;
            }
            let line = content.substring_char(pos, e);
            proof {
                let t = content@.skip(pos as int);
                lemma_scan_len(t, |c: char| c == '\n', e - pos);
                assert(line@ =~= t.take(e - pos));
                if e == n {
                    assert(t.take(e - pos) =~= t);
                } else {
                    assert(t.skip((e - pos) + 1) =~= content@.skip(e + 1));
                }
            }
            m = apply_line_exec(m, line);
            pos = if e < n {
                e + 1
            } else {
                n
            };
        }
        assert(content@.skip(n as int) =~= Seq::<char>::empty());
        m
    }

    /// Parses fresh counters out of the given sources.
    pub fn of_sources(sources: &Sources) -> (m: Memory)
        ensures
            m == Memory::of_sources_spec(*sources),
    {
        match &sources.meminfo {
            Some(c) => Memory::from_meminfo(c.as_str()),
            None => Memory::default(),
        }
    }
}

impl Default for Memory {
    /// The default counters: everything zero.
    fn default() -> (m: Memory)
        ensures
            m == Memory::default_spec(),
    {
        Memory {
            mem_total: 0,
            mem_free: 0,
            mem_available: 0,
            buffers: 0,
            cache: 0,
            s_reclaimable: 0,
            swap_total: 0,
            swap_free: 0,
            swap_cached: 0,
        }
    }
}

impl Block for Memory {
    open spec fn identity_spec(&self) -> BlockSignal {
        BlockSignal::Memory
    }

    /// `mem/{used}Gi`: used memory in gibibytes with one decimal.
    open spec fn rendered(&self) -> Seq<char> {
        let g = gi_tenths(*self);
        "mem/"@ + dec_digits((g / 10) as nat) + seq!['.'] + dec_digits((g % 10) as nat) + "Gi"@
    }

    fn signal(&self) -> (s: BlockSignal) {
        BlockSignal::Memory
    }

    fn update(&mut self, sources: &Sources)
        ensures
            *final(self) == Memory::of_sources_spec(*sources),
    {
        *self = Memory::of_sources(sources);
    }

    fn render(&self) -> (s: String) {
        let u1 = if self.mem_total >= self.mem_free {
            self.mem_total - self.mem_free
        } else {
            0
        };
        let u2 = if u1 >= self.buffers {
            u1 - self.buffers
        } else {
            0
        };
        let u3 = if u2 >= self.cache {
            u2 - self.cache
        } else {
            0
        };
        let used = if u3 >= self.s_reclaimable {
            u3 - self.s_reclaimable
        } else {
            0
        };
        let wide: u128 = used as u128 * 10 + 524288;
        let g128: u128 = wide / 1048576;
        proof {
            vstd::arithmetic::div_mod::lemma_div_is_ordered(
                wide as int,
                0xffffffffffffffffu64 as int * 10 + 524288,
                1048576,
            );
        }
        let g: u64 = g128 as u64;
        let mut s = String::new();
        s.append("mem/");
        push_u64(&mut s, g / 10);
        push_char(&mut s, '.');
        push_u64(&mut s, g % 10);
        s.append("Gi");
        assert(s@ =~= self.rendered());
        s
    }
}

} // verus!
