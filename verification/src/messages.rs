//! Alarm and info messages: bitmask scanning, decoding of the device's text
//! buffer, parsing of `[CODE] message` texts, and the text cache.

use std::collections::HashMap;
use vstd::prelude::*;
use vstd::string::*;
use crate::modbus::{bit_set, mask_has_bit};
use crate::text::{chars_of, string_from_chars};

verus! {

broadcast use vstd::std_specs::hash::group_hash_axioms;

// region: --- bitmask scan

/// Indices `k < n` whose bit is set, where index `k` is bit `k % 16` of
/// register `k / 16`, in increasing order.
pub open spec fn spec_active_upto(regs: Seq<u16>, n: nat) -> Seq<u16>
    decreases n,
{
    if n == 0 {
        Seq::empty()
    } else {
        let k = (n - 1) as nat;
        let prev = spec_active_upto(regs, k);
        if bit_set(regs[(k / 16) as int], (k % 16) as u8) {
            prev.push(k as u16)
        } else {
            prev
        }
    }
}

pub open spec fn index_active(regs: Seq<u16>, k: int) -> bool {
    0 <= k < 16 * regs.len() && bit_set(regs[k / 16], (k % 16) as u8)
}

pub proof fn lemma_active_upto(regs: Seq<u16>, n: nat)
    requires
        n <= 16 * regs.len(),
        16 * regs.len() <= 0x10000,
    ensures
        forall|i: int|
            0 <= i < spec_active_upto(regs, n).len() ==> (spec_active_upto(regs, n)[i] as int) < n
                && index_active(regs, spec_active_upto(regs, n)[i] as int),
        forall|i: int, j: int|
            0 <= i < j < spec_active_upto(regs, n).len() ==> spec_active_upto(regs, n)[i]
                < spec_active_upto(regs, n)[j],
        forall|k: int|
            0 <= k < n && index_active(regs, k) ==> spec_active_upto(regs, n).contains(k as u16),
    decreases n,
{
    if n > 0 {
        let k = (n - 1) as nat;
        lemma_active_upto(regs, k);
        let prev = spec_active_upto(regs, k);
        let cur = spec_active_upto(regs, n);
        assert forall|x: int| 0 <= x < n && index_active(regs, x) implies cur.contains(
            x as u16,
        ) by {
            if x < k {
                let w = choose|w: int| 0 <= w < prev.len() && prev[w] == x as u16;
                assert(cur[w] == x as u16);
            } else {
                assert(cur[prev.len() as int] == x as u16);
            }
        }
    }
}

/// Indices of all set bits across `registers` (bit `b` of register `r` is
/// index `16 * r + b`), in increasing order.
pub fn scan_bitmask(registers: &[u16]) -> (r: Vec<u16>)
    requires
        16 * registers.len() <= 0x10000,
    ensures
        r@ == spec_active_upto(registers@, (16 * registers.len()) as nat),
        forall|i: int| 0 <= i < r.len() ==> index_active(registers@, r[i] as int),
        forall|k: int| #[trigger] index_active(registers@, k) ==> r@.contains(k as u16),
        forall|i: int, j: int| 0 <= i < j < r.len() ==> r[i] < r[j],
{
    let total: usize = 16 * registers.len();
    let mut out: Vec<u16> = Vec::new();
    let mut k: usize = 0;
    while k < total
        invariant
            total == 16 * registers.len(),
            total <= 0x10000,
            k <= total,
            out@ == spec_active_upto(registers@, k as nat),
        decreases total - k,
    {
        let reg = registers[k / 16];
        let bit = (k % 16) as u8;
        if mask_has_bit(reg, bit) {
            out.push(k as u16);
        }
        k += 1;
    }
    proof {
        lemma_active_upto(registers@, total as nat);
    }
    out
}

// endregion: --- bitmask scan

// region: --- text buffer

/// The bytes of the text buffer: low byte, then high byte, of each register.
pub open spec fn buffer_bytes(regs: Seq<u16>) -> Seq<u8> {
    Seq::new(
        2 * regs.len(),
        |i: int|
            if i % 2 == 0 {
                (regs[i / 2] % 256) as u8
            } else {
                (regs[i / 2] / 256) as u8
            },
    )
}

/// Position of the first NUL byte at or after `i`, or the length.
pub open spec fn first_nul(b: Seq<u8>, i: nat) -> nat
    decreases b.len() - i,
{
    if i >= b.len() {
        b.len()
    } else if b[i as int] == 0 {
        i
    } else {
        first_nul(b, i + 1)
    }
}

/// The text held in a buffer: its bytes up to the first NUL, each byte
/// read as the character with that code.
pub open spec fn spec_decode_text(regs: Seq<u16>) -> Seq<char> {
    let b = buffer_bytes(regs);
    b.take(first_nul(b, 0) as int).map_values(|x: u8| x as char)
}

proof fn lemma_first_nul_bounds(b: Seq<u8>, i: nat)
    requires
        i <= b.len(),
    ensures
        i <= first_nul(b, i) <= b.len(),
        first_nul(b, i) < b.len() ==> b[first_nul(b, i) as int] == 0,
        forall|j: int| i <= j < first_nul(b, i) ==> b[j] != 0,
    decreases b.len() - i,
{
    if i < b.len() && b[i as int] != 0 {
        lemma_first_nul_bounds(b, i + 1);
    }
}

/// Byte `i` of the text buffer.
fn buffer_byte(registers: &[u16], i: usize) -> (r: u8)
    requires
        i < 2 * registers.len(),
    ensures
        r == buffer_bytes(registers@)[i as int],
{
    let reg = registers[i / 2];
    if i % 2 == 0 {
        (reg % 256) as u8
    } else {
        (reg / 256) as u8
    }
}

/// Decode a text buffer read from the device: two characters per register,
/// low byte first, up to the first NUL.
pub fn decode_text_buffer(registers: &[u16]) -> (r: String)
    requires
        registers.len() <= 0x4000_0000,
    ensures
        r@ == spec_decode_text(registers@),
{
    let ghost b = buffer_bytes(registers@);
    let n: usize = 2 * registers.len();
    let mut chars: Vec<char> = Vec::new();
    let mut i: usize = 0;
    proof {
        lemma_first_nul_bounds(b, 0);
    }
    while i < n && buffer_byte(registers, i) != 0
        invariant
            n == 2 * registers.len(),
            b == buffer_bytes(registers@),
            i <= first_nul(b, 0),
            first_nul(b, 0) <= n,
            forall|j: int| 0 <= j < first_nul(b, 0) ==> b[j] != 0,
            first_nul(b, 0) < n ==> b[first_nul(b, 0) as int] == 0,
            chars@ =~= b.take(i as int).map_values(|x: u8| x as char),
        decreases n - i,
    {
        let byte = buffer_byte(registers, i);
        chars.push(byte as char);
        i += 1;
    }
    assert(i == first_nul(b, 0));
    string_from_chars(&chars)
}

// endregion: --- text buffer

// region: --- alarm text parsing

/// Position of the first `]` at or after `i`, or the length.
pub open spec fn first_close(s: Seq<char>, i: nat) -> nat
    decreases s.len() - i,
{
    if i >= s.len() {
        s.len()
    } else if s[i as int] == ']' {
        i
    } else {
        first_close(s, i + 1)
    }
}

/// `s` without its leading spaces.
pub open spec fn trim_leading_spaces(s: Seq<char>) -> Seq<char>
    decreases s.len(),
{
    if s.len() > 0 && s[0] == ' ' {
        trim_leading_spaces(s.drop_first())
    } else {
        s
    }
}

/// Code and message of an alarm text: `[CODE] message` gives the non-empty
/// code between the brackets and the message with its leading spaces
/// removed; any other text has no code and is the message as it stands.
pub open spec fn spec_parse_alarm_text(s: Seq<char>) -> (Option<Seq<char>>, Seq<char>) {
    let k = first_close(s, 1);
    if s.len() >= 1 && s[0] == '[' && k < s.len() && k >= 2 {
        (Some(s.subrange(1, k as int)), trim_leading_spaces(s.subrange((k + 1) as int, s.len() as int)))
    } else {
        (None, s)
    }
}

proof fn lemma_first_close_bounds(s: Seq<char>, i: nat)
    requires
        i <= s.len(),
    ensures
        i <= first_close(s, i) <= s.len(),
        first_close(s, i) < s.len() ==> s[first_close(s, i) as int] == ']',
        forall|j: int| i <= j < first_close(s, i) ==> s[j] != ']',
    decreases s.len() - i,
{
    if i < s.len() && s[i as int] != ']' {
        lemma_first_close_bounds(s, i + 1);
    }
}

proof fn lemma_trim_skip(s: Seq<char>, i: int)
    requires
        0 <= i <= s.len(),
        forall|j: int| 0 <= j < i ==> s[j] == ' ',
    ensures
        trim_leading_spaces(s) == trim_leading_spaces(s.subrange(i, s.len() as int)),
    decreases i,
{
    if i > 0 {
        assert(s[0] == ' ');
        assert(trim_leading_spaces(s) == trim_leading_spaces(s.drop_first()));
        assert forall|j: int| 0 <= j < i - 1 implies s.drop_first()[j] == ' ' by {
            assert(s.drop_first()[j] == s[j + 1]);
        }
        lemma_trim_skip(s.drop_first(), i - 1);
        assert(s.drop_first().subrange(i - 1, s.drop_first().len() as int) =~= s.subrange(
            i,
            s.len() as int,
        ));
    } else {
        assert(s.subrange(0, s.len() as int) =~= s);
    }
}

/// Split an alarm text into its `[CODE]` and message.
pub fn parse_alarm_text(text: &str) -> (r: (Option<String>, String))
    ensures
        match r.0 {
            Some(c) => spec_parse_alarm_text(text@).0 == Some(c@),
            None => spec_parse_alarm_text(text@).0 is None,
        },
        r.1@ == spec_parse_alarm_text(text@).1,
{
    let s = chars_of(text);
    let n = s.len();
    if n >= 1 && s[0] == '[' {
        let mut k: usize = 1;
        proof {
            lemma_first_close_bounds(s@, 1);
        }
        while k < n && s[k] != ']'
            invariant
                n == s@.len(),
                1 <= k <= first_close(s@, 1),
                first_close(s@, 1) <= n,
                first_close(s@, 1) < n ==> s@[first_close(s@, 1) as int] == ']',
                forall|j: int| 1 <= j < first_close(s@, 1) ==> s@[j] != ']',
            decreases n - k,
        {
            k += 1;
        }
        if k < n && k >= 2 {
            let mut code: Vec<char> = Vec::new();
            let mut i: usize = 1;
            while i < k
                invariant
                    1 <= i <= k < n,
                    n == s@.len(),
                    code@ =~= s@.subrange(1, i as int),
                decreases k - i,
            {
                code.push(s[i]);
                i += 1;
            }
            let mut j: usize = k + 1;
            while j < n && s[j] == ' '
                invariant
                    k + 1 <= j <= n,
                    n == s@.len(),
                    forall|x: int| k + 1 <= x < j ==> s@[x] == ' ',
                decreases n - j,
            {
                j += 1;
            }
            let mut msg: Vec<char> = Vec::new();
            let mut m: usize = j;
            while m < n
                invariant
                    j <= m <= n,
                    n == s@.len(),
                    msg@ =~= s@.subrange(j as int, m as int),
                decreases n - m,
            {
                msg.push(s[m]);
                m += 1;
            }
            proof {
                let tail = s@.subrange(k + 1, n as int);
                assert forall|x: int| 0 <= x < j - (k + 1) implies tail[x] == ' ' by {
                    assert(tail[x] == s@[x + k + 1]);
                }
                lemma_trim_skip(tail, j - (k + 1));
                assert(tail.subrange(j - (k + 1), tail.len() as int) =~= s@.subrange(
                    j as int,
                    n as int,
                ));
                if j < n {
                    assert(s@.subrange(j as int, n as int)[0] == s@[j as int]);
                }
                assert(trim_leading_spaces(s@.subrange(j as int, n as int)) == s@.subrange(
                    j as int,
                    n as int,
                ));
            }
            return (Some(string_from_chars(&code)), string_from_chars(&msg));
        }
    }
    (None, string_from_chars(&s))
}

// endregion: --- alarm text parsing

// region: --- first-seen times

/// Time recorded for `key`: the entry nearest the end with that key.
pub open spec fn seen_lookup(e: Seq<(String, u64)>, key: Seq<char>) -> Option<u64>
    decreases e.len(),
{
    if e.len() == 0 {
        None
    } else if e.last().0@ == key {
        Some(e.last().1)
    } else {
        seen_lookup(e.drop_last(), key)
    }
}

/// The keys named by a list of active codes.
pub open spec fn key_set(active: Seq<String>) -> Set<Seq<char>> {
    Set::new(|k: Seq<char>| exists|i: int| 0 <= i < active.len() && active[i]@ == k)
}

/// When each active alarm or info key was first seen (Unix seconds).
pub struct FirstSeenTable {
    pub entries: Vec<(String, u64)>,
}

impl View for FirstSeenTable {
    type V = Map<Seq<char>, u64>;

    open spec fn view(&self) -> Map<Seq<char>, u64> {
        Map::new(
            |k: Seq<char>| seen_lookup(self.entries@, k) is Some,
            |k: Seq<char>| seen_lookup(self.entries@, k).unwrap(),
        )
    }
}

proof fn lemma_seen_push(e: Seq<(String, u64)>, p: (String, u64), k: Seq<char>)
    ensures
        seen_lookup(e.push(p), k) == if p.0@ == k {
            Some(p.1)
        } else {
            seen_lookup(e, k)
        },
{
    assert(e.push(p).drop_last() =~= e);
}

proof fn lemma_seen_take(e: Seq<(String, u64)>, i: int, k: Seq<char>)
    requires
        0 <= i < e.len(),
    ensures
        seen_lookup(e.take(i + 1), k) == if e[i].0@ == k {
            Some(e[i].1)
        } else {
            seen_lookup(e.take(i), k)
        },
{
    assert(e.take(i + 1) =~= e.take(i).push(e[i]));
    lemma_seen_push(e.take(i), e[i], k);
}

/// The time recorded for `key`, if any.
fn seen_find(entries: &Vec<(String, u64)>, key: &str) -> (r: Option<u64>)
    ensures
        r == seen_lookup(entries@, key@),
{
    let mut i = entries.len();
    assert(entries@.take(i as int) =~= entries@);
    while i > 0
        invariant
            i <= entries.len(),
            seen_lookup(entries@, key@) == seen_lookup(entries@.take(i as int), key@),
        decreases i,
    {
        i -= 1;
        proof {
            lemma_seen_take(entries@, i as int, key@);
        }
        if crate::text::str_eq(entries[i].0.as_str(), key) {
            return Some(entries[i].1);
        }
    }
    None
}

/// Whether `key` is one of `active`.
fn key_in(active: &Vec<String>, key: &str) -> (r: bool)
    ensures
        r == key_set(active@).contains(key@),
{
    let mut i: usize = 0;
    while i < active.len()
        invariant
            i <= active.len(),
            forall|j: int| 0 <= j < i ==> active@[j]@ != key@,
        decreases active.len() - i,
    {
        if crate::text::str_eq(active[i].as_str(), key) {
            assert(active@[i as int]@ == key@);
            return true;
        }
        i += 1;
    }
    false
}

impl FirstSeenTable {
    pub fn new() -> (r: Self)
        ensures
            r@ == Map::<Seq<char>, u64>::empty(),
    {
        let r = FirstSeenTable { entries: Vec::new() };
        assert(r@ =~= Map::<Seq<char>, u64>::empty());
        r
    }

    /// The first-seen time of `key`: a key already in the table keeps its
    /// time and the table is unchanged; a new key is recorded at `now`.
    pub fn record_first_seen(&mut self, key: &str, now: u64) -> (r: u64)
        ensures
            old(self)@.contains_key(key@) ==> r == old(self)@[key@] && final(self)@ == old(self)@,
            !old(self)@.contains_key(key@) ==> r == now && final(self)@ == old(self)@.insert(
                key@,
                now,
            ),
    {
        match seen_find(&self.entries, key) {
            Some(t) => t,
            None => {
                let ghost before = self.entries@;
                let k = String::from_str(key);
                self.entries.push((k, now));
                proof {
                    assert forall|x: Seq<char>|
                        #![trigger seen_lookup(self.entries@, x)]
                        seen_lookup(self.entries@, x) == if key@ == x {
                            Some(now)
                        } else {
                            seen_lookup(before, x)
                        } by {
                        lemma_seen_push(before, (k, now), x);
                    }
                    let old_map = Map::new(
                        |kk: Seq<char>| seen_lookup(before, kk) is Some,
                        |kk: Seq<char>| seen_lookup(before, kk).unwrap(),
                    );
                    assert(self@ =~= old_map.insert(key@, now));
                }
                now
            },
        }
    }

    /// Drop the keys that are not among `active` (codes no longer reported).
    pub fn retain_active(&mut self, active: &Vec<String>)
        ensures
            final(self)@ == old(self)@.restrict(key_set(active@)),
    {
        let ghost e = self.entries@;
        let mut out: Vec<(String, u64)> = Vec::new();
        let mut i: usize = 0;
        assert(e.take(0) =~= Seq::<(String, u64)>::empty());
        while i < self.entries.len()
            invariant
                e == self.entries@,
                i <= self.entries.len(),
                forall|x: Seq<char>|
                    #![trigger seen_lookup(out@, x)]
                    seen_lookup(out@, x) == if key_set(active@).contains(x) {
                        seen_lookup(e.take(i as int), x)
                    } else {
                        None
                    },
            decreases self.entries.len() - i,
        {
            let keep = key_in(active, self.entries[i].0.as_str());
            let ghost before = out@;
            if keep {
                let k = self.entries[i].0.clone();
                out.push((k, self.entries[i].1));
            }
            proof {
                assert forall|x: Seq<char>|
                    #![trigger seen_lookup(out@, x)]
                    seen_lookup(out@, x) == if key_set(active@).contains(x) {
                        seen_lookup(e.take(i + 1), x)
                    } else {
                        None
                    } by {
                    lemma_seen_take(e, i as int, x);
                    if keep {
                        lemma_seen_push(before, out@.last(), x);
                        assert(out@ =~= before.push(out@.last()));
                    }
                }
            }
            i += 1;
        }
        let ghost old_map = self@;
        assert(e.take(e.len() as int) =~= e);
        self.entries = out;
        assert(self@ =~= old_map.restrict(key_set(active@)));
    }
}

// endregion: --- first-seen times

// region: --- text cache

/// Text of an alarm or info as read from the device, split into code and message.
#[derive(Debug, Clone)]
pub struct CachedAlarmText {
    pub code: Option<String>,
    pub message: String,
    pub raw_text: String,
}

pub open spec fn opt_string_view(o: Option<String>) -> Option<Seq<char>> {
    match o {
        Some(s) => Some(s@),
        None => None,
    }
}

/// Decode a text buffer into the cached text entry.
pub fn cached_text_from_buffer(registers: &[u16]) -> (r: CachedAlarmText)
    requires
        registers.len() <= 0x4000_0000,
    ensures
        r.raw_text@ == spec_decode_text(registers@),
        opt_string_view(r.code) == spec_parse_alarm_text(r.raw_text@).0,
        r.message@ == spec_parse_alarm_text(r.raw_text@).1,
{
    let raw_text = decode_text_buffer(registers);
    let (code, message) = parse_alarm_text(raw_text.as_str());
    CachedAlarmText { code, message, raw_text }
}

/// Texts already fetched from the device, keyed by alarm/info reference.
pub struct AlarmTextCache {
    entries: HashMap<u16, CachedAlarmText>,
}

impl View for AlarmTextCache {
    type V = Map<u16, CachedAlarmText>;

    closed spec fn view(&self) -> Map<u16, CachedAlarmText> {
        self.entries@
    }
}

impl AlarmTextCache {
    pub fn new() -> (r: Self)
        ensures
            r@ == Map::<u16, CachedAlarmText>::empty(),
    {
        AlarmTextCache { entries: HashMap::new() }
    }

    /// The cached text for `reference`, if any.
    pub fn get(&self, reference: u16) -> (r: Option<CachedAlarmText>)
        ensures
            r is Some <==> self@.contains_key(reference),
            r matches Some(t) ==> t == self@[reference],
    {
        match self.entries.get(&reference) {
            Some(t) => Some(t.clone_text()),
            None => None,
        }
    }

    /// Cache `text` under `reference`, replacing any earlier text.
    pub fn insert(&mut self, reference: u16, text: CachedAlarmText)
        ensures
            final(self)@ == old(self)@.insert(reference, text),
    {
        self.entries.insert(reference, text);
    }
}

impl CachedAlarmText {
    /// A copy of the entry.
    pub fn clone_text(&self) -> (r: CachedAlarmText)
        ensures
            r == *self,
    {
        let code = match &self.code {
            Some(c) => Some(c.clone()),
            None => None,
        };
        let r = CachedAlarmText {
            code,
            message: self.message.clone(),
            raw_text: self.raw_text.clone(),
        };
        assert(r.message@ == self.message@);
        r
    }
}

/// A lookup in the text cache gives back the text last inserted for that
/// reference, and inserting for one reference leaves the others as they were.
pub proof fn text_cache_read_after_write(
    m: Map<u16, CachedAlarmText>,
    reference: u16,
    other: u16,
    text: CachedAlarmText,
)
    ensures
        m.insert(reference, text).contains_key(reference),
        m.insert(reference, text)[reference] == text,
        other != reference ==> (m.insert(reference, text).contains_key(other) == m.contains_key(
            other,
        ) && (m.contains_key(other) ==> m.insert(reference, text)[other] == m[other])),
{
}

// endregion: --- text cache

} // verus!
