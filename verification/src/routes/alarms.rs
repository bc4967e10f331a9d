//! Decisions behind the alarm endpoints: count decoding, text-buffer
//! references, cache keys, translation lookups and the summary of a scan.

use vstd::prelude::*;
use crate::modbus::bms_parameters::INFO_REF_OFFSET;
use crate::messages::opt_string_view;
use crate::text::{chars_of, str_eq, string_from_chars};

verus! {

/// Text buffer transfer register (write the alarm/info reference here).
pub const TEXT_BUFFER_TRANSFER_REG: u16 = 65100;

/// Text buffer start register (25 registers, 50 characters).
pub const TEXT_BUFFER_START_REG: u16 = 65101;

pub const TEXT_BUFFER_COUNT: u16 = 25;

/// Info bitmask: 10 registers starting at 65060 (160 infos).
pub const INFO_BITMASK_START: u16 = 65060;

pub const INFO_BITMASK_COUNT: u16 = 10;

/// Alarm bitmask: 50 registers starting at 65010 (800 alarms).
pub const ALARM_BITMASK_START: u16 = 65010;

pub const ALARM_BITMASK_COUNT: u16 = 50;

/// The text buffer transfer reference of info `idx`.
pub fn info_ref(idx: u16) -> (r: u16)
    requires
        idx <= 0xffff - INFO_REF_OFFSET,
    ensures
        r == INFO_REF_OFFSET + idx,
{
    INFO_REF_OFFSET + idx
}

/// The info index a transfer reference stands for, if it is an info reference.
pub fn decode_info_ref(reference: u16) -> (r: Option<u16>)
    ensures
        reference >= INFO_REF_OFFSET ==> r == Some((reference - INFO_REF_OFFSET) as u16),
        reference < INFO_REF_OFFSET ==> r is None,
{
    reference.checked_sub(INFO_REF_OFFSET)
}

/// An info index survives the trip through its transfer reference.
pub proof fn info_ref_roundtrip(idx: u16)
    requires
        idx <= 0xffff - INFO_REF_OFFSET,
    ensures
        (INFO_REF_OFFSET + idx) as u16 >= INFO_REF_OFFSET,
        ((INFO_REF_OFFSET + idx) as u16 - INFO_REF_OFFSET) as u16 == idx,
{
}

/// Split the alarm/info count register: low byte alarms, high byte infos.
pub fn split_alarm_info_count(raw: u16) -> (r: (u8, u8))
    ensures
        r.0 == raw % 256,
        r.1 == raw / 256,
{
    ((raw % 256) as u8, (raw / 256) as u8)
}

// region: --- cache keys

/// Namespace of a first-seen key: alarms and infos may share a code value.
#[derive(Copy, Clone, Debug, PartialEq, Eq, Structural)]
pub enum AlarmKind {
    Alarm,
    Info,
}

pub open spec fn kind_prefix(kind: AlarmKind) -> char {
    match kind {
        AlarmKind::Alarm => 'A',
        AlarmKind::Info => 'I',
    }
}

pub open spec fn spec_cache_key(kind: AlarmKind, code: Seq<char>) -> Seq<char> {
    seq![kind_prefix(kind), ':'] + code
}

/// The decimal digits of `n`.
pub open spec fn spec_decimal(n: nat) -> Seq<char>
    decreases n,
{
    if n < 10 {
        seq![digit_char(n)]
    } else {
        spec_decimal(n / 10).push(digit_char(n % 10))
    }
}

pub open spec fn digit_char(d: nat) -> char {
    if d == 0 {
        '0'
    } else if d == 1 {
        '1'
    } else if d == 2 {
        '2'
    } else if d == 3 {
        '3'
    } else if d == 4 {
        '4'
    } else if d == 5 {
        '5'
    } else if d == 6 {
        '6'
    } else if d == 7 {
        '7'
    } else if d == 8 {
        '8'
    } else {
        '9'
    }
}

fn digit(d: u32) -> (c: char)
    requires
        d < 10,
    ensures
        c == digit_char(d as nat),
{
    if d == 0 {
        '0'
    } else if d == 1 {
        '1'
    } else if d == 2 {
        '2'
    } else if d == 3 {
        '3'
    } else if d == 4 {
        '4'
    } else if d == 5 {
        '5'
    } else if d == 6 {
        '6'
    } else if d == 7 {
        '7'
    } else if d == 8 {
        '8'
    } else {
        '9'
    }
}

/// The decimal digits of `n`.
pub fn decimal_chars(n: u32) -> (r: Vec<char>)
    ensures
        r@ == spec_decimal(n as nat),
    decreases n,
{
    if n < 10 {
        let mut v: Vec<char> = Vec::new();
        v.push(digit(n));
        assert(v@ =~= seq![digit_char(n as nat)]);
        v
    } else {
        let mut v = decimal_chars(n / 10);
        v.push(digit(n % 10));
        v
    }
}

impl AlarmKind {
    /// First-seen cache key for `code`: `A:<code>` or `I:<code>`.
    pub fn cache_key(self, code: &str) -> (r: String)
        ensures
            r@ == spec_cache_key(self, code@),
    {
        let mut chars: Vec<char> = Vec::new();
        match self {
            AlarmKind::Alarm => chars.push('A'),
            AlarmKind::Info => chars.push('I'),
        }
        chars.push(':');
        let code_chars = chars_of(code);
        let mut i: usize = 0;
        while i < code_chars.len()
            invariant
                i <= code_chars.len(),
                chars@ =~= seq![kind_prefix(self), ':'] + code_chars@.subrange(0, i as int),
            decreases code_chars.len() - i,
        {
            chars.push(code_chars[i]);
            i += 1;
        }
        assert(code_chars@.subrange(0, code_chars.len() as int) =~= code_chars@);
        string_from_chars(&chars)
    }

    /// First-seen cache key for a text without code, keyed by its reference number.
    pub fn cache_key_for_reference(self, reference: u16) -> (r: String)
        ensures
            r@ == spec_cache_key(self, spec_decimal(reference as nat)),
    {
        let digits = decimal_chars(reference as u32);
        let d = string_from_chars(&digits);
        self.cache_key(d.as_str())
    }
}

// endregion: --- cache keys

// region: --- translations

/// Value of the first table entry whose key equals `code`.
pub open spec fn spec_table_lookup(table: Seq<(&'static str, &'static str)>, code: Seq<char>) -> Option<Seq<char>>
    decreases table.len(),
{
    if table.len() == 0 {
        None
    } else if table[0].0@ == code {
        Some(table[0].1@)
    } else {
        spec_table_lookup(table.drop_first(), code)
    }
}

/// Look up `code` in a `(code, text)` table; no code gives no text.
pub fn lookup(code: Option<&str>, table: &Vec<(&'static str, &'static str)>) -> (r: Option<String>)
    ensures
        opt_text(r) == spec_lookup(code, table@),
{
    let c = match code {
        None => {
            return None;
        },
        Some(c) => c,
    };
    let mut i: usize = 0;
    assert(table@.subrange(0, table.len() as int) =~= table@);
    while i < table.len()
        invariant
            code == Some(c),
            i <= table.len(),
            spec_table_lookup(table@, c@) == spec_table_lookup(table@.subrange(i as int, table.len() as int), c@),
        decreases table.len() - i,
    {
        let ghost rest = table@.subrange(i as int, table.len() as int);
        assert(rest[0] == table@[i as int]);
        assert(rest.drop_first() =~= table@.subrange(i + 1, table.len() as int));
        if str_eq(table[i].0, c) {
            return Some(crate::text::owned(table[i].1));
        }
        i += 1;
    }
    None
}

pub open spec fn translations_table() -> Seq<(&'static str, &'static str)> {
    seq![("E040", "Low brine flow"), ("I017", "Smart: Blocking"), ("I019", "Smart: Low price")]
}

pub open spec fn descriptions_table() -> Seq<(&'static str, &'static str)> {
    seq![
        ("E040", "Insufficient brine flow - check circulation pump and pipes for blockage"),
        ("I017", "SmartGrid blocking mode - heating reduced due to grid signal or high prices"),
    ]
}

pub open spec fn descriptions_sv_table() -> Seq<(&'static str, &'static str)> {
    seq![
        ("E040", "Otillräckligt köldbärarflöde - kontrollera pump och rör"),
        ("I017", "SmartGrid blockeringsläge - värme reducerad pga nätsignal eller högt pris"),
    ]
}

/// What a table lookup returns: nothing without a code, else the entry's text.
pub open spec fn spec_lookup(code: Option<&str>, table: Seq<(&'static str, &'static str)>) -> Option<
    Seq<char>,
> {
    match code {
        None => None,
        Some(c) => spec_table_lookup(table, c@),
    }
}

pub open spec fn opt_text(r: Option<String>) -> Option<Seq<char>> {
    match r {
        Some(s) => Some(s@),
        None => None,
    }
}

/// English translations of alarm/info codes.
pub fn alarm_translations() -> (r: Vec<(&'static str, &'static str)>)
    ensures
        r@ == translations_table(),
{
    let v = vec![("E040", "Low brine flow"), ("I017", "Smart: Blocking"), ("I019", "Smart: Low price")];
    assert(v@ =~= translations_table());
    v
}

/// English descriptions of alarm/info codes.
pub fn alarm_descriptions() -> (r: Vec<(&'static str, &'static str)>)
    ensures
        r@ == descriptions_table(),
{
    let v = vec![
        ("E040", "Insufficient brine flow - check circulation pump and pipes for blockage"),
        ("I017", "SmartGrid blocking mode - heating reduced due to grid signal or high prices"),
    ];
    assert(v@ =~= descriptions_table());
    v
}

/// Swedish descriptions of alarm/info codes.
pub fn alarm_descriptions_sv() -> (r: Vec<(&'static str, &'static str)>)
    ensures
        r@ == descriptions_sv_table(),
{
    let v = vec![
        ("E040", "Otillräckligt köldbärarflöde - kontrollera pump och rör"),
        ("I017", "SmartGrid blockeringsläge - värme reducerad pga nätsignal eller högt pris"),
    ];
    assert(v@ =~= descriptions_sv_table());
    v
}

/// English translation of an alarm/info code.
pub fn lookup_translation(code: Option<&str>) -> (r: Option<String>)
    ensures
        opt_text(r) == spec_lookup(code, translations_table()),
{
    lookup(code, &alarm_translations())
}

/// English description of an alarm/info code.
pub fn lookup_description(code: Option<&str>) -> (r: Option<String>)
    ensures
        opt_text(r) == spec_lookup(code, descriptions_table()),
{
    lookup(code, &alarm_descriptions())
}

/// Swedish description of an alarm/info code.
pub fn lookup_description_sv(code: Option<&str>) -> (r: Option<String>)
    ensures
        opt_text(r) == spec_lookup(code, descriptions_sv_table()),
{
    lookup(code, &alarm_descriptions_sv())
}

// endregion: --- translations

// region: --- scan summary

/// Which bitmask reads a full alarm scan needs, given the counts.
pub fn bitmask_reads_needed(alarm_count: u8, info_count: u8) -> (r: (bool, bool))
    ensures
        r == (alarm_count > 0, info_count > 0),
{
    (alarm_count > 0, info_count > 0)
}

/// Result of a full alarm scan as reported to the client.
#[derive(Debug, Clone, Copy, PartialEq, Eq, Structural)]
pub struct AlarmSummary {
    /// Number of alarms returned (at most 255).
    pub alarm_count: u8,
    /// Number of infos returned (at most 255).
    pub info_count: u8,
    /// Some read failed, so the lists may be incomplete.
    pub partial: bool,
    /// Every read succeeded, so first-seen entries of inactive codes may be evicted.
    pub evict_inactive: bool,
}

pub open spec fn clamp_u8(n: nat) -> u8 {
    if n > 255 { 255 } else { n as u8 }
}

/// Summarise a scan: counts match the returned lists (clamped to `u8`), and
/// eviction of inactive codes is only allowed when nothing failed.
pub fn summarize_alarm_scan(
    alarm_bitmask_ok: bool,
    info_bitmask_ok: bool,
    all_text_fetches_ok: bool,
    alarms_returned: usize,
    infos_returned: usize,
) -> (r: AlarmSummary)
    ensures
        r.alarm_count == clamp_u8(alarms_returned as nat),
        r.info_count == clamp_u8(infos_returned as nat),
        r.evict_inactive == (alarm_bitmask_ok && info_bitmask_ok && all_text_fetches_ok),
        r.partial == !r.evict_inactive,
{
    let complete = alarm_bitmask_ok && info_bitmask_ok && all_text_fetches_ok;
    let alarm_count: u8 = if alarms_returned > 255 { 255 } else { alarms_returned as u8 };
    let info_count: u8 = if infos_returned > 255 { 255 } else { infos_returned as u8 };
    AlarmSummary { alarm_count, info_count, partial: !complete, evict_inactive: complete }
}

/// The answer to a scan whose count register reports no alarm and no
/// info: nothing to read, nothing partial, and every first-seen entry may
/// go, since nothing is active.
pub fn empty_scan(alarm_count: u8, info_count: u8) -> (r: Option<AlarmSummary>)
    ensures
        r is Some <==> (alarm_count == 0 && info_count == 0),
        r matches Some(s) ==> s == (AlarmSummary {
            alarm_count: 0,
            info_count: 0,
            partial: false,
            evict_inactive: true,
        }),
{
    if alarm_count == 0 && info_count == 0 {
        Some(AlarmSummary { alarm_count: 0, info_count: 0, partial: false, evict_inactive: true })
    } else {
        None
    }
}

/// Where the text of an active bitmask index is fetched, and the reference
/// the scan reports for it.
#[derive(Debug, Clone, Copy, PartialEq, Eq, Structural)]
pub struct ScanTarget {
    /// Reference written to the text buffer transfer register.
    pub transfer: u16,
    /// Reference reported to the client: the alarm or info number itself.
    pub reported: u16,
}

pub open spec fn spec_scan_target(kind: AlarmKind, number: u16) -> Option<ScanTarget> {
    match kind {
        AlarmKind::Alarm => Some(ScanTarget { transfer: number, reported: number }),
        AlarmKind::Info => if number <= 0xffff - INFO_REF_OFFSET {
            Some(ScanTarget { transfer: (INFO_REF_OFFSET + number) as u16, reported: number })
        } else {
            None
        },
    }
}

/// Alarm `number` is fetched and reported under its number; info `number`
/// is fetched under its transfer reference and reported under the info
/// number. `None` for an info number with no transfer reference.
pub fn scan_target(kind: AlarmKind, number: u16) -> (r: Option<ScanTarget>)
    ensures
        r == spec_scan_target(kind, number),
        r matches Some(t) ==> t.reported == number,
        kind == AlarmKind::Alarm ==> r == Some((ScanTarget { transfer: number, reported: number })),
        kind == AlarmKind::Info ==> (r is Some <==> number + INFO_REF_OFFSET <= 0xffff),
        kind == AlarmKind::Info && r is Some ==> r->0.transfer == number + INFO_REF_OFFSET,
{
    match kind {
        AlarmKind::Alarm => Some(ScanTarget { transfer: number, reported: number }),
        AlarmKind::Info => if number <= 0xffff - INFO_REF_OFFSET {
            Some(ScanTarget { transfer: info_ref(number), reported: number })
        } else {
            None
        },
    }
}

/// Every active entry is reported under its own number: an alarm is also
/// fetched under its number, an info under its number plus the info offset,
/// so decoding the fetched reference as an info reference gives back the
/// reported info number. Only an info number whose transfer reference would
/// not fit a register has no target.
pub proof fn scan_reports_entry_number(kind: AlarmKind, number: u16)
    ensures
        spec_scan_target(kind, number) matches Some(t) ==> t.reported == number,
        kind == AlarmKind::Alarm ==> spec_scan_target(kind, number) == Some(
            (ScanTarget { transfer: number, reported: number }),
        ),
        kind == AlarmKind::Info ==> (spec_scan_target(kind, number) is Some <==> number
            + INFO_REF_OFFSET <= 0xffff),
        kind == AlarmKind::Info && spec_scan_target(kind, number) is Some ==> {
            let t = spec_scan_target(kind, number)->0;
            &&& t.transfer == number + INFO_REF_OFFSET
            &&& t.transfer >= INFO_REF_OFFSET
            &&& t.transfer - INFO_REF_OFFSET == t.reported
        },
{
}

/// First-seen key of an active entry: its code when the text carries one,
/// else its number, in the namespace of its kind.
pub open spec fn spec_scan_entry_key(kind: AlarmKind, number: u16, code: Option<Seq<char>>) -> Seq<
    char,
> {
    match code {
        Some(c) => spec_cache_key(kind, c),
        None => spec_cache_key(kind, spec_decimal(number as nat)),
    }
}

/// The first-seen key under which active entry `number` of `kind`, whose
/// text carries `code`, is tracked.
pub fn scan_entry_key(kind: AlarmKind, number: u16, code: &Option<String>) -> (r: String)
    ensures
        r@ == spec_scan_entry_key(kind, number, opt_string_view(*code)),
{
    match code {
        Some(c) => kind.cache_key(c.as_str()),
        None => kind.cache_key_for_reference(number),
    }
}

// endregion: --- scan summary

} // verus!
