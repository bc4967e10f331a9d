use ctc_server::messages::{cached_text_from_buffer, decode_text_buffer, parse_alarm_text, scan_bitmask, AlarmTextCache, FirstSeenTable};
use ctc_server::routes::alarms::{
    bitmask_reads_needed, decode_info_ref, info_ref, lookup_description, lookup_description_sv,
    lookup_translation, split_alarm_info_count, summarize_alarm_scan, AlarmKind,
};

#[test]
fn test_decode_text_buffer() {
    let registers = vec![0x455B, 0x3430, 0x5D30, 0x4C20, 0x776F];
    let decoded = decode_text_buffer(&registers);
    assert_eq!(decoded, "[E040] Low");
}

#[test]
fn test_decode_text_buffer_with_nulls() {
    let registers = vec![0x4554, 0x5453, 0x0000, 0x0000];
    let decoded = decode_text_buffer(&registers);
    assert_eq!(decoded, "TEST");
}

#[test]
fn decode_stops_at_first_nul_even_in_high_byte() {
    // 'A' then NUL in the high byte: only "A".
    assert_eq!(decode_text_buffer(&[0x0041, 0x4242]), "A");
    assert_eq!(decode_text_buffer(&[]), "");
}

#[test]
fn test_parse_alarm_text_with_code() {
    let (code, message) = parse_alarm_text("[E040] Low brine flow");
    assert_eq!(code, Some("E040".to_string()));
    assert_eq!(message, "Low brine flow");
}

#[test]
fn test_parse_alarm_text_without_code() {
    let (code, message) = parse_alarm_text("Some message without code");
    assert_eq!(code, None);
    assert_eq!(message, "Some message without code");
}

#[test]
fn test_alarm_translations() {
    assert_eq!(lookup_translation(Some("E040")), Some("Low brine flow".to_string()));
    assert_eq!(lookup_translation(Some("I019")), Some("Smart: Low price".to_string()));
    assert_eq!(lookup_translation(Some("XXXX")), None);
    assert_eq!(lookup_translation(None), None);
}

#[test]
fn test_alarm_descriptions() {
    assert_eq!(
        lookup_description(Some("I017")),
        Some("SmartGrid blocking mode - heating reduced due to grid signal or high prices".to_string())
    );
    assert_eq!(
        lookup_description(Some("E040")),
        Some("Insufficient brine flow - check circulation pump and pipes for blockage".to_string())
    );
    assert_eq!(lookup_description(Some("XXXX")), None);
}

#[test]
fn test_alarm_descriptions_sv() {
    assert_eq!(
        lookup_description_sv(Some("I017")),
        Some("SmartGrid blockeringsläge - värme reducerad pga nätsignal eller högt pris".to_string())
    );
    assert_eq!(
        lookup_description_sv(Some("E040")),
        Some("Otillräckligt köldbärarflöde - kontrollera pump och rör".to_string())
    );
    assert_eq!(lookup_description_sv(Some("XXXX")), None);
}

#[test]
fn test_scan_bitmask_empty() {
    let registers = vec![0x0000, 0x0000];
    let active = scan_bitmask(&registers);
    assert!(active.is_empty());
}

#[test]
fn test_scan_bitmask_single_bit() {
    let registers = vec![0x4000, 0x0000];
    let active = scan_bitmask(&registers);
    assert_eq!(active, vec![14]);
}

#[test]
fn test_scan_bitmask_multiple_bits() {
    let registers = vec![0x4021, 0x0000];
    let active = scan_bitmask(&registers);
    assert_eq!(active, vec![0, 5, 14]);
}

#[test]
fn test_scan_bitmask_across_registers() {
    let registers = vec![0x4000, 0x0001];
    let active = scan_bitmask(&registers);
    assert_eq!(active, vec![14, 16]);
}

#[test]
fn scan_bitmask_reports_top_bit_of_last_register() {
    assert_eq!(scan_bitmask(&[0x0000, 0x8000]), vec![31]);
}

#[test]
fn cached_text_splits_code_and_message() {
    let t = cached_text_from_buffer(&[0x455B, 0x3430, 0x5D30, 0x4C20, 0x776F]);
    assert_eq!(t.raw_text, "[E040] Low");
    assert_eq!(t.code, Some("E040".to_string()));
    assert_eq!(t.message, "Low");
}

#[test]
fn text_cache_returns_what_was_inserted() {
    let mut cache = AlarmTextCache::new();
    assert!(cache.get(40).is_none());
    let t = cached_text_from_buffer(&[0x4554, 0x5453]);
    cache.insert(40, t);
    let got = cache.get(40).expect("inserted text");
    assert_eq!(got.raw_text, "TEST");
    assert!(cache.get(41).is_none());
}

#[test]
fn info_references_round_trip() {
    assert_eq!(info_ref(17), 10017);
    assert_eq!(decode_info_ref(10017), Some(17));
    assert_eq!(decode_info_ref(40), None);
}

#[test]
fn count_register_splits_alarms_low_infos_high() {
    assert_eq!(split_alarm_info_count(0x0302), (2, 3));
    assert_eq!(bitmask_reads_needed(0, 3), (false, true));
}

#[test]
fn cache_keys_are_namespaced() {
    assert_eq!(AlarmKind::Alarm.cache_key("E040"), "A:E040");
    assert_eq!(AlarmKind::Info.cache_key("I017"), "I:I017");
    assert_eq!(AlarmKind::Info.cache_key_for_reference(10017), "I:10017");
    assert_eq!(AlarmKind::Alarm.cache_key_for_reference(0), "A:0");
}

#[test]
fn scan_summary_is_partial_on_any_failure() {
    let s = summarize_alarm_scan(true, true, true, 2, 300);
    assert_eq!(s.alarm_count, 2);
    assert_eq!(s.info_count, 255);
    assert!(!s.partial);
    assert!(s.evict_inactive);
    let p = summarize_alarm_scan(true, false, true, 1, 0);
    assert!(p.partial);
    assert!(!p.evict_inactive);
}

#[test]
fn first_seen_keeps_earliest_time_and_evicts_inactive() {
    let mut t = FirstSeenTable::new();
    assert_eq!(t.record_first_seen("A:E040", 100), 100);
    assert_eq!(t.record_first_seen("A:E040", 200), 100);
    assert_eq!(t.record_first_seen("I:I017", 300), 300);
    t.retain_active(&vec!["I:I017".to_string()]);
    assert_eq!(t.record_first_seen("I:I017", 400), 300);
    assert_eq!(t.record_first_seen("A:E040", 500), 500);
    t.retain_active(&Vec::new());
    assert!(t.entries.is_empty());
}
