use locale_skeleton::{DataSource, ICU4XLocale, LoadError, MyError};

fn builtin_dmy(code: &str) -> Result<String, MyError> {
    let loc = ICU4XLocale::parse_gregorian(&code.as_bytes().to_vec())?;
    loc.get_date_skeleton_for_key("dMy")
}

#[test]
fn english_us_puts_month_first() {
    assert_eq!(builtin_dmy("en_US").unwrap(), "M/d/y");
}

#[test]
fn english_gb_reduces_wide_fields_day_first() {
    // The pattern is dd/MM/y; the reduction erases the widths.
    assert_eq!(builtin_dmy("en_GB").unwrap(), "d/M/y");
}

#[test]
fn german_uses_dots_day_first() {
    assert_eq!(builtin_dmy("de_DE").unwrap(), "d.M.y");
}

#[test]
fn french_day_first_with_slashes() {
    assert_eq!(builtin_dmy("fr_FR").unwrap(), "d/M/y");
}

#[test]
fn japanese_puts_year_first() {
    assert_eq!(builtin_dmy("ja_JP").unwrap(), "y/M/d");
}

#[test]
fn korean_year_first_with_dots() {
    assert_eq!(builtin_dmy("ko_KR").unwrap(), "y. M. d.");
}

#[test]
fn exactly_one_of_each_letter_on_dmy() {
    for code in ["en", "de", "fr", "ja", "ko", "ar", "th", "zh"] {
        let out = builtin_dmy(code).unwrap();
        for letter in ['d', 'M', 'y'] {
            assert_eq!(out.chars().filter(|c| *c == letter).count(), 1, "{code}: {out}");
        }
    }
}

#[test]
fn repeated_calls_are_identical() {
    let first = builtin_dmy("de").unwrap();
    let second = builtin_dmy("de").unwrap();
    assert_eq!(first, second);
}

#[test]
fn key_symbol_order_does_not_matter() {
    let a = builtin_dmy("en").unwrap();
    let loc = ICU4XLocale::parse_gregorian(&b"en".to_vec()).unwrap();
    let b = loc.get_date_skeleton_for_key("yMd").unwrap();
    let c = loc.get_date_skeleton_for_key("Mdy").unwrap();
    assert_eq!(a, b);
    assert_eq!(a, c);
}

#[test]
fn chinese_regional_variants_resolve() {
    // Hong Kong Chinese carries its own entry with a different day-first
    // order; Taiwan Chinese reaches the parent data through fallback.
    assert_eq!(builtin_dmy("zh_HK").unwrap(), "d/M/y");
    assert_eq!(builtin_dmy("zh_TW").unwrap(), "y/M/d");
    assert_eq!(builtin_dmy("zh").unwrap(), "y/M/d");
}

#[test]
fn nonexistent_language_reports_missing_locale() {
    assert_eq!(builtin_dmy("xx_YY"), Err(MyError::MissingLocale));
}

#[test]
fn malformed_locale_code_reports_parse_failure() {
    assert_eq!(builtin_dmy("!!"), Err(MyError::ParseFailure));
}

#[test]
fn unknown_key_symbol_reports_invalid_key() {
    let loc = ICU4XLocale::parse_gregorian(&b"en".to_vec()).unwrap();
    assert_eq!(loc.get_date_skeleton_for_key("d!"), Err(MyError::InvalidKey));
}

#[test]
fn time_skeleton_drops_time_fields() {
    let loc = ICU4XLocale::parse_gregorian(&b"en".to_vec()).unwrap();
    let out = loc.get_time_skeleton_for_key("Hm").unwrap();
    assert!(!out.contains('H'));
    assert!(!out.contains('m'));
}

#[test]
fn garbage_bytes_are_not_a_blob() {
    let blob = vec![0u8, 1, 2, 3, 4, 5, 6, 7];
    assert!(matches!(DataSource::load(&blob), Err(LoadError::BlobMalformed)));
}

#[test]
fn absent_skeleton_reports_missing_entry() {
    let loc = ICU4XLocale::parse_gregorian(&b"en".to_vec()).unwrap();
    assert_eq!(loc.get_date_skeleton_for_key("ss"), Err(MyError::MissingSkeletonEntry));
}

#[test]
fn unknown_symbol_dropped_literals_kept_in_real_pattern() {
    // The English week-of-month pattern is "'week' W 'of' MMMM": the
    // week-number field has no reduced letter and is dropped, while the
    // words and spaces around it pass through verbatim.
    let loc = ICU4XLocale::parse_gregorian(&b"en".to_vec()).unwrap();
    assert_eq!(loc.get_date_skeleton_for_key("MMMMW").unwrap(), "week  of M");
}

#[test]
fn data_payload_pair_loads_for_known_locale() {
    let loc = ICU4XLocale::parse_gregorian(&b"fr".to_vec()).unwrap();
    assert!(loc.get_data_payload().is_ok());
    let missing = ICU4XLocale::parse_gregorian(&b"xx_YY".to_vec()).unwrap();
    assert_eq!(missing.get_data_payload().map(|_| ()), Err(MyError::MissingLocale));
}

#[test]
fn overlong_key_is_rejected_without_reaching_the_parser() {
    // A run of 256 equal symbols would overflow the key parser's one-byte
    // run counter; the resolver rejects any key that long itself.
    let loc = ICU4XLocale::parse_gregorian(&b"en".to_vec()).unwrap();
    let long_key = "d".repeat(300);
    assert_eq!(loc.get_date_skeleton_for_key(&long_key), Err(MyError::InvalidKey));
}

#[test]
fn data_payload_skeletons_match_the_resolver() {
    // The skeleton payload handed back is the catalog the resolver
    // consults; both must agree on the locale's dMy entry existing.
    let loc = ICU4XLocale::parse_gregorian(&b"de".to_vec()).unwrap();
    assert!(loc.get_data_payload().is_ok());
    assert!(loc.get_date_skeleton_for_key("dMy").is_ok());
}
