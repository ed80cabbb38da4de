use locale_skeleton::{gregorian_tag_bytes, reduce_pattern, FieldKind, PatternPiece};

#[test]
fn reduces_day_month_year_with_separators() {
    let items = vec![
        PatternPiece::Field(FieldKind::Day),
        PatternPiece::Literal('/'),
        PatternPiece::Field(FieldKind::Month),
        PatternPiece::Literal('/'),
        PatternPiece::Field(FieldKind::Year),
    ];
    assert_eq!(reduce_pattern(&items), "d/M/y");
}

#[test]
fn drops_unknown_fields_and_keeps_literals_verbatim() {
    let items = vec![
        PatternPiece::Field(FieldKind::Other),
        PatternPiece::Literal('['),
        PatternPiece::Field(FieldKind::Day),
        PatternPiece::Field(FieldKind::Other),
        PatternPiece::Literal(']'),
        PatternPiece::Field(FieldKind::Other),
    ];
    assert_eq!(reduce_pattern(&items), "[d]");
}

#[test]
fn keeps_literal_run_in_order() {
    let items = vec![
        PatternPiece::Field(FieldKind::Year),
        PatternPiece::Literal('.'),
        PatternPiece::Literal(' '),
        PatternPiece::Field(FieldKind::Month),
        PatternPiece::Literal('.'),
        PatternPiece::Literal(' '),
        PatternPiece::Field(FieldKind::Day),
        PatternPiece::Literal('.'),
    ];
    assert_eq!(reduce_pattern(&items), "y. M. d.");
}

#[test]
fn keeps_non_ascii_literals() {
    let items = vec![
        PatternPiece::Field(FieldKind::Year),
        PatternPiece::Literal('年'),
        PatternPiece::Field(FieldKind::Month),
        PatternPiece::Literal('月'),
        PatternPiece::Field(FieldKind::Day),
        PatternPiece::Literal('日'),
    ];
    assert_eq!(reduce_pattern(&items), "y年M月d日");
}

#[test]
fn empty_pattern_reduces_to_empty_string() {
    let items: Vec<PatternPiece> = Vec::new();
    assert_eq!(reduce_pattern(&items), "");
}

#[test]
fn canonicalizes_underscore_and_pins_gregorian() {
    let tag = gregorian_tag_bytes(&b"en_US".to_vec());
    assert_eq!(tag, b"en-US-u-ca-gregory".to_vec());
}

#[test]
fn bare_language_code_only_gains_the_suffix() {
    let tag = gregorian_tag_bytes(&b"zh".to_vec());
    assert_eq!(tag, b"zh-u-ca-gregory".to_vec());
}
