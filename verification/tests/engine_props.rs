use kanaria::codec::{combine, split, unit_is_high_surrogate, unit_is_low_surrogate};
use kanaria::engine::apply;
use kanaria::ConvertType;
use kanaria::UCSStr;
use kanaria::WidthUtils;

#[test]
fn fusion_base_and_mark_to_wide() {
    // The two-unit halfwidth sequence KA + voiced mark fuses into one unit.
    let source: Vec<u16> = vec![0xFF76, 0xFF9E];
    assert_eq!(apply(&source, ConvertType::Wide), vec![0x30AC]);
    let (result, consumed) = WidthUtils::convert_to_wide('ｶ', 'ﾞ');
    assert_eq!(result, 'ガ');
    assert!(consumed);
}

#[test]
fn fusion_wide_to_base_and_mark() {
    // The voiced fullwidth kana splits into exactly base plus mark.
    let source: Vec<u16> = vec![0x30AC];
    assert_eq!(apply(&source, ConvertType::Narrow), vec![0xFF76, 0xFF9E]);
    let (first, second) = WidthUtils::convert_to_narrow('ガ');
    assert_eq!(first, 'ｶ');
    assert_eq!(second, 'ﾞ');
}

#[test]
fn no_fusion_without_voicing_mark() {
    // KA followed by anything but U+FF9E/FF9F converts independently.
    let source: Vec<u16> = vec![0xFF76, 0xFF71];
    assert_eq!(apply(&source, ConvertType::Wide), vec![0x30AB, 0x30A2]);
    let (result, consumed) = WidthUtils::convert_to_wide('ｶ', 'ｱ');
    assert_eq!(result, 'カ');
    assert!(!consumed);
    // A trailing base with no lookahead converts alone as well.
    let last: Vec<u16> = vec![0xFF76];
    assert_eq!(apply(&last, ConvertType::Wide), vec![0x30AB]);
}

#[test]
fn lone_voicing_mark_maps_to_combining_mark() {
    let source: Vec<u16> = vec![0xFF9E];
    assert_eq!(apply(&source, ConvertType::Wide), vec![0x3099]);
    assert_eq!(apply(&vec![0x3099u16], ConvertType::Narrow), vec![0xFF9E]);
}

#[test]
fn surrogate_pair_passes_through_every_operation() {
    // One pictographic character, as its surrogate pair.
    let cat: Vec<u16> = vec![0xD83D, 0xDE3A];
    let ops = vec![
        ConvertType::UpperCase,
        ConvertType::LowerCase,
        ConvertType::Hiragana,
        ConvertType::Katakana,
        ConvertType::Narrow,
        ConvertType::Wide,
        ConvertType::Identity,
    ];
    for op in ops {
        assert_eq!(apply(&cat, op), cat);
    }
    assert_eq!(UCSStr::from_str("😺").katakana().narrow().to_string(), "😺".to_string());
}

#[test]
fn identity_returns_input_unchanged() {
    let source: Vec<u16> = vec![0x0061, 0x3042, 0x30AC, 0xD83D, 0xDE3A];
    assert_eq!(apply(&source, ConvertType::Identity), source);
    assert_eq!(UCSStr::from_str("吾輩は😺猫である😺").none().to_string(), "吾輩は😺猫である😺".to_string());
}

#[test]
fn case_conversion_maps_ascii_letters_only() {
    assert_eq!(UCSStr::from_str("abc").upper_case().to_string(), "ABC".to_string());
    assert_eq!(UCSStr::from_str("ABC").lower_case().to_string(), "abc".to_string());
    // Digits, punctuation and non-ASCII units pass through both operations.
    assert_eq!(UCSStr::from_str("1!あア　").upper_case().to_string(), "1!あア　".to_string());
    assert_eq!(UCSStr::from_str("1!あア　").lower_case().to_string(), "1!あア　".to_string());
}

#[test]
fn script_round_trip_restores_text() {
    let hiragana = "ちたたぷ　とてとて ok!";
    let through = UCSStr::from_str(hiragana).katakana().hiragana().to_string();
    assert_eq!(through, hiragana.to_string());
    let katakana = "チタタプ　ートテトテ";
    let back = UCSStr::from_str(katakana).hiragana().katakana().to_string();
    assert_eq!(back, katakana.to_string());
    // The prolonged sound mark is invariant under both directions.
    assert_eq!(UCSStr::from_str("ー").hiragana().to_string(), "ー".to_string());
    assert_eq!(UCSStr::from_str("ー").katakana().to_string(), "ー".to_string());
}

#[test]
fn width_round_trip_restores_text() {
    // Mappable halfwidth forms, voiced pairs among them.
    let hankaku = "ﾁﾀﾀﾌﾟ ﾄﾃﾄﾃ ｶﾞｷﾞ abc!";
    let through = UCSStr::from_str(hankaku).wide().narrow().to_string();
    assert_eq!(through, hankaku.to_string());
    // Mappable fullwidth forms, voiced kana among them.
    let zenkaku = "チタタプ　トテトテ　ガパ！ＡＢ";
    let back = UCSStr::from_str(zenkaku).narrow().wide().to_string();
    assert_eq!(back, zenkaku.to_string());
}

#[test]
fn chained_pipeline_matches_direct_composition() {
    // A hiragana syllable with a semi-voiced consonant, katakana then narrow.
    let chained = UCSStr::from_str("ぷ").katakana().narrow().to_vec();
    assert_eq!(chained, vec![0xFF8C, 0xFF9F]);
    let katakana = UCSStr::from_str("ぷ").katakana().to_string();
    let direct = UCSStr::from_str(katakana.as_str()).narrow().to_vec();
    assert_eq!(chained, direct);
}

#[test]
fn mixed_script_sentence() {
    let source = "吾輩は😺猫である😺";
    assert_eq!(UCSStr::from_str(source).katakana().to_string(), "吾輩ハ😺猫デアル😺".to_string());
    assert_eq!(UCSStr::from_str(source).katakana().narrow().to_string(), "吾輩ﾊ😺猫ﾃﾞｱﾙ😺".to_string());
}

#[test]
fn from_slice_copies_the_source() {
    let source: Vec<u16> = vec![0x3042, 0x3044];
    let result = UCSStr::from_slice(source.as_slice()).katakana().to_vec();
    assert_eq!(result, vec![0x30A2, 0x30A4]);
    // The source buffer is untouched.
    assert_eq!(source, vec![0x3042, 0x3044]);
}

#[test]
fn from_str_encodes_utf16_units() {
    let units = UCSStr::from_str("a あ😺").to_vec();
    assert_eq!(units, vec![0x0061, 0x0020, 0x3042, 0xD83D, 0xDE3A]);
}

#[test]
fn to_string_decodes_utf16_units() {
    let s = UCSStr::from_slice(&[0x0061, 0x3042, 0xD83D, 0xDE3A]).to_string();
    assert_eq!(s, "aあ😺".to_string());
    // An unpaired surrogate decodes to the replacement character.
    let lone = UCSStr::from_slice(&[0xD83D]).to_string();
    assert_eq!(lone, "\u{FFFD}".to_string());
}

#[test]
fn empty_input_stays_empty() {
    assert_eq!(UCSStr::from_str("").wide().narrow().katakana().to_string(), String::new());
    assert_eq!(apply(&Vec::new(), ConvertType::Wide), Vec::<u16>::new());
}

#[test]
fn combine_and_split_surrogate_pairs() {
    assert_eq!(combine(0xD83D, 0xDE3A), 0x1F63A);
    assert_eq!(split(0x1F63A), (0xD83D, 0xDE3A));
    // A scalar inside the Basic Multilingual Plane pairs with the sentinel.
    assert_eq!(split(0x3042), (0x3042, 0x0000));
    // The predicates that establish a pair's validity before combining.
    assert!(unit_is_high_surrogate(0xD83D) && !unit_is_low_surrogate(0xD83D));
    assert!(unit_is_low_surrogate(0xDE3A) && !unit_is_high_surrogate(0xDE3A));
    assert!(!unit_is_high_surrogate(0x3042) && !unit_is_low_surrogate(0x3042));
}
