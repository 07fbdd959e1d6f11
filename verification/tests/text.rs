use worm::text::classify;
use worm::text::collect_chars;
use worm::text::signed_decimal;
use worm::text::string_of;
use worm::text::same_text;
use worm::text::unsigned_decimal;

#[test]
fn decimal_forms() {
    assert_eq!(unsigned_decimal(0), "0");
    assert_eq!(unsigned_decimal(9), "9");
    assert_eq!(unsigned_decimal(10), "10");
    assert_eq!(unsigned_decimal(1_234_567_890), "1234567890");
    assert_eq!(unsigned_decimal(u128::MAX), "340282366920938463463374607431768211455");
    assert_eq!(signed_decimal(0), "0");
    assert_eq!(signed_decimal(-1), "-1");
    assert_eq!(signed_decimal(105), "105");
    assert_eq!(signed_decimal(i128::MIN), "-170141183460469231731687303715884105728");
    assert_eq!(signed_decimal(i128::MAX), "170141183460469231731687303715884105727");
}

#[test]
fn characters_of_a_string() {
    assert_eq!(collect_chars("a$ß"), vec!['a', '$', 'ß']);
    assert_eq!(collect_chars(""), Vec::<char>::new());
    assert!(same_text("aß", "aß"));
    assert!(!same_text("aß", "as"));
    assert!(!same_text("a", ""));
}

#[test]
fn letters_among_characters() {
    assert_eq!(classify(&vec!['a', '$', 'ß', '1', ' ', 'Z', '_']), vec![true, false, true, false, false, true, false]);
    assert_eq!(classify(&vec![]), Vec::<bool>::new());
    assert_eq!(string_of(&vec!['a', '$', 'ß']), "a$ß");
    assert_eq!(string_of(&vec![]), "");
}
