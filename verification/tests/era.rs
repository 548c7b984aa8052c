use wareki::digits::{digit_str, digit_value, two_digit_value, two_digits};
use wareki::{Era, ErrorKind};

#[test]
fn era_table() {
    let rows = [
        (Era::Meiji, 'M', '1', 1867, Some(45), "Meiji", "M"),
        (Era::Taisho, 'T', '2', 1911, Some(15), "Taisho", "T"),
        (Era::Showa, 'S', '3', 1925, Some(64), "Showa", "S"),
        (Era::Heisei, 'H', '4', 1988, Some(31), "Heisei", "H"),
        (Era::Reiwa, 'R', '5', 2018, None, "Reiwa", "R"),
    ];
    for (era, letter, digit, offset, max, name, letter_str) in rows {
        let definition = era.definition();
        assert_eq!(definition.era, era);
        assert_eq!(definition.letter, letter);
        assert_eq!(definition.digit, digit);
        assert_eq!(definition.year_offset, offset);
        assert_eq!(definition.max_year, max);
        assert_eq!(era.name(), name);
        assert_eq!(era.letter_str(), letter_str);
        assert_eq!(Era::from_prefix(letter), Some(era));
        assert_eq!(Era::from_prefix(digit), Some(era));
        assert!(definition.has_prefix(letter));
        assert!(definition.has_prefix(digit));
    }
}

#[test]
fn from_prefix_knows_ten_prefixes() {
    let known: Vec<char> = "MTSHR12345".chars().collect();
    for code in 0u32..0x250 {
        let c = char::from_u32(code).unwrap();
        assert_eq!(Era::from_prefix(c).is_some(), known.contains(&c), "{c:?}");
    }
    assert_eq!(Era::from_prefix('m'), None);
    assert_eq!(Era::from_prefix('0'), None);
    assert_eq!(Era::from_prefix('6'), None);
    assert_eq!(Era::from_prefix('\u{ff2d}'), None);
}

#[test]
fn has_prefix_is_per_era() {
    assert!(!Era::Meiji.definition().has_prefix('T'));
    assert!(!Era::Meiji.definition().has_prefix('2'));
    assert!(!Era::Reiwa.definition().has_prefix('M'));
    assert!(!Era::Reiwa.definition().has_prefix('r'));
}

#[test]
fn exceeds_max() {
    assert!(!Era::Meiji.definition().exceeds_max(45));
    assert!(Era::Meiji.definition().exceeds_max(46));
    assert!(!Era::Taisho.definition().exceeds_max(15));
    assert!(Era::Taisho.definition().exceeds_max(16));
    assert!(!Era::Showa.definition().exceeds_max(64));
    assert!(Era::Showa.definition().exceeds_max(65));
    assert!(!Era::Heisei.definition().exceeds_max(31));
    assert!(Era::Heisei.definition().exceeds_max(32));
    assert!(!Era::Reiwa.definition().exceeds_max(99));
    assert!(!Era::Reiwa.definition().exceeds_max(i32::MAX));
}

#[test]
fn messages() {
    assert_eq!(ErrorKind::InvalidLength.message(), "`wareki` must have 3 characters.");
    assert_eq!(ErrorKind::InvalidYear.message(), "Year must be two digits.");
    assert_eq!(ErrorKind::YearTooLow.message(), "Year is more than 1.");
    assert_eq!(ErrorKind::UnknownEra.message(), "Unknown era.");
    assert_eq!(ErrorKind::EraYearOutOfRange(Era::Meiji).message(), "Meiji until 45.");
    assert_eq!(ErrorKind::EraYearOutOfRange(Era::Taisho).message(), "Taisho until 15.");
    assert_eq!(ErrorKind::EraYearOutOfRange(Era::Showa).message(), "Showa until 64.");
    assert_eq!(ErrorKind::EraYearOutOfRange(Era::Heisei).message(), "Heisei until 31.");
    assert_eq!(ErrorKind::EraYearOutOfRange(Era::Reiwa).message(), "Reiwa has no last year.");
}

#[test]
fn messages_differ() {
    let kinds = [
        ErrorKind::InvalidLength,
        ErrorKind::InvalidYear,
        ErrorKind::YearTooLow,
        ErrorKind::UnknownEra,
        ErrorKind::EraYearOutOfRange(Era::Meiji),
        ErrorKind::EraYearOutOfRange(Era::Taisho),
        ErrorKind::EraYearOutOfRange(Era::Showa),
        ErrorKind::EraYearOutOfRange(Era::Heisei),
        ErrorKind::EraYearOutOfRange(Era::Reiwa),
    ];
    for a in kinds {
        for b in kinds {
            assert_eq!(a.message() == b.message(), a == b);
        }
    }
}

#[test]
fn digit_values() {
    let digits: Vec<char> = "0123456789".chars().collect();
    for (value, &c) in digits.iter().enumerate() {
        assert_eq!(digit_value(c), Some(value as i32));
        assert_eq!(digit_str(value as i32), c.to_string());
    }
    for c in ['/', ':', 'a', ' ', '+', '-', '\u{ff11}', '\u{661}'] {
        assert_eq!(digit_value(c), None);
    }
}

#[test]
fn two_digit_values() {
    assert_eq!(two_digit_value('0', '0'), Some(0));
    assert_eq!(two_digit_value('0', '7'), Some(7));
    assert_eq!(two_digit_value('7', '0'), Some(70));
    assert_eq!(two_digit_value('4', '5'), Some(45));
    assert_eq!(two_digit_value('9', '9'), Some(99));
    assert_eq!(two_digit_value('+', '5'), None);
    assert_eq!(two_digit_value('5', ' '), None);
    assert_eq!(two_digit_value('a', 'b'), None);
}

#[test]
fn two_digits_are_read_back() {
    assert_eq!(two_digits(0), "00");
    assert_eq!(two_digits(7), "07");
    assert_eq!(two_digits(45), "45");
    assert_eq!(two_digits(99), "99");
    for n in 0..=99 {
        let text = two_digits(n);
        let chars: Vec<char> = text.chars().collect();
        assert_eq!(chars.len(), 2);
        assert_eq!(two_digit_value(chars[0], chars[1]), Some(n));
    }
}
