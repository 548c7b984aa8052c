use wareki::{convert, Era, ErrorKind};

const LETTERS: [char; 5] = ['M', 'T', 'S', 'H', 'R'];
const DIGITS: [char; 5] = ['1', '2', '3', '4', '5'];

#[test]
fn each_error_kind() {
    assert_eq!(convert("M100"), Err(ErrorKind::InvalidLength));
    assert_eq!(convert("Mxx"), Err(ErrorKind::InvalidYear));
    assert_eq!(convert("M00"), Err(ErrorKind::YearTooLow));
    assert_eq!(convert("A01"), Err(ErrorKind::UnknownEra));
    assert_eq!(convert("M46"), Err(ErrorKind::EraYearOutOfRange(Era::Meiji)));
    assert_eq!(convert("T16"), Err(ErrorKind::EraYearOutOfRange(Era::Taisho)));
    assert_eq!(convert("S65"), Err(ErrorKind::EraYearOutOfRange(Era::Showa)));
    assert_eq!(convert("H32"), Err(ErrorKind::EraYearOutOfRange(Era::Heisei)));
}

#[test]
fn wrong_lengths_fail_whatever_they_hold() {
    for code in ["", "M", "1", "M1", "01", "M100", "M001", "M0001", "ABCDE", "\u{e9}", "\u{e9}\u{e9}"] {
        assert_eq!(convert(code), Err(ErrorKind::InvalidLength), "{code:?}");
    }
}

#[test]
fn checks_are_made_in_order() {
    // Digits before the lower bound and the prefix.
    assert_eq!(convert("A0x"), Err(ErrorKind::InvalidYear));
    assert_eq!(convert("Ax0"), Err(ErrorKind::InvalidYear));
    // The lower bound before the prefix.
    assert_eq!(convert("A00"), Err(ErrorKind::YearTooLow));
    assert_eq!(convert("000"), Err(ErrorKind::YearTooLow));
    // The prefix before the upper bound.
    assert_eq!(convert("A99"), Err(ErrorKind::UnknownEra));
}

#[test]
fn letter_and_digit_prefix_agree_everywhere() {
    let tail: Vec<char> = "0123456789ax+ ".chars().collect();
    for era in 0..5 {
        for &tens in &tail {
            for &ones in &tail {
                let by_letter: String = [LETTERS[era], tens, ones].iter().collect();
                let by_digit: String = [DIGITS[era], tens, ones].iter().collect();
                assert_eq!(convert(&by_letter), convert(&by_digit), "{by_letter} {by_digit}");
            }
        }
    }
}

#[test]
fn every_year_of_every_era() {
    let offsets = [1867, 1911, 1925, 1988, 2018];
    let last = [Some(45), Some(15), Some(64), Some(31), None];
    let eras = [Era::Meiji, Era::Taisho, Era::Showa, Era::Heisei, Era::Reiwa];
    for era in 0..5 {
        for era_year in 1..=99 {
            let code = format!("{}{:02}", LETTERS[era], era_year);
            let expected = match last[era] {
                Some(max) if era_year > max => Err(ErrorKind::EraYearOutOfRange(eras[era])),
                _ => Ok(offsets[era] + era_year),
            };
            assert_eq!(convert(&code), expected, "{code}");
        }
    }
}

#[test]
fn era_boundaries() {
    assert_eq!(convert("M01"), Ok(1868));
    assert_eq!(convert("M45"), Ok(1912));
    assert_eq!(convert("T01"), Ok(1912));
    assert_eq!(convert("T15"), Ok(1926));
    assert_eq!(convert("S01"), Ok(1926));
    assert_eq!(convert("S64"), Ok(1989));
    assert_eq!(convert("H01"), Ok(1989));
    assert_eq!(convert("H31"), Ok(2019));
    assert_eq!(convert("R01"), Ok(2019));
    assert_eq!(convert("R33"), Ok(2051));
    assert_eq!(convert("R99"), Ok(2117));
}

#[test]
fn year_zero_fails_under_every_prefix() {
    for prefix in ['M', 'T', 'S', 'H', 'R', '0', '1', '5', '9', 'A', 'z', ' ', '\u{e9}', '\u{660e}'] {
        let code: String = [prefix, '0', '0'].iter().collect();
        assert_eq!(convert(&code), Err(ErrorKind::YearTooLow), "{code:?}");
    }
}

#[test]
fn years_are_within_range() {
    let alphabet: Vec<char> = "MTSHR0123456789".chars().collect();
    for &a in &alphabet {
        for &b in &alphabet {
            for &c in &alphabet {
                let code: String = [a, b, c].iter().collect();
                if let Ok(year) = convert(&code) {
                    assert!((1868..=2117).contains(&year), "{code} {year}");
                }
            }
        }
    }
}
