use rust_labs::chars::{
    char_to_number, char_to_number_hex, check_ascii, check_base16, check_digit, check_letter,
    check_printable, error_report, to_lowercase, to_uppercase, CharError,
};

#[test]
fn check_ascii_cases() {
    assert_eq!(check_ascii('a'), Ok(()));
    assert_eq!(check_ascii('\u{7f}'), Ok(()));
    assert_eq!(check_ascii('é'), Err(CharError::NotAscii('é')));
}

#[test]
fn check_digit_cases() {
    assert_eq!(check_digit('0'), Ok(()));
    assert_eq!(check_digit('9'), Ok(()));
    assert_eq!(check_digit('a'), Err(CharError::NotDigit('a')));
    assert_eq!(check_digit('٣'), Err(CharError::NotDigit('٣')));
}

#[test]
fn check_base16_cases() {
    assert_eq!(check_base16('f'), Ok(()));
    assert_eq!(check_base16('F'), Ok(()));
    assert_eq!(check_base16('7'), Ok(()));
    assert_eq!(check_base16('g'), Err(CharError::NotBase16('g')));
}

#[test]
fn check_letter_cases() {
    assert_eq!(check_letter('a'), Ok(()));
    assert_eq!(check_letter('é'), Ok(()));
    assert_eq!(check_letter('越'), Ok(()));
    assert_eq!(check_letter('1'), Err(CharError::NotLetter('1')));
    assert_eq!(check_letter(' '), Err(CharError::NotLetter(' ')));
}

#[test]
fn check_printable_cases() {
    assert_eq!(check_printable('~'), Ok(()));
    assert_eq!(check_printable(' '), Ok(()));
    assert_eq!(check_printable('\n'), Ok(()));
    assert_eq!(check_printable('\u{0}'), Err(CharError::NotPrintable('\u{0}')));
    assert_eq!(check_printable('\u{0b}'), Err(CharError::NotPrintable('\u{0b}')));
    assert_eq!(check_printable('é'), Err(CharError::NotPrintable('é')));
}

#[test]
fn to_uppercase_cases() {
    assert_eq!(to_uppercase('a'), Ok('A'));
    assert_eq!(to_uppercase('z'), Ok('Z'));
    assert_eq!(to_uppercase('A'), Ok('A'));
    assert_eq!(to_uppercase('5'), Ok('5'));
    assert_eq!(to_uppercase('é'), Err(CharError::NotAscii('é')));
}

#[test]
fn to_lowercase_cases() {
    assert_eq!(to_lowercase('Q'), Ok('q'));
    assert_eq!(to_lowercase('q'), Ok('q'));
    assert_eq!(to_lowercase('['), Ok('['));
    assert_eq!(to_lowercase('Ü'), Err(CharError::NotAscii('Ü')));
}

#[test]
fn case_round_trip_on_ascii() {
    for b in 0u8..128 {
        let c = b as char;
        let up = to_uppercase(c).unwrap();
        let low = to_lowercase(c).unwrap();
        assert_eq!(to_lowercase(up), Ok(low));
        assert_eq!(to_uppercase(low), Ok(up));
    }
}

#[test]
fn char_to_number_cases() {
    assert_eq!(char_to_number('7'), Ok(7));
    assert_eq!(char_to_number('0'), Ok(0));
    assert_eq!(char_to_number('g'), Err(CharError::NotDigit('g')));
    assert_eq!(char_to_number('é'), Err(CharError::NotAscii('é')));
}

#[test]
fn char_to_number_hex_cases() {
    assert_eq!(char_to_number_hex('7'), Ok(7));
    assert_eq!(char_to_number_hex('a'), Ok(10));
    assert_eq!(char_to_number_hex('F'), Ok(15));
    assert_eq!(char_to_number_hex('g'), Err(CharError::NotBase16('g')));
    assert_eq!(char_to_number_hex('ß'), Err(CharError::NotAscii('ß')));
}

#[test]
fn hex_agrees_with_decimal_on_digits() {
    for c in '0'..='9' {
        assert_eq!(char_to_number_hex(c), char_to_number(c));
    }
}

#[test]
fn error_report_texts() {
    assert_eq!(error_report(CharError::NotAscii('é')), "Error! é is not an ASCII character");
    assert_eq!(error_report(CharError::NotBase16('g')), "Error! g is not an in Base16");
    assert_eq!(error_report(CharError::NotDigit('g')), "Error! g is not a digit");
    assert_eq!(error_report(CharError::NotLetter('1')), "Error! 1 is not a letter");
    assert_eq!(error_report(CharError::NotPrintable('\u{0}')), "Error! \u{0} is not printable");
}

#[test]
fn check_letter_on_ascii_accepts_exactly_the_letters() {
    for b in 0u8..128 {
        let c = b as char;
        assert_eq!(check_letter(c).is_ok(), c.is_ascii_alphabetic(), "c = {:?}", c);
    }
}
