use bank_atm::account_number::{is_valid_account_number, AccountNumber};
use bank_atm::bank_code::{is_valid_bank_code, BankCode};
use bank_atm::digits::{is_decimal_digit, is_digit_string};
use bank_atm::error::{BankError, Fault};

#[test]
fn decimal_digits_are_the_ten_ascii_digits() {
    for c in ['0', '1', '2', '3', '4', '5', '6', '7', '8', '9'] {
        assert!(is_decimal_digit(c));
    }
    for c in ['/', ':', 'a', 'k', 'A', ' ', '-', '+', '\u{0663}', '\u{ff11}', '\u{0}'] {
        assert!(!is_decimal_digit(c), "{:?}", c);
    }
}

#[test]
fn digit_strings_have_the_length_asked_for() {
    assert!(is_digit_string("", 0));
    assert!(is_digit_string("7", 1));
    assert!(is_digit_string("0123456789", 10));
    assert!(!is_digit_string("0123456789", 9));
    assert!(!is_digit_string("0123456789", 11));
    assert!(!is_digit_string("01234x6789", 10));
    assert!(!is_digit_string("\u{e9}", 2));
    assert!(!is_digit_string("\u{e9}", 1));
}

#[test]
fn third_digit_of_a_bank_code_is_not_zero() {
    for last in ['1', '2', '3', '4', '5', '6', '7', '8', '9'] {
        for lead in ["00", "09", "10", "81", "99"] {
            let id = format!("{}{}", lead, last);
            assert!(is_valid_bank_code(&id), "{:?}", id);
        }
    }
    for id in ["000", "010", "100", "110", "990"] {
        assert!(!is_valid_bank_code(id), "{:?}", id);
    }
}

#[test]
fn bank_code_is_three_characters() {
    for id in ["", "1", "12", "1234", "12345", "0006", "1\u{e9}"] {
        assert!(!is_valid_bank_code(id), "{:?}", id);
    }
}

#[test]
fn bank_code_parse_keeps_the_text() {
    for id in ["001", "006", "812", "999"] {
        let code = BankCode::parse(id).unwrap();
        assert_eq!(id, code.as_str());
    }
    assert_eq!(
        BankCode::parse("000").err(),
        Some(BankError::InvalidConstruction(Fault::MalformedBankCode))
    );
    assert_eq!(
        BankCode::parse("81").err(),
        Some(BankError::InvalidConstruction(Fault::MalformedBankCode))
    );
}

#[test]
fn bank_codes_are_the_same_when_their_text_is() {
    let citi = BankCode::parse("812").unwrap();
    assert!(citi.same_bank(&BankCode::parse("812").unwrap()));
    assert!(!citi.same_bank(&BankCode::parse("006").unwrap()));
    assert!(!citi.same_bank(&BankCode::parse("813").unwrap()));
    assert!(!citi.same_bank(&BankCode::parse("128").unwrap()));
}

#[test]
fn account_number_is_twelve_digits() {
    for account in ["000000000000", "123456783946", "999999999990"] {
        assert!(is_valid_account_number(account));
        assert_eq!(account, AccountNumber::parse(account).unwrap().as_str());
    }
    for account in ["", "12345678901", "1234567890123", "k23456789012", "12345678901 "] {
        assert!(!is_valid_account_number(account), "{:?}", account);
        assert_eq!(
            AccountNumber::parse(account).err(),
            Some(BankError::InvalidConstruction(Fault::MalformedAccountNumber))
        );
    }
}
