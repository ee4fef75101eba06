use bank_atm::debit_card::DebitCard;
use bank_atm::error::{BankError, Fault};

#[test]
fn given_legal_fields_provided_when_debit_card_init_then_should_not_panic() {
    let (account, balance, bank_id) = (String::from("123456789012"), 0, String::from("812"));
    let card = DebitCard::init(&account, &balance, &bank_id).unwrap();
    assert_eq!("123456789012", card.get_account());
    assert_eq!(&0, card.get_balance());
    assert_eq!("812", card.get_bank_id());
}

#[test]
#[should_panic]
fn given_illegal_account_provided_when_debit_card_init_then_should_panic() {
    let (account, balance, bank_id) = (String::from("k23456789012"), 0, String::from("812"));
    let _card = DebitCard::init(&account, &balance, &bank_id).unwrap();
}

#[test]
#[should_panic]
fn given_illegal_balance_provided_when_debit_card_init_then_should_panic() {
    let (account, balance, bank_id) = (String::from("523456789012"), -1, String::from("812"));
    let _card = DebitCard::init(&account, &balance, &bank_id).unwrap();
}

#[test]
#[should_panic]
fn given_illegal_bank_id_provided_when_debit_card_init_then_should_panic() {
    let (account, balance, bank_id) = (String::from("k23456789012"), 0, String::from("000"));
    let _card = DebitCard::init(&account, &balance, &bank_id).unwrap();
}

#[test]
fn card_init_keeps_what_it_was_given() {
    for account in ["000000000000", "123456783946", "999999999999"] {
        for balance in [0, 1, 200_000, i32::MAX] {
            for bank in ["001", "006", "812"] {
                let card = DebitCard::init(account, &balance, bank).unwrap();
                assert_eq!(account, card.get_account());
                assert_eq!(&balance, card.get_balance());
                assert_eq!(bank, card.get_bank_id());
                assert_eq!(bank, card.bank_code().as_str());
                assert!(!card.is_overdrawn());
            }
        }
    }
}

#[test]
fn card_init_refuses_malformed_account_numbers() {
    let refused = Some(BankError::InvalidConstruction(Fault::MalformedAccountNumber));
    for account in [
        "",
        "1",
        "12345678901",
        "1234567890123",
        "k23456789012",
        "12345678901k",
        "123456 89012",
        "-12345678901",
        "12345678901\u{0663}",
        "1234567890\u{e9}",
    ] {
        assert_eq!(DebitCard::init(account, &0, "812").err(), refused, "{:?}", account);
    }
}

#[test]
fn card_init_refuses_negative_balances() {
    let refused = Some(BankError::InvalidConstruction(Fault::NegativeBalance));
    for balance in [-1, -200_000, i32::MIN] {
        assert_eq!(DebitCard::init("523456789012", &balance, "812").err(), refused);
    }
}

#[test]
fn card_init_refuses_malformed_bank_codes() {
    let refused = Some(BankError::InvalidConstruction(Fault::MalformedBankCode));
    for bank in ["", "12", "1234", "000", "810", "8l2", "\u{ff18}\u{ff11}\u{ff12}"] {
        assert_eq!(DebitCard::init("523456789012", &0, bank).err(), refused, "{:?}", bank);
    }
}

#[test]
fn card_init_names_the_first_broken_rule() {
    assert_eq!(
        DebitCard::init("k23456789012", &-1, "000").err(),
        Some(BankError::InvalidConstruction(Fault::MalformedAccountNumber))
    );
    assert_eq!(
        DebitCard::init("k23456789012", &0, "000").err(),
        Some(BankError::InvalidConstruction(Fault::MalformedAccountNumber))
    );
    assert_eq!(
        DebitCard::init("523456789012", &-1, "000").err(),
        Some(BankError::InvalidConstruction(Fault::NegativeBalance))
    );
    assert_eq!(
        DebitCard::init("523456789012", &0, "000").err(),
        Some(BankError::InvalidConstruction(Fault::MalformedBankCode))
    );
}

#[test]
fn card_deposit_adds_to_the_balance() {
    let mut card = DebitCard::init("523456789012", &100, "812").unwrap();
    assert!(card.deposit_fits(1));
    assert_eq!(Ok(()), card.deposit(1));
    assert_eq!(&101, card.get_balance());
    assert_eq!(Ok(()), card.deposit(2000));
    assert_eq!(&2101, card.get_balance());
    assert_eq!("523456789012", card.get_account());
    assert_eq!("812", card.get_bank_id());
}

#[test]
fn card_withdraw_takes_from_the_balance() {
    let mut card = DebitCard::init("523456789012", &100, "812").unwrap();
    assert!(card.withdraw_fits(1));
    assert_eq!(Ok(()), card.withdraw(1));
    assert_eq!(&99, card.get_balance());
    assert_eq!(Ok(()), card.withdraw(99));
    assert_eq!(&0, card.get_balance());
    assert_eq!("523456789012", card.get_account());
    assert_eq!("812", card.get_bank_id());
}

#[test]
fn card_refuses_amounts_that_are_not_positive() {
    for cash in [0, -1, -2000, i32::MIN] {
        let mut card = DebitCard::init("523456789012", &100, "812").unwrap();
        assert!(card.deposit_fits(cash));
        assert_eq!(Err(BankError::InvalidAmount), card.deposit(cash));
        assert_eq!(&100, card.get_balance());
        assert!(card.withdraw_fits(cash));
        assert_eq!(Err(BankError::InvalidAmount), card.withdraw(cash));
        assert_eq!(&100, card.get_balance());
        assert_eq!("523456789012", card.get_account());
        assert_eq!("812", card.get_bank_id());
    }
}

#[test]
fn card_can_be_overdrawn() {
    let mut card = DebitCard::init("523456789012", &100, "812").unwrap();
    assert!(!card.is_overdrawn());
    assert_eq!(Ok(()), card.withdraw(100));
    assert!(!card.is_overdrawn());
    assert_eq!(Ok(()), card.withdraw(1));
    assert!(card.is_overdrawn());
    assert_eq!(Ok(()), card.withdraw(i32::MAX));
    assert!(card.is_overdrawn());
    assert_eq!(Ok(()), card.deposit(i32::MAX));
    assert!(card.is_overdrawn());
    assert_eq!(Ok(()), card.deposit(1));
    assert!(!card.is_overdrawn());
    assert_eq!(&0, card.get_balance());
}

#[test]
fn card_fits_tell_when_the_balance_would_overflow() {
    let mut card = DebitCard::init("523456789012", &(i32::MAX - 5), "812").unwrap();
    assert!(card.deposit_fits(5));
    assert!(!card.deposit_fits(6));
    assert!(!card.deposit_fits(i32::MAX));
    assert!(card.withdraw_fits(i32::MAX));
    assert_eq!(Ok(()), card.withdraw(i32::MAX));
    assert!(card.is_overdrawn());
    assert!(!card.withdraw_fits(i32::MAX));
    assert!(!card.withdraw_fits(i32::MAX - 3));
    assert!(card.withdraw_fits(i32::MAX - 4));
    assert_eq!(Ok(()), card.withdraw(i32::MAX - 4));
    assert!(!card.withdraw_fits(1));
    assert!(card.deposit_fits(i32::MAX));
    assert_eq!(Ok(()), card.deposit(i32::MAX));
    assert!(card.is_overdrawn());
    assert_eq!(Ok(()), card.deposit(1));
    assert_eq!(&0, card.get_balance());
}

#[test]
fn messages_name_the_broken_rule() {
    assert_eq!(
        "bank code must be three digits, the last one from 1 to 9",
        Fault::MalformedBankCode.message()
    );
    assert_eq!(
        "account number must be twelve digits",
        Fault::MalformedAccountNumber.message()
    );
    assert_eq!("balance must not be negative", Fault::NegativeBalance.message());
    assert_eq!("cash reserves must not be negative", Fault::NegativeReserves.message());
    assert_eq!(
        "amount must be greater than zero",
        BankError::InvalidAmount.message()
    );
    assert_eq!(
        "amount must not exceed the cash reserves",
        BankError::InsufficientReserves.message()
    );
    for fault in [
        Fault::MalformedBankCode,
        Fault::MalformedAccountNumber,
        Fault::NegativeBalance,
        Fault::NegativeReserves,
    ] {
        assert_eq!(fault.message(), BankError::InvalidConstruction(fault).message());
    }
}
