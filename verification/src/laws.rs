//! What holds of every machine and every card, stated over their views.
//!
//! The operations of [`crate::atm::ATM`] and [`crate::debit_card::DebitCard`]
//! promise to act as the functions of [`AtmView`] and [`CardView`] say. The
//! lemmas here spell out what those functions give, case by case.
use vstd::prelude::*;
use crate::account_number::is_account_number;
use crate::atm::{AtmView, CROSS_BANK_FEE};
use crate::bank_code::is_bank_code;
use crate::debit_card::CardView;
use crate::digits::{all_digits, is_digit};
use crate::error::{BankError, Fault};

verus! {

/// A bank code is a string of three decimal digits whose last is not `0`.
pub proof fn lemma_bank_code_is_three_digits(id: Seq<char>)
    ensures
        is_bank_code(id) <==> id.len() == 3 && all_digits(id) && id[2] != '0',
{
}

/// A string fails to be a bank code exactly when its length is not three, or
/// one of its characters is not a digit, or its third character is `0`.
pub proof fn lemma_bank_code_faults(id: Seq<char>)
    ensures
        !is_bank_code(id) <==> {
            ||| id.len() != 3
            ||| exists|i: int| 0 <= i < id.len() && !is_digit(#[trigger] id[i])
            ||| (id.len() == 3 && id[2] == '0')
        },
{
}

/// An account number is a string of twelve decimal digits.
pub proof fn lemma_account_number_is_twelve_digits(account: Seq<char>)
    ensures
        is_account_number(account) <==> account.len() == 12 && all_digits(account),
{
}

/// A machine can be set up with any bank code and any reserve that is not
/// negative, and then carries that code and that reserve.
pub proof fn lemma_setup_keeps_bank_code(id: Seq<char>, reserves: int)
    requires
        is_bank_code(id),
        reserves >= 0,
    ensures
        AtmView::init(id, reserves) matches Ok(atm) && atm.bank_id == id && atm.cash_reserves
            == reserves,
{
}

/// No machine can be set up with a code whose length is not three, or that
/// holds a character that is no digit, or whose third character is `0`,
/// whatever the reserve.
pub proof fn lemma_setup_refuses_malformed_code(id: Seq<char>, reserves: int)
    requires
        id.len() != 3 || (exists|i: int| 0 <= i < id.len() && !is_digit(#[trigger] id[i])) || (
        id.len() == 3 && id[2] == '0'),
    ensures
        AtmView::init(id, reserves) == Err::<AtmView, BankError>(
            BankError::InvalidConstruction(Fault::MalformedBankCode),
        ),
{
}

/// No machine can be set up with a negative reserve, whatever the code.
pub proof fn lemma_setup_refuses_negative_reserve(id: Seq<char>, reserves: int)
    requires
        reserves < 0,
    ensures
        AtmView::init(id, reserves) matches Err(BankError::InvalidConstruction(_)),
        is_bank_code(id) ==> AtmView::init(id, reserves) == Err::<AtmView, BankError>(
            BankError::InvalidConstruction(Fault::NegativeReserves),
        ),
{
}

/// A card is opened exactly when its account number is well formed, its
/// balance is not negative and its bank code is well formed. It then carries
/// all three; otherwise it is refused as an invalid construction.
pub proof fn lemma_card_opens_when_valid(account: Seq<char>, balance: int, bank_id: Seq<char>)
    ensures
        is_account_number(account) && balance >= 0 && is_bank_code(bank_id) ==> CardView::init(
            account,
            balance,
            bank_id,
        ) == Ok::<CardView, BankError>(CardView { account, balance, bank_id }),
        !(is_account_number(account) && balance >= 0 && is_bank_code(bank_id)) ==> CardView::init(
            account,
            balance,
            bank_id,
        ) matches Err(BankError::InvalidConstruction(_)),
{
}

/// A deposit of a positive amount into a card of the machine's own bank adds
/// the amount to the reserve and to the balance, and changes nothing else.
pub proof fn lemma_deposit_same_bank(atm: AtmView, card: CardView, cash: int)
    requires
        cash > 0,
        atm.same_bank(card),
    ensures
        atm.deposit(card, cash) == Ok::<(AtmView, CardView), BankError>(
            (
                AtmView { cash_reserves: atm.cash_reserves + cash, ..atm },
                CardView { balance: card.balance + cash, ..card },
            ),
        ),
{
}

/// A deposit of a positive amount into a card of another bank adds the amount
/// and the fee to the reserve, adds the amount less the fee to the balance,
/// and changes nothing else.
pub proof fn lemma_deposit_cross_bank(atm: AtmView, card: CardView, cash: int)
    requires
        cash > 0,
        !atm.same_bank(card),
    ensures
        atm.deposit(card, cash) == Ok::<(AtmView, CardView), BankError>(
            (
                AtmView { cash_reserves: atm.cash_reserves + cash + 15, ..atm },
                CardView { balance: card.balance + cash - 15, ..card },
            ),
        ),
        CROSS_BANK_FEE == 15,
{
}

/// A withdrawal that the machine can pay, from a card of its own bank, takes
/// the amount from the reserve and from the balance, and changes nothing else.
pub proof fn lemma_withdraw_same_bank(atm: AtmView, card: CardView, cash: int)
    requires
        0 < cash <= atm.cash_reserves,
        atm.same_bank(card),
    ensures
        atm.withdraw(card, cash) == Ok::<(AtmView, CardView), BankError>(
            (
                AtmView { cash_reserves: atm.cash_reserves - cash, ..atm },
                CardView { balance: card.balance - cash, ..card },
            ),
        ),
{
}

/// A withdrawal that the machine can pay, from a card of another bank, takes
/// the amount less the fee from the reserve, takes the amount and the fee from
/// the balance, and changes nothing else.
pub proof fn lemma_withdraw_cross_bank(atm: AtmView, card: CardView, cash: int)
    requires
        0 < cash <= atm.cash_reserves,
        !atm.same_bank(card),
    ensures
        atm.withdraw(card, cash) == Ok::<(AtmView, CardView), BankError>(
            (
                AtmView { cash_reserves: atm.cash_reserves - cash + 15, ..atm },
                CardView { balance: card.balance - cash - 15, ..card },
            ),
        ),
{
}

/// An amount that is not positive is refused as invalid by every transaction,
/// at the machine and at the card.
pub proof fn lemma_amount_must_be_positive(atm: AtmView, card: CardView, cash: int)
    requires
        cash <= 0,
    ensures
        atm.deposit(card, cash) == Err::<(AtmView, CardView), BankError>(BankError::InvalidAmount),
        atm.withdraw(card, cash) == Err::<(AtmView, CardView), BankError>(BankError::InvalidAmount),
        card.deposit(cash) == Err::<CardView, BankError>(BankError::InvalidAmount),
        card.withdraw(cash) == Err::<CardView, BankError>(BankError::InvalidAmount),
{
}

/// A withdrawal of more than the machine holds is refused for want of
/// reserves.
pub proof fn lemma_withdraw_beyond_reserve(atm: AtmView, card: CardView, cash: int)
    requires
        atm.well_formed(),
        cash > atm.cash_reserves,
    ensures
        atm.withdraw(card, cash) == Err::<(AtmView, CardView), BankError>(
            BankError::InsufficientReserves,
        ),
{
}

/// A deposit that goes through raises the reserve. A withdrawal that goes
/// through lowers it, except from a card of another bank when the amount does
/// not exceed the fee.
pub proof fn lemma_reserve_moves_with_the_cash(atm: AtmView, card: CardView, cash: int)
    ensures
        atm.deposit(card, cash) matches Ok((after, _)) ==> after.cash_reserves > atm.cash_reserves,
        atm.withdraw(card, cash) matches Ok((after, _)) ==> (after.cash_reserves
            < atm.cash_reserves <==> atm.same_bank(card) || cash > CROSS_BANK_FEE),
{
}

/// A well-formed machine is one that can be set up as it stands. A
/// transaction that goes through between a well-formed machine and a
/// well-formed card leaves a reserve that is not negative, and leaves each of
/// the two well formed wherever its new amount lies in the range of `i32`.
pub proof fn lemma_well_formedness_is_kept(atm: AtmView, card: CardView, cash: int)
    requires
        atm.well_formed(),
        card.well_formed(),
    ensures
        AtmView::init(atm.bank_id, atm.cash_reserves) == Ok::<AtmView, BankError>(atm),
        atm.deposit(card, cash) matches Ok((a, c)) ==> a.cash_reserves >= 0 && (a.fits()
            ==> a.well_formed()) && (c.fits() ==> c.well_formed()),
        atm.withdraw(card, cash) matches Ok((a, c)) ==> a.cash_reserves >= 0 && (a.fits()
            ==> a.well_formed()) && (c.fits() ==> c.well_formed()),
        card.deposit(cash) matches Ok(c) ==> (c.fits() ==> c.well_formed()),
        card.withdraw(cash) matches Ok(c) ==> (c.fits() ==> c.well_formed()),
{
}

/// Between a machine and a card of its own bank, a deposit followed by a
/// withdrawal of the same amount goes through and brings both back to where
/// they were.
pub proof fn lemma_same_bank_round_trip(atm: AtmView, card: CardView, cash: int)
    requires
        atm.well_formed(),
        atm.same_bank(card),
        cash > 0,
    ensures
        atm.deposit(card, cash) matches Ok((mid_atm, mid_card)) && mid_atm.withdraw(mid_card, cash)
            == Ok::<(AtmView, CardView), BankError>((atm, card)),
{
}

/// Between a machine and a card of another bank, a deposit followed by a
/// withdrawal of the same amount goes through and costs the card the fee
/// twice, which the machine gains.
pub proof fn lemma_cross_bank_round_trip(atm: AtmView, card: CardView, cash: int)
    requires
        atm.well_formed(),
        !atm.same_bank(card),
        cash > 0,
    ensures
        atm.deposit(card, cash) matches Ok((mid_atm, mid_card)) && mid_atm.withdraw(mid_card, cash)
            == Ok::<(AtmView, CardView), BankError>(
            (atm.stocked(2 * CROSS_BANK_FEE), card.credited(-2 * CROSS_BANK_FEE)),
        ),
{
}

} // verus!
