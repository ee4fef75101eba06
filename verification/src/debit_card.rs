//! Debit cards: an account, its balance and the bank that issued the card.
use vstd::prelude::*;
use crate::account_number::{is_account_number, AccountNumber};
use crate::bank_code::{is_bank_code, BankCode};
use crate::error::{BankError, Fault};

verus! {

/// What a debit card is, as mathematics: the account number and the issuing
/// bank's code as sequences of characters, the balance as an integer.
pub struct CardView {
    pub account: Seq<char>,
    pub balance: int,
    pub bank_id: Seq<char>,
}

impl CardView {
    /// The balance lies in the range of `i32`.
    pub open spec fn fits(self) -> bool {
        i32::MIN <= self.balance <= i32::MAX
    }

    /// Some card in memory has this view: both identifiers are well formed and
    /// the balance fits. The balance may be negative: a card can be overdrawn.
    pub open spec fn well_formed(self) -> bool {
        &&& is_account_number(self.account)
        &&& is_bank_code(self.bank_id)
        &&& self.fits()
    }

    /// What opening a card on `account` with `balance`, issued by the bank
    /// `bank_id`, gives: the card, or the first rule that the three break. The
    /// account number is looked at first, then the balance, then the bank code.
    pub open spec fn init(account: Seq<char>, balance: int, bank_id: Seq<char>) -> Result<
        CardView,
        BankError,
    > {
        if !is_account_number(account) {
            Err(BankError::InvalidConstruction(Fault::MalformedAccountNumber))
        } else if balance < 0 {
            Err(BankError::InvalidConstruction(Fault::NegativeBalance))
        } else if !is_bank_code(bank_id) {
            Err(BankError::InvalidConstruction(Fault::MalformedBankCode))
        } else {
            Ok(CardView { account, balance, bank_id })
        }
    }

    /// This card with `delta` added to its balance.
    pub open spec fn credited(self, delta: int) -> CardView {
        CardView { balance: self.balance + delta, ..self }
    }

    /// What a deposit of `cash` does: a positive amount is added to the
    /// balance, any other is refused.
    pub open spec fn deposit(self, cash: int) -> Result<CardView, BankError> {
        if cash > 0 {
            Ok(self.credited(cash))
        } else {
            Err(BankError::InvalidAmount)
        }
    }

    /// What a withdrawal of `cash` does: a positive amount is taken from the
    /// balance, any other is refused. The balance is not looked at, so it may
    /// fall below zero.
    pub open spec fn withdraw(self, cash: int) -> Result<CardView, BankError> {
        if cash > 0 {
            Ok(self.credited(-cash))
        } else {
            Err(BankError::InvalidAmount)
        }
    }

    /// If a deposit of `cash` goes through, the new balance fits.
    pub open spec fn deposit_fits(self, cash: int) -> bool {
        self.deposit(cash) matches Ok(card) ==> card.fits()
    }

    /// If a withdrawal of `cash` goes through, the new balance fits.
    pub open spec fn withdraw_fits(self, cash: int) -> bool {
        self.withdraw(cash) matches Ok(card) ==> card.fits()
    }
}

/// A debit card.
///
/// A card is opened with a balance of zero or more. Withdrawals are not held
/// against the balance, so a card in use may be overdrawn; its identifiers
/// never change.
#[derive(Debug)]
pub struct DebitCard {
    account: AccountNumber,
    balance: i32,
    bank_id: BankCode,
}

impl View for DebitCard {
    type V = CardView;

    closed spec fn view(&self) -> CardView {
        CardView { account: self.account@, balance: self.balance as int, bank_id: self.bank_id@ }
    }
}

impl DebitCard {
    /// Every card in existence has a well-formed view.
    #[verifier::type_invariant]
    pub open spec fn well_formed(&self) -> bool {
        self@.well_formed()
    }

    /// Opens a card on `account` with `balance`, issued by the bank `bank_id`.
    ///
    /// The card is opened exactly when `account` is twelve digits, `balance`
    /// is not negative and `bank_id` is a bank code. Otherwise the first of
    /// these rules that fails, in this order, is named in the error and no card exists.
    pub fn init(account: &str, balance: &i32, bank_id: &str) -> (r: Result<DebitCard, BankError>)
        ensures
            match CardView::init(account@, *balance as int, bank_id@) {
                Ok(card) => r is Ok && r->Ok_0@ == card,
                Err(e) => r == Err::<DebitCard, BankError>(e),
            },
    {
        let account = match AccountNumber::parse(account) {
            Ok(number) => number,
            Err(e) => { return Err(e); },
        };
        if *balance < 0 {
            return Err(BankError::InvalidConstruction(Fault::NegativeBalance));
        }
        let bank_id = match BankCode::parse(bank_id) {
            Ok(code) => code,
            Err(e) => { return Err(e); },
        };
        proof {
            use_type_invariant(&account);
            use_type_invariant(&bank_id);
        }
        Ok(DebitCard { account, balance: *balance, bank_id })
    }

    /// Tells whether the balance, moved by `delta`, would lie in the range of
    /// `i32`.
    pub(crate) fn credit_fits(&self, delta: i64) -> (r: bool)
        ensures
            r == self@.credited(delta as int).fits(),
    {
        let balance: i64 = self.balance as i64;
        i32::MIN as i64 - balance <= delta && delta <= i32::MAX as i64 - balance
    }

    /// Moves the balance by `delta`, which may be of either sign.
    pub(crate) fn credit(&mut self, delta: i32)
        requires
            old(self)@.credited(delta as int).fits(),
        ensures
            final(self)@ == old(self)@.credited(delta as int),
    {
        proof {
            use_type_invariant(&*self);
        }
        self.balance = self.balance + delta;
    }

    /// Tells whether [`DebitCard::deposit`] may be called with `cash`: whether
    /// the balance that it would leave lies in the range of `i32`.
    pub fn deposit_fits(&self, cash: i32) -> (r: bool)
        ensures
            r == self@.deposit_fits(cash as int),
    {
        cash <= 0 || self.credit_fits(cash as i64)
    }

    /// Tells whether [`DebitCard::withdraw`] may be called with `cash`:
    /// whether the balance that it would leave lies in the range of `i32`.
    pub fn withdraw_fits(&self, cash: i32) -> (r: bool)
        ensures
            r == self@.withdraw_fits(cash as int),
    {
        cash <= 0 || self.credit_fits(-(cash as i64))
    }

    /// Adds `cash` to the balance.
    ///
    /// An amount that is not positive is refused with
    /// [`BankError::InvalidAmount`] and leaves the card as it was. The new
    /// balance must lie in the range of `i32`, which
    /// [`DebitCard::deposit_fits`] tells.
    pub fn deposit(&mut self, cash: i32) -> (r: Result<(), BankError>)
        requires
            old(self)@.deposit_fits(cash as int),
        ensures
            match old(self)@.deposit(cash as int) {
                Ok(card) => r is Ok && final(self)@ == card,
                Err(e) => r == Err::<(), BankError>(e) && *final(self) == *old(self),
            },
            r is Ok ==> final(self)@.balance > old(self)@.balance,
    {
        if cash <= 0 {
            return Err(BankError::InvalidAmount);
        }
        self.credit(cash);
        Ok(())
    }

    /// Takes `cash` from the balance, whatever the balance is.
    ///
    /// An amount that is not positive is refused with
    /// [`BankError::InvalidAmount`] and leaves the card as it was. The new
    /// balance, which may be negative, must lie in the range of `i32`, which
    /// [`DebitCard::withdraw_fits`] tells.
    pub fn withdraw(&mut self, cash: i32) -> (r: Result<(), BankError>)
        requires
            old(self)@.withdraw_fits(cash as int),
        ensures
            match old(self)@.withdraw(cash as int) {
                Ok(card) => r is Ok && final(self)@ == card,
                Err(e) => r == Err::<(), BankError>(e) && *final(self) == *old(self),
            },
            r is Ok ==> final(self)@.balance < old(self)@.balance,
    {
        if cash <= 0 {
            return Err(BankError::InvalidAmount);
        }
        self.credit(-cash);
        Ok(())
    }

    /// The code of the bank that issued the card, as text.
    pub fn get_bank_id(&self) -> (id: &str)
        ensures
            id@ == self@.bank_id,
            is_bank_code(id@),
    {
        self.bank_id.as_str()
    }

    /// The code of the bank that issued the card.
    pub fn bank_code(&self) -> (code: &BankCode)
        ensures
            code@ == self@.bank_id,
    {
        &self.bank_id
    }

    /// The account number, as text.
    pub fn get_account(&self) -> (number: &str)
        ensures
            number@ == self@.account,
            is_account_number(number@),
    {
        self.account.as_str()
    }

    /// Tells whether the balance is below zero.
    pub fn is_overdrawn(&self) -> (r: bool)
        ensures
            r == (self@.balance < 0),
    {
        self.balance < 0
    }

    /// The balance of a card that is not overdrawn. An overdrawn card does not
    /// show its balance: [`DebitCard::is_overdrawn`] tells which it is.
    pub fn get_balance(&self) -> (balance: &i32)
        requires
            self@.balance >= 0,
        ensures
            *balance == self@.balance,
    {
        &self.balance
    }
}

} // verus!
