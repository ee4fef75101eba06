//! Teller machines: the bank that runs the machine and the cash it holds.
use vstd::prelude::*;
use crate::bank_code::{is_bank_code, BankCode};
use crate::debit_card::{CardView, DebitCard};
use crate::error::{BankError, Fault};

verus! {

/// The flat fee on a transaction between a machine and a card of another bank.
pub const CROSS_BANK_FEE: i32 = 15;

/// What a teller machine is, as mathematics: the code of its bank as a
/// sequence of characters, its cash reserve as an integer.
pub struct AtmView {
    pub bank_id: Seq<char>,
    pub cash_reserves: int,
}

impl AtmView {
    /// The reserve lies in the range of `i32`.
    pub open spec fn fits(self) -> bool {
        i32::MIN <= self.cash_reserves <= i32::MAX
    }

    /// Some machine in memory has this view: the bank code is well formed and
    /// the reserve is not negative and fits.
    pub open spec fn well_formed(self) -> bool {
        &&& is_bank_code(self.bank_id)
        &&& 0 <= self.cash_reserves
        &&& self.fits()
    }

    /// What setting up a machine of the bank `id` with `reserves` in cash
    /// gives: the machine, or the first rule that the two break. The bank code
    /// is looked at first, then the reserve.
    pub open spec fn init(id: Seq<char>, reserves: int) -> Result<AtmView, BankError> {
        if !is_bank_code(id) {
            Err(BankError::InvalidConstruction(Fault::MalformedBankCode))
        } else if reserves < 0 {
            Err(BankError::InvalidConstruction(Fault::NegativeReserves))
        } else {
            Ok(AtmView { bank_id: id, cash_reserves: reserves })
        }
    }

    /// The card was issued by the bank that runs this machine.
    pub open spec fn same_bank(self, card: CardView) -> bool {
        self.bank_id == card.bank_id
    }

    /// The fee on a transaction with `card`: nothing for a card of the
    /// machine's own bank, [`CROSS_BANK_FEE`] for any other.
    pub open spec fn fee(self, card: CardView) -> int {
        if self.same_bank(card) {
            0
        } else {
            CROSS_BANK_FEE as int
        }
    }

    /// This machine with `delta` added to its reserve.
    pub open spec fn stocked(self, delta: int) -> AtmView {
        AtmView { cash_reserves: self.cash_reserves + delta, ..self }
    }

    /// What a deposit of `cash` into `card` does to the machine and the card.
    ///
    /// An amount that is not positive is refused. Otherwise the machine takes
    /// in the amount and books the fee on top of it, and the card is credited
    /// with the amount less the fee: with a card of another bank the fee shows
    /// on both sides, and an amount below the fee lowers the balance.
    pub open spec fn deposit(self, card: CardView, cash: int) -> Result<
        (AtmView, CardView),
        BankError,
    > {
        if cash <= 0 {
            Err(BankError::InvalidAmount)
        } else {
            Ok((self.stocked(cash + self.fee(card)), card.credited(cash - self.fee(card))))
        }
    }

    /// What a withdrawal of `cash` from `card` does to the machine and the
    /// card.
    ///
    /// An amount that is not positive is refused, and so is one above the
    /// reserve; the card's balance is not looked at. Otherwise the machine
    /// pays out the amount and keeps the fee, so that its reserve moves by the
    /// fee less the amount, and the card is charged the amount and the fee.
    /// The fee is the machine's gain here as it is on a deposit: it is never
    /// taken out of the reserve along with the amount.
    pub open spec fn withdraw(self, card: CardView, cash: int) -> Result<
        (AtmView, CardView),
        BankError,
    > {
        if cash <= 0 {
            Err(BankError::InvalidAmount)
        } else if cash > self.cash_reserves {
            Err(BankError::InsufficientReserves)
        } else {
            Ok((self.stocked(self.fee(card) - cash), card.credited(-(cash + self.fee(card)))))
        }
    }

    /// If a deposit of `cash` into `card` goes through, the new reserve and
    /// the new balance fit.
    pub open spec fn deposit_fits(self, card: CardView, cash: int) -> bool {
        self.deposit(card, cash) matches Ok((atm, c)) ==> atm.fits() && c.fits()
    }

    /// If a withdrawal of `cash` from `card` goes through, the new reserve and
    /// the new balance fit.
    pub open spec fn withdraw_fits(self, card: CardView, cash: int) -> bool {
        self.withdraw(card, cash) matches Ok((atm, c)) ==> atm.fits() && c.fits()
    }
}

/// A teller machine.
///
/// The reserve of a machine is never negative, and its bank code never
/// changes.
#[derive(Debug)]
pub struct ATM {
    bank_id: BankCode,
    cash_reserves: i32,
}

impl View for ATM {
    type V = AtmView;

    closed spec fn view(&self) -> AtmView {
        AtmView { bank_id: self.bank_id@, cash_reserves: self.cash_reserves as int }
    }
}

impl ATM {
    /// Every machine in existence has a well-formed view.
    #[verifier::type_invariant]
    pub open spec fn well_formed(&self) -> bool {
        self@.well_formed()
    }

    /// Sets up a machine of the bank `id` that holds `reserves` in cash.
    ///
    /// The machine is set up exactly when `id` is a bank code and `reserves`
    /// is not negative. Otherwise the first of these rules that fails, in this
    /// order, is named in the error and no machine exists.
    pub fn init(id: &str, reserves: &i32) -> (r: Result<ATM, BankError>)
        ensures
            match AtmView::init(id@, *reserves as int) {
                Ok(atm) => r is Ok && r->Ok_0@ == atm,
                Err(e) => r == Err::<ATM, BankError>(e),
            },
    {
        let bank_id = match BankCode::parse(id) {
            Ok(code) => code,
            Err(e) => { return Err(e); },
        };
        if *reserves < 0 {
            return Err(BankError::InvalidConstruction(Fault::NegativeReserves));
        }
        proof {
            use_type_invariant(&bank_id);
        }
        Ok(ATM { bank_id, cash_reserves: *reserves })
    }

    /// The code of the bank that runs the machine, as text.
    pub fn get_bank_id(&self) -> (id: &str)
        ensures
            id@ == self@.bank_id,
            is_bank_code(id@),
    {
        self.bank_id.as_str()
    }

    /// The cash that the machine holds.
    pub fn get_cash_reserve(&self) -> (reserve: &i32)
        ensures
            *reserve == self@.cash_reserves,
            *reserve >= 0,
    {
        proof {
            use_type_invariant(self);
        }
        &self.cash_reserves
    }

    /// The fee that this machine takes on a transaction with `card`.
    pub fn fee_for(&self, card: &DebitCard) -> (fee: i32)
        ensures
            fee == self@.fee(card@),
    {
        if self.bank_id.same_bank(card.bank_code()) {
            0
        } else {
            CROSS_BANK_FEE
        }
    }

    /// Tells whether [`ATM::deposit`] may be called with `card` and `cash`:
    /// whether what it would leave lies in the range of `i32`.
    pub fn deposit_fits(&self, card: &DebitCard, cash: i32) -> (r: bool)
        ensures
            r == self@.deposit_fits(card@, cash as int),
    {
        if cash <= 0 {
            return true;
        }
        let fee: i64 = self.fee_for(card) as i64;
        let reserve: i64 = self.cash_reserves as i64 + cash as i64 + fee;
        reserve <= i32::MAX as i64 && card.credit_fits(cash as i64 - fee)
    }

    /// Tells whether [`ATM::withdraw`] may be called with `card` and `cash`:
    /// whether what it would leave lies in the range of `i32`.
    pub fn withdraw_fits(&self, card: &DebitCard, cash: i32) -> (r: bool)
        ensures
            r == self@.withdraw_fits(card@, cash as int),
    {
        proof {
            use_type_invariant(self);
        }
        if cash <= 0 || cash > self.cash_reserves {
            return true;
        }
        let fee: i64 = self.fee_for(card) as i64;
        let reserve: i64 = self.cash_reserves as i64 - cash as i64 + fee;
        reserve <= i32::MAX as i64 && card.credit_fits(-(cash as i64) - fee)
    }

    /// Pays `cash` into `card` through this machine.
    ///
    /// An amount that is not positive is refused with
    /// [`BankError::InvalidAmount`], and machine and card stay as they were.
    /// Otherwise the reserve grows by `cash` and the fee, and the balance
    /// moves by `cash` less the fee; for a card of the machine's own bank the
    /// fee is nothing. The new reserve and the new balance must lie in the
    /// range of `i32`, which [`ATM::deposit_fits`] tells.
    pub fn deposit(&mut self, card: &mut DebitCard, cash: i32) -> (r: Result<(), BankError>)
        requires
            old(self)@.deposit_fits(old(card)@, cash as int),
        ensures
            match old(self)@.deposit(old(card)@, cash as int) {
                Ok((atm, c)) => r is Ok && final(self)@ == atm && final(card)@ == c,
                Err(e) => r == Err::<(), BankError>(e) && *final(self) == *old(self)
                    && *final(card) == *old(card),
            },
            r is Ok ==> final(self)@.cash_reserves > old(self)@.cash_reserves,
    {
        if cash <= 0 {
            return Err(BankError::InvalidAmount);
        }
        proof {
            use_type_invariant(&*self);
        }
        let fee: i32 = self.fee_for(card);
        self.cash_reserves = self.cash_reserves + (cash + fee);
        card.credit(cash - fee);
        Ok(())
    }

    /// Pays `cash` out of `card` through this machine.
    ///
    /// An amount that is not positive is refused with
    /// [`BankError::InvalidAmount`], an amount above the reserve with
    /// [`BankError::InsufficientReserves`]; machine and card then stay as they
    /// were. Otherwise the balance falls by `cash` and the fee, whatever the
    /// balance is, and the reserve falls by `cash` less the fee; for a card of
    /// the machine's own bank the fee is nothing. The new reserve and the new
    /// balance must lie in the range of `i32`, which [`ATM::withdraw_fits`]
    /// tells.
    ///
    /// The reserve ends below where it began unless the card is of another
    /// bank and `cash` does not exceed the fee.
    pub fn withdraw(&mut self, card: &mut DebitCard, cash: i32) -> (r: Result<(), BankError>)
        requires
            old(self)@.withdraw_fits(old(card)@, cash as int),
        ensures
            match old(self)@.withdraw(old(card)@, cash as int) {
                Ok((atm, c)) => r is Ok && final(self)@ == atm && final(card)@ == c,
                Err(e) => r == Err::<(), BankError>(e) && *final(self) == *old(self)
                    && *final(card) == *old(card),
            },
            r is Ok && (old(self)@.same_bank(old(card)@) || cash > CROSS_BANK_FEE)
                ==> final(self)@.cash_reserves < old(self)@.cash_reserves,
    {
        if cash <= 0 {
            return Err(BankError::InvalidAmount);
        }
        proof {
            use_type_invariant(&*self);
            use_type_invariant(&*card);
        }
        if cash > self.cash_reserves {
            return Err(BankError::InsufficientReserves);
        }
        let fee: i32 = self.fee_for(card);
        self.cash_reserves = self.cash_reserves - cash + fee;
        card.credit(-cash);
        card.credit(-fee);
        Ok(())
    }
}

} // verus!
