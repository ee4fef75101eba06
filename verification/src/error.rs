//! The ways in which a construction or a transaction is refused.
use vstd::prelude::*;

verus! {

/// The rule that the arguments of a constructor broke.
#[derive(Clone, Copy, Debug, PartialEq, Eq, Structural)]
pub enum Fault {
    /// The bank code is not three decimal digits with a last digit from 1 to 9.
    MalformedBankCode,
    /// The account number is not twelve decimal digits.
    MalformedAccountNumber,
    /// The opening balance of a card is below zero.
    NegativeBalance,
    /// The opening cash reserve of a machine is below zero.
    NegativeReserves,
}

/// Why an operation was refused. A refused operation changes nothing.
#[derive(Clone, Copy, Debug, PartialEq, Eq, Structural)]
pub enum BankError {
    /// A constructor was given arguments that break the named rule.
    InvalidConstruction(Fault),
    /// A transaction was asked for an amount that is zero or negative.
    InvalidAmount,
    /// A withdrawal was asked for more cash than the machine holds.
    InsufficientReserves,
}

impl Fault {
    /// The sentence that [`Fault::message`] returns.
    pub open spec fn message_text(self) -> Seq<char> {
        match self {
            Fault::MalformedBankCode => "bank code must be three digits, the last one from 1 to 9"@,
            Fault::MalformedAccountNumber => "account number must be twelve digits"@,
            Fault::NegativeBalance => "balance must not be negative"@,
            Fault::NegativeReserves => "cash reserves must not be negative"@,
        }
    }

    /// A sentence for people that states the broken rule.
    pub fn message(&self) -> (text: &'static str)
        ensures
            text@ == self.message_text(),
    {
        match self {
            Fault::MalformedBankCode => "bank code must be three digits, the last one from 1 to 9",
            Fault::MalformedAccountNumber => "account number must be twelve digits",
            Fault::NegativeBalance => "balance must not be negative",
            Fault::NegativeReserves => "cash reserves must not be negative",
        }
    }
}

impl BankError {
    /// The sentence that [`BankError::message`] returns.
    pub open spec fn message_text(self) -> Seq<char> {
        match self {
            BankError::InvalidConstruction(fault) => fault.message_text(),
            BankError::InvalidAmount => "amount must be greater than zero"@,
            BankError::InsufficientReserves => "amount must not exceed the cash reserves"@,
        }
    }

    /// A sentence for people that states which condition failed.
    pub fn message(&self) -> (text: &'static str)
        ensures
            text@ == self.message_text(),
    {
        match self {
            BankError::InvalidConstruction(fault) => fault.message(),
            BankError::InvalidAmount => "amount must be greater than zero",
            BankError::InsufficientReserves => "amount must not exceed the cash reserves",
        }
    }
}

} // verus!
