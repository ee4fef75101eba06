//! A small banking model: debit cards and the teller machines that serve them.
//!
//! Every bank is known by a three-digit code. A [`debit_card::DebitCard`]
//! carries an account number, a balance and the code of the bank that issued
//! it; an [`atm::ATM`] carries the code of the bank that runs it and a cash
//! reserve. A machine pays into and out of a card, and takes a flat fee
//! whenever the card was issued by another bank.
//!
//! Nothing malformed ever exists: the constructors refuse it with a
//! [`error::BankError`]. A transaction that is refused changes nothing. A
//! withdrawal is held against the machine's reserve but not against the card's
//! balance, so a card may end up overdrawn.
//!
//! Each operation is specified by a function on the views of the machine and
//! the card, [`atm::AtmView`] and [`debit_card::CardView`]; [`laws`] proves
//! what follows from these functions.
pub mod account_number;
pub mod atm;
pub mod bank_code;
pub mod debit_card;
pub mod digits;
pub mod error;
pub mod laws;
