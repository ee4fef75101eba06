//! The twelve-digit number that identifies a card's account.
use vstd::prelude::*;
use crate::digits::{is_digit, is_digit_string};
use crate::error::{BankError, Fault};

verus! {

/// `s` is an account number: twelve characters, each of them a decimal digit
/// and each of them free.
pub open spec fn is_account_number(s: Seq<char>) -> bool {
    &&& s.len() == 12
    &&& is_digit(s[0])
    &&& is_digit(s[1])
    &&& is_digit(s[2])
    &&& is_digit(s[3])
    &&& is_digit(s[4])
    &&& is_digit(s[5])
    &&& is_digit(s[6])
    &&& is_digit(s[7])
    &&& is_digit(s[8])
    &&& is_digit(s[9])
    &&& is_digit(s[10])
    &&& is_digit(s[11])
}

/// Tells whether `s` is an account number.
pub fn is_valid_account_number(s: &str) -> (r: bool)
    ensures
        r == is_account_number(s@),
{
    is_digit_string(s, 12)
}

/// An account number that has been checked. Its view is the number's twelve
/// characters.
#[derive(Debug)]
pub struct AccountNumber {
    text: String,
}

impl View for AccountNumber {
    type V = Seq<char>;

    closed spec fn view(&self) -> Seq<char> {
        self.text@
    }
}

impl AccountNumber {
    /// Every account number in existence is well formed.
    #[verifier::type_invariant]
    pub open spec fn well_formed(&self) -> bool {
        is_account_number(self@)
    }

    /// Checks `s` and keeps a copy of it. Anything but an account number is
    /// refused with [`Fault::MalformedAccountNumber`].
    pub fn parse(s: &str) -> (r: Result<AccountNumber, BankError>)
        ensures
            is_account_number(s@) ==> r is Ok && r->Ok_0@ == s@,
            !is_account_number(s@) ==> r == Err::<AccountNumber, BankError>(
                BankError::InvalidConstruction(Fault::MalformedAccountNumber),
            ),
    {
        if is_valid_account_number(s) {
            Ok(AccountNumber { text: s.to_owned() })
        } else {
            Err(BankError::InvalidConstruction(Fault::MalformedAccountNumber))
        }
    }

    /// The number as text.
    pub fn as_str(&self) -> (s: &str)
        ensures
            s@ == self@,
            is_account_number(s@),
    {
        proof {
            use_type_invariant(self);
        }
        self.text.as_str()
    }
}

} // verus!
