//! The three-digit code that identifies a bank.
use vstd::prelude::*;
use crate::digits::{is_digit, is_digit_string};
use crate::error::{BankError, Fault};

verus! {

/// `s` is a bank code: three characters, of which the first two are decimal
/// digits and the third is a digit from 1 to 9. The first two digits are free;
/// only the third may not be zero.
pub open spec fn is_bank_code(s: Seq<char>) -> bool {
    &&& s.len() == 3
    &&& is_digit(s[0])
    &&& is_digit(s[1])
    &&& '1' <= s[2] <= '9'
}

/// Tells whether `s` is a bank code.
pub fn is_valid_bank_code(s: &str) -> (r: bool)
    ensures
        r == is_bank_code(s@),
{
    is_digit_string(s, 3) && s.get_char(2) != '0'
}

/// A bank code that has been checked. Its view is the code's three characters.
#[derive(Debug)]
pub struct BankCode {
    text: String,
}

impl View for BankCode {
    type V = Seq<char>;

    closed spec fn view(&self) -> Seq<char> {
        self.text@
    }
}

impl BankCode {
    /// Every bank code in existence is well formed.
    #[verifier::type_invariant]
    pub open spec fn well_formed(&self) -> bool {
        is_bank_code(self@)
    }

    /// Checks `s` and keeps a copy of it. Anything but a bank code is refused
    /// with [`Fault::MalformedBankCode`].
    pub fn parse(s: &str) -> (r: Result<BankCode, BankError>)
        ensures
            is_bank_code(s@) ==> r is Ok && r->Ok_0@ == s@,
            !is_bank_code(s@) ==> r == Err::<BankCode, BankError>(
                BankError::InvalidConstruction(Fault::MalformedBankCode),
            ),
    {
        if is_valid_bank_code(s) {
            Ok(BankCode { text: s.to_owned() })
        } else {
            Err(BankError::InvalidConstruction(Fault::MalformedBankCode))
        }
    }

    /// The code as text.
    pub fn as_str(&self) -> (s: &str)
        ensures
            s@ == self@,
            is_bank_code(s@),
    {
        proof {
            use_type_invariant(self);
        }
        self.text.as_str()
    }

    /// Tells whether two codes name the same bank.
    pub fn same_bank(&self, other: &BankCode) -> (r: bool)
        ensures
            r == (self@ == other@),
    {
        self.text == other.text
    }
}

} // verus!
