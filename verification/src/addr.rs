//! Account addresses. The hook stores and compares addresses as plain
//! strings; a well-formed address is a non-empty string of at most 90
//! lowercase ASCII letters and digits, the shape of a bech32 account string.

use vstd::prelude::*;
use vstd::string::StringSliceAdditionalSpecFns;

use crate::error::ContractError;

verus! {

broadcast use vstd::string::is_ascii_spec_bytes, vstd::utf8::is_ascii_chars_encode_utf8;

/// A byte that may appear in a well-formed address: a lowercase ASCII
/// letter or an ASCII digit.
pub open spec fn addr_byte(b: u8) -> bool {
    (97 <= b && b <= 122) || (48 <= b && b <= 57)
}

/// A well-formed address: between 1 and 90 ASCII characters, each a
/// lowercase letter or a digit.
pub open spec fn valid_addr(s: Seq<char>) -> bool {
    &&& 1 <= s.len() <= 90
    &&& vstd::utf8::is_ascii_chars(s)
    &&& forall|i: int| 0 <= i < s.len() ==> addr_byte(#[trigger] (s[i] as u8))
}

/// A validated account address.
#[derive(Debug)]
pub struct Address {
    text: String,
}

impl View for Address {
    type V = Seq<char>;

    closed spec fn view(&self) -> Seq<char> {
        self.text@
    }
}

impl Clone for Address {
    fn clone(&self) -> (r: Self)
        ensures
            r@ == self@,
    {
        Address { text: self.text.clone() }
    }
}

impl Address {
    /// A well-formed address holds only what `valid_addr` admits.
    pub open spec fn wf(self) -> bool {
        valid_addr(self@)
    }

    /// Checks the given string and accepts it as an address exactly when it
    /// is well-formed.
    pub fn validate(s: &str) -> (r: Result<Address, ContractError>)
        ensures
            r matches Ok(a) ==> valid_addr(s@) && a@ == s@ && a.wf(),
            r is Err ==> !valid_addr(s@) && (r matches Err(e) && e
                == ContractError::ValidationError),
    {
        if !s.is_ascii() {
            return Err(ContractError::ValidationError);
        }
        let bytes = s.as_bytes();
        let n = bytes.len();
        if n < 1 || n > 90 {
            return Err(ContractError::ValidationError);
        }
        let mut i: usize = 0;
        while i < n
            invariant
                n == bytes@.len(),
                bytes@ == s.spec_bytes(),
                vstd::utf8::is_ascii_chars(s@),
                i <= n,
                forall|j: int| 0 <= j < i ==> addr_byte(#[trigger] bytes@[j]),
            decreases n - i,
        {
            let b = bytes[i];
            if !((97 <= b && b <= 122) || (48 <= b && b <= 57)) {
                assert(s@[i as int] as u8 == bytes@[i as int]);
                return Err(ContractError::ValidationError);
            }
            i = i + 1;
        }
        assert forall|j: int| 0 <= j < s@.len() implies addr_byte(#[trigger] (s@[j] as u8)) by {
            assert(s@[j] as u8 == bytes@[j]);
        }
        Ok(Address { text: s.to_owned() })
    }

    /// The address as a string slice.
    pub fn as_str(&self) -> (r: &str)
        ensures
            r@ == self@,
    {
        self.text.as_str()
    }

    /// The address as an owned string.
    pub fn to_text(&self) -> (r: String)
        ensures
            r@ == self@,
    {
        self.text.clone()
    }

    /// Whether two addresses spell the same account.
    pub fn same_as(&self, other: &Address) -> (r: bool)
        ensures
            r == (self@ == other@),
    {
        self.text == other.text
    }
}

} // verus!
