//! The registrable name label of a domain: the part before the TLD.

use vstd::prelude::*;

use crate::chars::{is_digit, is_lower, to_lower};
use crate::domain::DomainError;

verus! {

/// A character admitted in a normalized domain name label.
pub open spec fn name_char(c: char) -> bool {
    is_lower(c) || is_digit(c) || c == '-'
}

/// A normalized (lowercase) domain name label: non-empty, over
/// `[a-z0-9-]`, neither starting nor ending with `-`.
pub open spec fn valid_name(s: Seq<char>) -> bool {
    &&& s.len() > 0
    &&& s[0] != '-'
    &&& s[s.len() - 1] != '-'
    &&& forall|i: int| 0 <= i < s.len() ==> name_char(#[trigger] s[i])
}

/// What parsing a raw name yields: the lowercased label, or the
/// distinguishing error.
pub open spec fn parse_name(s: Seq<char>) -> Result<Seq<char>, DomainError> {
    if valid_name(to_lower(s)) {
        Ok(to_lower(s))
    } else {
        Err(DomainError::InvalidName)
    }
}

/// A validated, lowercase-normalized domain name label.
#[derive(Debug)]
pub struct DomainName(pub String);

impl View for DomainName {
    type V = Seq<char>;

    open spec fn view(&self) -> Seq<char> {
        self.0@
    }
}

impl DomainName {
    /// The label as held by a well-formed value.
    pub open spec fn wf(&self) -> bool {
        valid_name(self@)
    }

    pub fn get_name(&self) -> (r: String)
        ensures
            r@ == self@,
    {
        self.0.clone()
    }

    pub fn to_string(&self) -> (r: String)
        ensures
            r@ == self@,
    {
        self.0.clone()
    }

    pub(crate) fn is_valid_char(c: char) -> (r: bool)
        ensures
            r == name_char(c),
    {
        let u: u32 = c as u32;
        (97 <= u && u <= 122) || (48 <= u && u <= 57) || c == '-'
    }

    pub fn is_valid(name: &str) -> (r: bool)
        ensures
            r == valid_name(name@),
    {
        let len: usize = name.unicode_len();
        if len == 0 {
            return false;
        }
        if name.get_char(0) == '-' || name.get_char(len - 1) == '-' {
            return false;
        }
        let mut i: usize = 0;
        while i < len
            invariant
                len == name@.len(),
                i <= len,
                forall|j: int| 0 <= j < i ==> name_char(#[trigger] name@[j]),
            decreases len - i,
        {
            if !Self::is_valid_char(name.get_char(i)) {
                return false;
            }
            i = i + 1;
        }
        true
    }

    /// Lowercases the input and accepts it only as a valid name label.
    pub fn from_str(value: &str) -> (r: Result<DomainName, DomainError>)
        ensures
            r is Ok <==> parse_name(value@) is Ok,
            r matches Ok(d) ==> d@ == parse_name(value@)->Ok_0 && d.wf(),
            r matches Err(e) ==> e == parse_name(value@)->Err_0,
    {
        let low = crate::chars::to_lowercase(value);
        if !Self::is_valid(low.as_str()) {
            return Err(DomainError::InvalidName);
        }
        Ok(DomainName(low))
    }
}

} // verus!
