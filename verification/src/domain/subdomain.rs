//! The optional subdomain part: one or more dot-separated labels.

use vstd::prelude::*;

use crate::chars::{is_digit, is_lower, to_lower};
use crate::domain::DomainError;

verus! {

/// A character admitted in a normalized subdomain.
pub open spec fn sub_char(c: char) -> bool {
    is_lower(c) || is_digit(c) || c == '.' || c == '-'
}

/// A normalized subdomain: non-empty, over `[a-z0-9.-]`, neither
/// starting nor ending with `.` or `-`.
pub open spec fn valid_sub(s: Seq<char>) -> bool {
    &&& s.len() > 0
    &&& s[0] != '.' && s[0] != '-'
    &&& s[s.len() - 1] != '.' && s[s.len() - 1] != '-'
    &&& forall|i: int| 0 <= i < s.len() ==> sub_char(#[trigger] s[i])
}

/// What parsing a raw subdomain yields: the lowercased subdomain, or
/// the distinguishing error.
pub open spec fn parse_sub(s: Seq<char>) -> Result<Seq<char>, DomainError> {
    if valid_sub(to_lower(s)) {
        Ok(to_lower(s))
    } else {
        Err(DomainError::InvalidSubdomain)
    }
}

/// A validated, lowercase-normalized subdomain.
#[derive(Debug)]
pub struct SubDomain(pub String);

impl View for SubDomain {
    type V = Seq<char>;

    open spec fn view(&self) -> Seq<char> {
        self.0@
    }
}

impl SubDomain {
    pub open spec fn wf(&self) -> bool {
        valid_sub(self@)
    }

    pub fn to_string(&self) -> (r: String)
        ensures
            r@ == self@,
    {
        self.0.clone()
    }

    pub(crate) fn is_valid_char(c: char) -> (r: bool)
        ensures
            r == sub_char(c),
    {
        let u: u32 = c as u32;
        (97 <= u && u <= 122) || (48 <= u && u <= 57) || c == '.' || c == '-'
    }

    pub fn is_valid(subdomain: &str) -> (r: bool)
        ensures
            r == valid_sub(subdomain@),
    {
        let len: usize = subdomain.unicode_len();
        if len == 0 {
            return false;
        }
        let first = subdomain.get_char(0);
        let last = subdomain.get_char(len - 1);
        if first == '.' || first == '-' || last == '.' || last == '-' {
            return false;
        }
        let mut i: usize = 0;
        while i < len
            invariant
                len == subdomain@.len(),
                i <= len,
                forall|j: int| 0 <= j < i ==> sub_char(#[trigger] subdomain@[j]),
            decreases len - i,
        {
            if !Self::is_valid_char(subdomain.get_char(i)) {
                return false;
            }
            i = i + 1;
        }
        true
    }

    /// Lowercases the input and accepts it only as a valid subdomain.
    pub fn from_str(value: &str) -> (r: Result<SubDomain, DomainError>)
        ensures
            r is Ok <==> parse_sub(value@) is Ok,
            r matches Ok(s) ==> s@ == parse_sub(value@)->Ok_0 && s.wf(),
            r matches Err(e) ==> e == parse_sub(value@)->Err_0,
    {
        let low = crate::chars::to_lowercase(value);
        if !Self::is_valid(low.as_str()) {
            return Err(DomainError::InvalidSubdomain);
        }
        Ok(SubDomain(low))
    }
}

} // verus!
