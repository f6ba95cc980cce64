//! The top-level-domain part: one or more dot-separated labels.

use vstd::prelude::*;

use crate::chars::{is_digit, is_lower, to_lower};
use crate::domain::DomainError;

verus! {

/// A character admitted in a normalized TLD.
pub open spec fn tld_char(c: char) -> bool {
    is_lower(c) || is_digit(c) || c == '.'
}

/// The charset and boundary rule alone: non-empty, over `[a-z0-9.]`,
/// neither starting nor ending with `.`.  The minimum length is asked
/// for separately, when a raw TLD is parsed.
pub open spec fn tld_charset_ok(s: Seq<char>) -> bool {
    &&& s.len() > 0
    &&& s[0] != '.'
    &&& s[s.len() - 1] != '.'
    &&& forall|i: int| 0 <= i < s.len() ==> tld_char(#[trigger] s[i])
}

/// A normalized TLD as held by a well-formed value: charset rules plus
/// the minimum normalized length of 2.
pub open spec fn valid_tld(s: Seq<char>) -> bool {
    s.len() >= 2 && tld_charset_ok(s)
}

/// What parsing a raw TLD yields: the lowercased TLD, or the
/// distinguishing error.
pub open spec fn parse_tld(s: Seq<char>) -> Result<Seq<char>, DomainError> {
    if s.len() == 0 {
        Err(DomainError::MissingTld)
    } else if s.len() < 2 {
        Err(DomainError::TldTooShort)
    } else if !tld_charset_ok(to_lower(s)) {
        Err(DomainError::InvalidTld)
    } else {
        Ok(to_lower(s))
    }
}

/// A validated, lowercase-normalized TLD.
#[derive(Debug)]
pub struct Tld(pub String);

impl View for Tld {
    type V = Seq<char>;

    open spec fn view(&self) -> Seq<char> {
        self.0@
    }
}

impl Tld {
    pub open spec fn wf(&self) -> bool {
        valid_tld(self@)
    }

    pub fn get(&self) -> (r: String)
        ensures
            r@ == self@,
    {
        self.0.clone()
    }

    pub fn to_string(&self) -> (r: String)
        ensures
            r@ == self@,
    {
        self.0.clone()
    }

    pub(crate) fn is_valid_char(c: char) -> (r: bool)
        ensures
            r == tld_char(c),
    {
        let u: u32 = c as u32;
        (97 <= u && u <= 122) || (48 <= u && u <= 57) || c == '.'
    }

    pub fn is_valid(value: &str) -> (r: bool)
        ensures
            r == tld_charset_ok(value@),
    {
        let len: usize = value.unicode_len();
        if len == 0 {
            return false;
        }
        if value.get_char(0) == '.' || value.get_char(len - 1) == '.' {
            return false;
        }
        let mut i: usize = 0;
        while i < len
            invariant
                len == value@.len(),
                i <= len,
                forall|j: int| 0 <= j < i ==> tld_char(#[trigger] value@[j]),
            decreases len - i,
        {
            if !Self::is_valid_char(value.get_char(i)) {
                return false;
            }
            i = i + 1;
        }
        true
    }

    /// Lowercases the input and accepts it only as a valid TLD of at
    /// least two characters.
    pub fn from_str(value: &str) -> (r: Result<Tld, DomainError>)
        ensures
            r is Ok <==> parse_tld(value@) is Ok,
            r matches Ok(t) ==> t@ == parse_tld(value@)->Ok_0 && t.wf(),
            r matches Err(e) ==> e == parse_tld(value@)->Err_0,
    {
        let len: usize = value.unicode_len();
        if len == 0 {
            return Err(DomainError::MissingTld);
        }
        if len < 2 {
            return Err(DomainError::TldTooShort);
        }
        let low = crate::chars::to_lowercase(value);
        if !Self::is_valid(low.as_str()) {
            return Err(DomainError::InvalidTld);
        }
        Ok(Tld(low))
    }
}

} // verus!
