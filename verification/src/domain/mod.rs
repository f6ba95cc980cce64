//! The domain value: a validated (subdomain, name, TLD) triple with a
//! canonical string form used for both file paths and server-name
//! directives.

use vstd::prelude::*;
use vstd::string::StringExecFns;

pub mod domain_name;
pub mod subdomain;
pub mod tld;

use crate::chars::{is_digit, is_lower, split_on, to_lower};
use crate::domain::domain_name::{parse_name, valid_name, DomainName};
use crate::domain::subdomain::{parse_sub, valid_sub, SubDomain};
use crate::domain::tld::{parse_tld, tld_charset_ok, valid_tld, Tld};

verus! {

/// Why a raw domain input was rejected.
#[derive(Debug, Clone, Copy, PartialEq, Eq, Structural)]
pub enum DomainError {
    MissingTld,
    InvalidName,
    InvalidSubdomain,
    InvalidTld,
    TldTooShort,
}

/// The mathematical content of a domain value: its three normalized
/// parts as character sequences.
pub struct DomainView {
    pub name: Seq<char>,
    pub tld: Seq<char>,
    pub subdomain: Option<Seq<char>>,
}

impl DomainView {
    /// Every part satisfies its own validity rule.
    pub open spec fn wf(&self) -> bool {
        &&& valid_name(self.name)
        &&& valid_tld(self.tld)
        &&& match self.subdomain {
            Some(s) => valid_sub(s),
            None => true,
        }
    }

    /// The registrable domain: `name.tld`, without any subdomain.
    pub open spec fn registrable(&self) -> Seq<char> {
        self.name + seq!['.'] + self.tld
    }

    /// The canonical string form: `subdomain.name.tld` when a
    /// subdomain is present, else `name.tld`.
    pub open spec fn canonical(&self) -> Seq<char> {
        match self.subdomain {
            Some(s) => s + seq!['.'] + self.registrable(),
            None => self.registrable(),
        }
    }

    /// The configuration file name shared by all subdomains of one
    /// registrable domain: `name.tld.conf`.
    pub open spec fn conf_file(&self) -> Seq<char> {
        self.registrable() + ".conf"@
    }
}

/// What parsing a raw triple yields: each part is validated in turn,
/// and the first offending part decides the error.
pub open spec fn parse_domain(
    name: Seq<char>,
    tld: Seq<char>,
    subdomain: Option<Seq<char>>,
) -> Result<DomainView, DomainError> {
    if parse_name(name) is Err {
        Err(parse_name(name)->Err_0)
    } else if parse_tld(tld) is Err {
        Err(parse_tld(tld)->Err_0)
    } else {
        match subdomain {
            Some(s) => if parse_sub(s) is Err {
                Err(parse_sub(s)->Err_0)
            } else {
                Ok(
                    DomainView {
                        name: parse_name(name)->Ok_0,
                        tld: parse_tld(tld)->Ok_0,
                        subdomain: Some(parse_sub(s)->Ok_0),
                    },
                )
            },
            None => Ok(
                DomainView {
                    name: parse_name(name)->Ok_0,
                    tld: parse_tld(tld)->Ok_0,
                    subdomain: None,
                },
            ),
        }
    }
}

/// A character admitted in a whole dotted domain string.
pub open spec fn full_char(c: char) -> bool {
    is_lower(c) || is_digit(c) || c == '.'
}

/// What parsing a whole dotted domain string yields: the lowercased
/// string is split at the dots into two (name, TLD) or three
/// (subdomain, name, TLD) parts, each validated as in `parse_domain`.
pub open spec fn parse_full(s: Seq<char>) -> Result<DomainView, DomainError> {
    let low = to_lower(s);
    if low.len() < 4 || (exists|i: int| 0 <= i < low.len() && !full_char(#[trigger] low[i])) {
        Err(DomainError::InvalidName)
    } else {
        let parts = split_on(low, '.');
        if exists|k: int| 0 <= k < parts.len() && (#[trigger] parts[k]).len() == 0 {
            Err(DomainError::InvalidName)
        } else if parts.len() <= 1 {
            Err(DomainError::MissingTld)
        } else if parts.len() == 2 {
            parse_domain(parts[0], parts[1], None)
        } else if parts.len() == 3 {
            parse_domain(parts[1], parts[2], Some(parts[0]))
        } else {
            Err(DomainError::InvalidName)
        }
    }
}

/// The characters a canonical domain string can hold: lowercase
/// letters, digits, dots and hyphens.  In particular it holds no
/// whitespace, no line break and no comment marker.
pub proof fn lemma_canonical_charset(d: DomainView)
    requires
        d.wf(),
    ensures
        d.canonical().len() > 0,
        forall|i: int|
            0 <= i < d.canonical().len() ==> (is_lower(#[trigger] d.canonical()[i]) || is_digit(
                d.canonical()[i],
            ) || d.canonical()[i] == '.' || d.canonical()[i] == '-'),
        is_lower(d.canonical().last()) || is_digit(d.canonical().last()),
{
    let reg = d.registrable();
    let nl = d.name.len() as int;
    assert forall|i: int|
        0 <= i < reg.len() implies (is_lower(#[trigger] reg[i]) || is_digit(reg[i]) || reg[i]
        == '.' || reg[i] == '-') by {
        if i < nl {
            assert(reg[i] == d.name[i]);
        } else if i == nl {
            assert(reg[i] == '.');
        } else {
            assert(reg[i] == d.tld[i - nl - 1]);
        }
    }
    assert(reg.last() == d.tld.last());
    assert(d.tld.last() != '.');
    let c = d.canonical();
    match d.subdomain {
        Some(s) => {
            let sl = s.len() as int;
            assert forall|i: int|
                0 <= i < c.len() implies (is_lower(#[trigger] c[i]) || is_digit(c[i]) || c[i]
                == '.' || c[i] == '-') by {
                if i < sl {
                    assert(c[i] == s[i]);
                } else if i == sl {
                    assert(c[i] == '.');
                } else {
                    assert(c[i] == reg[i - sl - 1]);
                }
            }
            assert(c.last() == reg.last());
        },
        None => {
            assert(c == reg);
        },
    }
}

/// Law: every triple whose normalized parts satisfy the charset and
/// boundary rules parses, and its canonical form round-trips to
/// `subdomain.name.tld`, or `name.tld` without a subdomain.
pub proof fn lemma_valid_parse_round_trip(
    name: Seq<char>,
    tld: Seq<char>,
    subdomain: Option<Seq<char>>,
)
    requires
        valid_name(to_lower(name)),
        valid_tld(to_lower(tld)),
        subdomain matches Some(s) ==> valid_sub(to_lower(s)),
    ensures
        parse_domain(name, tld, subdomain) is Ok,
        parse_domain(name, tld, subdomain)->Ok_0.wf(),
        parse_domain(name, tld, subdomain)->Ok_0.canonical() == match subdomain {
            Some(s) => to_lower(s) + seq!['.'] + to_lower(name) + seq!['.'] + to_lower(tld),
            None => to_lower(name) + seq!['.'] + to_lower(tld),
        },
{
    assert(to_lower(tld).len() == tld.len());
    match subdomain {
        Some(s) => {
            let d = parse_domain(name, tld, subdomain)->Ok_0;
            assert(d.canonical() =~= to_lower(s) + seq!['.'] + to_lower(name) + seq!['.']
                + to_lower(tld));
        },
        None => {
            let d = parse_domain(name, tld, subdomain)->Ok_0;
            assert(d.canonical() =~= to_lower(name) + seq!['.'] + to_lower(tld));
        },
    }
}

/// Law: each offending part is rejected with its own distinguishing
/// error.  An invalid name wins over everything; with a valid name an
/// empty TLD is missing, a one-character TLD too short, another
/// charset or boundary offence invalid; with valid name and TLD an
/// invalid subdomain is rejected as such.
pub proof fn lemma_distinguishing_errors(
    name: Seq<char>,
    tld: Seq<char>,
    subdomain: Option<Seq<char>>,
)
    ensures
        !valid_name(to_lower(name)) ==> parse_domain(name, tld, subdomain) == Err::<
            DomainView,
            DomainError,
        >(DomainError::InvalidName),
        valid_name(to_lower(name)) && tld.len() == 0 ==> parse_domain(name, tld, subdomain)
            == Err::<DomainView, DomainError>(DomainError::MissingTld),
        valid_name(to_lower(name)) && tld.len() == 1 ==> parse_domain(name, tld, subdomain)
            == Err::<DomainView, DomainError>(DomainError::TldTooShort),
        valid_name(to_lower(name)) && tld.len() >= 2 && !tld_charset_ok(to_lower(tld))
            ==> parse_domain(name, tld, subdomain) == Err::<DomainView, DomainError>(
            DomainError::InvalidTld,
        ),
        subdomain matches Some(s) ==> (valid_name(to_lower(name)) && valid_tld(to_lower(tld))
            && !valid_sub(to_lower(s)) ==> parse_domain(name, tld, subdomain) == Err::<
            DomainView,
            DomainError,
        >(DomainError::InvalidSubdomain)),
{
    assert(to_lower(tld).len() == tld.len());
}

/// Law: parsing is case-insensitive in every part; the already
/// lowercased triple parses to the very same result.
pub proof fn lemma_parse_case_insensitive(
    name: Seq<char>,
    tld: Seq<char>,
    subdomain: Option<Seq<char>>,
)
    ensures
        parse_domain(name, tld, subdomain) == parse_domain(
            to_lower(name),
            to_lower(tld),
            match subdomain {
                Some(s) => Some(to_lower(s)),
                None => None,
            },
        ),
{
    crate::chars::lemma_to_lower_idempotent(name);
    crate::chars::lemma_to_lower_idempotent(tld);
    assert(to_lower(tld).len() == tld.len());
    match subdomain {
        Some(s) => {
            crate::chars::lemma_to_lower_idempotent(s);
        },
        None => {},
    }
}

/// The view of an optional raw subdomain argument.
pub open spec fn opt_view(s: Option<&str>) -> Option<Seq<char>> {
    match s {
        Some(x) => Some(x@),
        None => None,
    }
}

/// An immutable, validated domain value.
#[derive(Debug)]
pub struct Domain {
    name: DomainName,
    tld: Tld,
    subdomain: Option<SubDomain>,
}

impl View for Domain {
    type V = DomainView;

    closed spec fn view(&self) -> DomainView {
        DomainView {
            name: self.name@,
            tld: self.tld@,
            subdomain: match self.subdomain {
                Some(s) => Some(s@),
                None => None,
            },
        }
    }
}

impl PartialEq for Domain {
    fn eq(&self, other: &Self) -> (r: bool) {
        let parts_eq = self.name.0 == other.name.0 && self.tld.0 == other.tld.0;
        let sub_eq = match (&self.subdomain, &other.subdomain) {
            (Some(a), Some(b)) => a.0 == b.0,
            (None, None) => true,
            _ => false,
        };
        parts_eq && sub_eq
    }
}

impl vstd::std_specs::cmp::PartialEqSpecImpl for Domain {
    open spec fn obeys_eq_spec() -> bool {
        true
    }

    open spec fn eq_spec(&self, other: &Domain) -> bool {
        self@ == other@
    }
}

impl Domain {
    pub open spec fn wf(&self) -> bool {
        self@.wf()
    }

    /// Validates each raw part and assembles the domain; the first
    /// offending part decides the error.
    pub fn new(name: &str, tld: &str, subdomain: Option<&str>) -> (r: Result<Domain, DomainError>)
        ensures
            r is Ok <==> parse_domain(name@, tld@, opt_view(subdomain)) is Ok,
            r matches Ok(d) ==> d@ == parse_domain(name@, tld@, opt_view(subdomain))->Ok_0
                && d.wf(),
            r matches Err(e) ==> e == parse_domain(name@, tld@, opt_view(subdomain))->Err_0,
    {
        let name = match DomainName::from_str(name) {
            Ok(n) => n,
            Err(e) => {
                return Err(e);
            },
        };
        let tld = match Tld::from_str(tld) {
            Ok(t) => t,
            Err(e) => {
                return Err(e);
            },
        };
        let subdomain = match subdomain {
            Some(sub) => match SubDomain::from_str(sub) {
                Ok(s) => Some(s),
                Err(e) => {
                    return Err(e);
                },
            },
            None => None,
        };
        Ok(Domain { name, tld, subdomain })
    }

    /// Assembles a domain from already validated parts.
    pub fn from_parts(name: DomainName, tld: Tld, subdomain: Option<SubDomain>) -> (r: Domain)
        ensures
            r@ == (DomainView {
                name: name@,
                tld: tld@,
                subdomain: match subdomain {
                    Some(s) => Some(s@),
                    None => None,
                },
            }),
    {
        Domain { name, tld, subdomain }
    }

    /// As `new`, for inputs known to be valid.
    pub fn new_unchecked(name: &str, tld: &str, subdomain: Option<&str>) -> (r: Domain)
        requires
            parse_domain(name@, tld@, opt_view(subdomain)) is Ok,
        ensures
            r@ == parse_domain(name@, tld@, opt_view(subdomain))->Ok_0,
            r.wf(),
    {
        Self::new(name, tld, subdomain).unwrap()
    }

    /// Parses a whole dotted domain string, `name.tld` or
    /// `subdomain.name.tld`.
    pub fn try_from(value: &str) -> (r: Result<Domain, DomainError>)
        ensures
            r is Ok <==> parse_full(value@) is Ok,
            r matches Ok(d) ==> d@ == parse_full(value@)->Ok_0 && d.wf(),
            r matches Err(e) ==> e == parse_full(value@)->Err_0,
    {
        let low = crate::chars::to_lowercase(value);
        let len: usize = low.as_str().unicode_len();
        if len < 4 {
            return Err(DomainError::InvalidName);
        }
        let mut i: usize = 0;
        while i < len
            invariant
                low@ == to_lower(value@),
                len == low@.len(),
                i <= len,
                forall|j: int| 0 <= j < i ==> full_char(#[trigger] low@[j]),
            decreases len - i,
        {
            if !Self::is_valid_char(low.as_str().get_char(i)) {
                proof {
                    assert(!full_char(to_lower(value@)[i as int]));
                    assert(exists|j: int|
                        0 <= j < to_lower(value@).len() && !full_char(
                            #[trigger] to_lower(value@)[j],
                        ));
                }
                return Err(DomainError::InvalidName);
            }
            i = i + 1;
        }
        proof {
            assert(!(exists|j: int|
                0 <= j < to_lower(value@).len() && !full_char(#[trigger] to_lower(value@)[j])));
        }
        let parts = crate::chars::split_str(low.as_str(), '.');
        let n_parts: usize = parts.len();
        let mut k: usize = 0;
        while k < n_parts
            invariant
                low@ == to_lower(value@),
                n_parts == parts.len(),
                parts.deep_view() == split_on(low@, '.'),
                k <= n_parts,
                forall|j: int| 0 <= j < k ==> (#[trigger] parts.deep_view()[j]).len() > 0,
            decreases n_parts - k,
        {
            if parts[k].as_str().is_empty() {
                proof {
                    let ghost pieces = split_on(to_lower(value@), '.');
                    assert(parts.deep_view()[k as int] == pieces[k as int]);
                    assert(exists|j: int|
                        0 <= j < pieces.len() && (#[trigger] pieces[j]).len() == 0);
                }
                return Err(DomainError::InvalidName);
            }
            proof {
                assert(parts.deep_view()[k as int].len() > 0);
            }
            k = k + 1;
        }
        proof {
            let ghost pieces = split_on(to_lower(value@), '.');
            assert(forall|j: int| 0 <= j < pieces.len() ==> parts.deep_view()[j] == pieces[j]);
            assert(!(exists|j: int| 0 <= j < pieces.len() && (#[trigger] pieces[j]).len() == 0));
        }
        proof {
            let ghost pieces = split_on(to_lower(value@), '.');
            assert(parts.deep_view().len() == parts@.len());
            assert(forall|j: int|
                0 <= j < parts@.len() ==> #[trigger] parts.deep_view()[j] == parts@[j]@);
        }
        if n_parts <= 1 {
            return Err(DomainError::MissingTld);
        }
        if n_parts == 2 {
            return Self::new(parts[0].as_str(), parts[1].as_str(), None);
        }
        if n_parts == 3 {
            return Self::new(parts[1].as_str(), parts[2].as_str(), Some(parts[0].as_str()));
        }
        Err(DomainError::InvalidName)
    }

    pub fn get_name(&self) -> (r: DomainName)
        ensures
            r@ == self@.name,
    {
        DomainName(self.name.0.clone())
    }

    pub fn get_tld(&self) -> (r: Tld)
        ensures
            r@ == self@.tld,
    {
        Tld(self.tld.0.clone())
    }

    pub fn has_subdomain(&self) -> (r: bool)
        ensures
            r == (self@.subdomain is Some),
    {
        match &self.subdomain {
            Some(_) => true,
            None => false,
        }
    }

    pub fn get_subdomain(&self) -> (r: Option<String>)
        ensures
            match r {
                Some(s) => self@.subdomain == Some(s@),
                None => self@.subdomain is None,
            },
    {
        match &self.subdomain {
            Some(s) => Some(s.0.clone()),
            None => None,
        }
    }

    pub(crate) fn is_valid_char(c: char) -> (r: bool)
        ensures
            r == full_char(c),
    {
        let u: u32 = c as u32;
        (97 <= u && u <= 122) || (48 <= u && u <= 57) || c == '.'
    }

    /// The registrable domain string `name.tld`.
    pub fn name_with_tld(&self) -> (r: String)
        ensures
            r@ == self@.registrable(),
    {
        let mut r = self.name.0.clone();
        r.append(".");
        r.append(self.tld.0.as_str());
        proof {
            reveal_strlit(".");
            assert("."@ =~= seq!['.']);
            assert(r@ =~= self@.registrable());
        }
        r
    }

    /// The canonical string form, used verbatim both in generated
    /// configuration text and in filesystem paths.
    pub fn to_string(&self) -> (r: String)
        ensures
            r@ == self@.canonical(),
    {
        let mut r = String::new();
        if let Some(sub) = &self.subdomain {
            r.append(sub.0.as_str());
            r.append(".");
        }
        r.append(self.name.0.as_str());
        r.append(".");
        r.append(self.tld.0.as_str());
        proof {
            reveal_strlit(".");
            assert("."@ =~= seq!['.']);
            assert(r@ =~= self@.canonical());
        }
        r
    }

    /// The configuration file name `name.tld.conf`.
    pub fn conf_file_name(&self) -> (r: String)
        ensures
            r@ == self@.conf_file(),
    {
        let mut r = self.name_with_tld();
        r.append(".conf");
        r
    }
}

} // verus!
