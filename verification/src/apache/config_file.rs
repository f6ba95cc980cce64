//! The Apache configuration file: its name and paths, the rendered
//! server-name directive the declaration scan looks for, and the
//! decisions taken on the outcomes of the file operations.

use vstd::prelude::*;
use vstd::string::StringExecFns;

use crate::configuration_file::{contains_declaration, declares, ends_with, line_declares, trimmed};
use crate::domain::{Domain, DomainView};

verus! {

#[derive(Debug, Clone, Copy, PartialEq, Eq, Structural)]
pub enum ConfigError {
    FileSaving,
    InvalidPath,
    FileExists,
}

/// The directive the scan looks for: `ServerName <canonical-domain>`,
/// with no terminating punctuation.
pub open spec fn apache_needle(d: DomainView) -> Seq<char> {
    "ServerName "@ + d.canonical()
}

/// The directory holding the available site files.
pub open spec fn apache_conf_dir() -> Seq<char> {
    "/etc/apache/sites-available/"@
}

/// Law: the scan is exact about subdomains.  The rendered declaration
/// for a subdomain-qualified domain and the one for its bare
/// registrable domain are never suffixes of one another, so a line
/// whose trimmed text declares the one never declares the other.
pub proof fn lemma_subdomain_declaration_exact(
    d_sub: DomainView,
    d_bare: DomainView,
    line: Seq<char>,
)
    requires
        d_sub.wf(),
        d_bare.wf(),
        d_sub.subdomain is Some,
        d_bare.subdomain is None,
        d_sub.name == d_bare.name,
        d_sub.tld == d_bare.tld,
    ensures
        trimmed(line) == apache_needle(d_bare) ==> !line_declares(line, apache_needle(d_sub)),
        trimmed(line) == apache_needle(d_sub) ==> !line_declares(line, apache_needle(d_bare)),
{
    reveal_strlit("ServerName ");
    let lit = "ServerName "@;
    assert(lit.len() == 11);
    assert(lit[10] == ' ');
    let s = d_sub.subdomain->Some_0;
    let reg = d_bare.registrable();
    let nb = apache_needle(d_bare);
    let ns = apache_needle(d_sub);
    assert(d_sub.registrable() == reg);
    assert(d_sub.canonical() == (s + seq!['.']) + reg);
    assert(s.len() >= 1);
    assert(ns.len() == nb.len() + s.len() + 1);
    assert(!ends_with(nb, ns));
    if ends_with(ns, nb) {
        let off = ns.len() - nb.len();
        assert(off == s.len() + 1);
        assert(ns.subrange(off as int, ns.len() as int) == nb);
        assert(ns.subrange(off as int, ns.len() as int)[10] == ns[off + 10]);
        assert(ns[off + 10] == d_sub.canonical()[s.len() as int]);
        assert(d_sub.canonical()[s.len() as int] == '.');
        assert(nb[10] == ' ');
        assert(false);
    }
}

pub struct ConfigFile;

impl ConfigFile {
    /// The rendered server-name directive for this backend.
    pub fn server_name(domain: &Domain) -> (r: String)
        ensures
            r@ == apache_needle(domain@),
    {
        let mut r = String::from_str("ServerName ");
        r.append(domain.to_string().as_str());
        r
    }

    /// Whether the text already declares this exact domain: some
    /// trimmed, non-comment line ends with the rendered directive.
    pub fn find_domain_in_str(haystack: &str, domain: &Domain) -> (r: bool)
        ensures
            r == declares(haystack@, apache_needle(domain@)),
    {
        let needle = Self::server_name(domain);
        contains_declaration(haystack, needle.as_str())
    }

    /// The per-domain file name, `name.tld.conf`.
    pub fn file_name(domain: &Domain) -> (r: String)
        ensures
            r@ == domain@.conf_file(),
    {
        domain.conf_file_name()
    }

    /// The full path of the configuration file.
    pub fn file_path(domain: &Domain) -> (r: String)
        ensures
            r@ == apache_conf_dir() + domain@.conf_file(),
    {
        let mut r = String::from_str("/etc/apache/sites-available/");
        r.append(domain.conf_file_name().as_str());
        r
    }

    /// The full path of the backup copy, beside the file itself.
    pub fn backup_path(domain: &Domain) -> (r: String)
        ensures
            r@ == apache_conf_dir() + domain@.conf_file() + ".bak"@,
    {
        let mut r = Self::file_path(domain);
        r.append(".bak");
        r
    }

    /// The decision on handing the file to the service user: a missing
    /// file and a failed ownership change are both saving errors.
    pub fn chown_to_www(file_exists: bool, chown_succeeded: bool) -> (r: Result<(), ConfigError>)
        ensures
            !file_exists ==> r == Err::<(), ConfigError>(ConfigError::FileSaving),
            file_exists && !chown_succeeded ==> r == Err::<(), ConfigError>(
                ConfigError::FileSaving,
            ),
            file_exists && chown_succeeded ==> r == Ok::<(), ConfigError>(()),
    {
        if !file_exists {
            return Err(ConfigError::FileSaving);
        }
        if !chown_succeeded {
            return Err(ConfigError::FileSaving);
        }
        Ok(())
    }

    /// The decision on creating the file: an existing file is never
    /// silently overwritten.
    pub fn create(file_exists: bool, create_succeeded: bool) -> (r: Result<(), ConfigError>)
        ensures
            file_exists ==> r == Err::<(), ConfigError>(ConfigError::FileExists),
            !file_exists && !create_succeeded ==> r == Err::<(), ConfigError>(
                ConfigError::FileSaving,
            ),
            !file_exists && create_succeeded ==> r == Ok::<(), ConfigError>(()),
    {
        if file_exists {
            return Err(ConfigError::FileExists);
        }
        if !create_succeeded {
            return Err(ConfigError::FileSaving);
        }
        Ok(())
    }

    /// The decision on the byte-copy backup.
    pub fn create_backup(copy_succeeded: bool) -> (r: Result<(), ConfigError>)
        ensures
            r == if copy_succeeded {
                Ok::<(), ConfigError>(())
            } else {
                Err::<(), ConfigError>(ConfigError::FileSaving)
            },
    {
        if copy_succeeded {
            Ok(())
        } else {
            Err(ConfigError::FileSaving)
        }
    }

    /// The decision on opening the file for appending.
    pub fn append(open_succeeded: bool) -> (r: Result<(), ConfigError>)
        ensures
            r == if open_succeeded {
                Ok::<(), ConfigError>(())
            } else {
                Err::<(), ConfigError>(ConfigError::InvalidPath)
            },
    {
        if open_succeeded {
            Ok(())
        } else {
            Err(ConfigError::InvalidPath)
        }
    }
}

} // verus!
