//! The nginx configuration file: its name and paths, the rendered
//! server-name directive the declaration scan looks for, and the
//! decisions taken on the outcomes of the file operations.

use vstd::prelude::*;
use vstd::string::StringExecFns;

use crate::configuration_file::{contains_declaration, declares, ends_with, line_declares, trimmed};
use crate::domain::{Domain, DomainView};

verus! {

#[derive(Debug, Clone, Copy, PartialEq, Eq, Structural)]
pub enum ConfigError {
    Linking,
    FileSaving,
    InvalidPath,
    SymlinkExists,
    FileExists,
}

/// The directive the scan looks for:
/// `server_name <canonical-domain>;`.
pub open spec fn nginx_needle(d: DomainView) -> Seq<char> {
    "server_name "@ + d.canonical() + ";"@
}

/// The directory holding the available site files.
pub open spec fn nginx_conf_dir() -> Seq<char> {
    "/etc/nginx/sites-available/"@
}

/// Law: the scan is exact about subdomains.  The rendered declaration
/// for a subdomain-qualified domain and the one for its bare
/// registrable domain are never suffixes of one another, so a line
/// whose trimmed text declares the one never declares the other.
pub proof fn lemma_subdomain_declaration_exact(
    d_sub: DomainView,
    d_bare: DomainView,
    line: Seq<char>,
)
    requires
        d_sub.wf(),
        d_bare.wf(),
        d_sub.subdomain is Some,
        d_bare.subdomain is None,
        d_sub.name == d_bare.name,
        d_sub.tld == d_bare.tld,
    ensures
        trimmed(line) == nginx_needle(d_bare) ==> !line_declares(line, nginx_needle(d_sub)),
        trimmed(line) == nginx_needle(d_sub) ==> !line_declares(line, nginx_needle(d_bare)),
{
    reveal_strlit("server_name ");
    reveal_strlit(";");
    let lit = "server_name "@;
    assert(lit.len() == 12);
    assert(lit[11] == ' ');
    assert(";"@.len() == 1);
    let s = d_sub.subdomain->Some_0;
    let reg = d_bare.registrable();
    let nb = nginx_needle(d_bare);
    let ns = nginx_needle(d_sub);
    assert(d_sub.registrable() == reg);
    assert(d_sub.canonical() == (s + seq!['.']) + reg);
    assert(s.len() >= 1);
    assert(ns.len() == nb.len() + s.len() + 1);
    assert(!ends_with(nb, ns));
    if ends_with(ns, nb) {
        let off = ns.len() - nb.len();
        assert(off == s.len() + 1);
        assert(ns.subrange(off as int, ns.len() as int) == nb);
        assert(ns.subrange(off as int, ns.len() as int)[11] == ns[off + 11]);
        assert(ns[off + 11] == d_sub.canonical()[s.len() as int]);
        assert(d_sub.canonical()[s.len() as int] == '.');
        assert(nb[11] == ' ');
        assert(false);
    }
}

pub struct ConfigFile;

impl ConfigFile {
    /// The rendered server-name directive for this backend.
    pub fn server_name(domain: &Domain) -> (r: String)
        ensures
            r@ == nginx_needle(domain@),
    {
        let mut r = String::from_str("server_name ");
        r.append(domain.to_string().as_str());
        r.append(";");
        r
    }

    /// Whether the text already declares this exact domain: some
    /// trimmed, non-comment line ends with the rendered directive.
    pub fn find_domain_in_str(haystack: &str, domain: &Domain) -> (r: bool)
        ensures
            r == declares(haystack@, nginx_needle(domain@)),
    {
        let needle = Self::server_name(domain);
        contains_declaration(haystack, needle.as_str())
    }

    /// The per-domain file name, `name.tld.conf`.
    pub fn file_name(domain: &Domain) -> (r: String)
        ensures
            r@ == domain@.conf_file(),
    {
        domain.conf_file_name()
    }

    /// The full path of the configuration file.
    pub fn file_path(domain: &Domain) -> (r: String)
        ensures
            r@ == nginx_conf_dir() + domain@.conf_file(),
    {
        let mut r = String::from_str("/etc/nginx/sites-available/");
        r.append(domain.conf_file_name().as_str());
        r
    }

    /// The full path of the backup copy, beside the file itself.
    pub fn backup_path(domain: &Domain) -> (r: String)
        ensures
            r@ == nginx_conf_dir() + domain@.conf_file() + ".bak"@,
    {
        let mut r = Self::file_path(domain);
        r.append(".bak");
        r
    }

    /// The decision on handing the file to the service user: a missing
    /// file and a failed ownership change are both saving errors.
    pub fn chown_to_www(file_exists: bool, chown_succeeded: bool) -> (r: Result<(), ConfigError>)
        ensures
            !file_exists ==> r == Err::<(), ConfigError>(ConfigError::FileSaving),
            file_exists && !chown_succeeded ==> r == Err::<(), ConfigError>(
                ConfigError::FileSaving,
            ),
            file_exists && chown_succeeded ==> r == Ok::<(), ConfigError>(()),
    {
        if !file_exists {
            return Err(ConfigError::FileSaving);
        }
        if !chown_succeeded {
            return Err(ConfigError::FileSaving);
        }
        Ok(())
    }

    /// The decision on creating the file: an existing file is never
    /// silently overwritten.
    pub fn create(file_exists: bool, create_succeeded: bool) -> (r: Result<(), ConfigError>)
        ensures
            file_exists ==> r == Err::<(), ConfigError>(ConfigError::FileExists),
            !file_exists && !create_succeeded ==> r == Err::<(), ConfigError>(
                ConfigError::FileSaving,
            ),
            !file_exists && create_succeeded ==> r == Ok::<(), ConfigError>(()),
    {
        if file_exists {
            return Err(ConfigError::FileExists);
        }
        if !create_succeeded {
            return Err(ConfigError::FileSaving);
        }
        Ok(())
    }

    /// The decision on the byte-copy backup.
    pub fn create_backup(copy_succeeded: bool) -> (r: Result<(), ConfigError>)
        ensures
            r == if copy_succeeded {
                Ok::<(), ConfigError>(())
            } else {
                Err::<(), ConfigError>(ConfigError::FileSaving)
            },
    {
        if copy_succeeded {
            Ok(())
        } else {
            Err(ConfigError::FileSaving)
        }
    }

    /// The decision on opening the file for appending.
    pub fn append(open_succeeded: bool) -> (r: Result<(), ConfigError>)
        ensures
            r == if open_succeeded {
                Ok::<(), ConfigError>(())
            } else {
                Err::<(), ConfigError>(ConfigError::InvalidPath)
            },
    {
        if open_succeeded {
            Ok(())
        } else {
            Err(ConfigError::InvalidPath)
        }
    }
}

} // verus!
