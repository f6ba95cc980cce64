//! The web root: the directory tree that serves challenge files and a
//! placeholder page for one canonical domain.

use vstd::prelude::*;
use vstd::string::StringExecFns;

use crate::domain::{Domain, DomainView};

verus! {

/// The web-root directory for a canonical domain:
/// `/var/www/<canonical-domain>/public`.
pub open spec fn webroot_path(d: DomainView) -> Seq<char> {
    "/var/www/"@ + d.canonical() + "/public"@
}

#[derive(Debug, Clone, Copy, PartialEq, Eq, Structural)]
pub enum WebRootError {
    DoesNotExist,
    Permissions,
    AlreadyExists,
    CreationFailure,
}

pub struct WebRoot;

impl WebRoot {
    /// The web-root path as a plain string.
    pub fn build_path_string(domain: &Domain) -> (r: String)
        ensures
            r@ == webroot_path(domain@),
    {
        let mut r = String::from_str("/var/www/");
        r.append(domain.to_string().as_str());
        r.append("/public");
        r
    }

    /// The web-root path for the caller's path type; the same string
    /// as `build_path_string`.
    pub fn build_pathbuf(domain: &Domain) -> (r: String)
        ensures
            r@ == webroot_path(domain@),
    {
        Self::build_path_string(domain)
    }

    /// The idempotency gate: a web root counts as provisioned only when
    /// its directory exists and holds at least one entry.
    pub fn has_files(dir_exists: bool, entry_count: usize) -> (r: bool)
        ensures
            r == (dir_exists && entry_count > 0),
    {
        dir_exists && entry_count > 0
    }

    /// The decision sequence of web-root creation, over the outcomes of
    /// the filesystem steps a caller performs: a non-empty root is a
    /// conflict, a failed directory creation or placeholder write is a
    /// creation failure, and the ownership hand-off does not decide the
    /// result.  An existing but empty directory is treated as not yet
    /// provisioned, so a creation may resume it.
    pub fn create_and_set_chown(
        has_files: bool,
        created: bool,
        placeholder_written: bool,
    ) -> (r: Result<(), WebRootError>)
        ensures
            has_files ==> r == Err::<(), WebRootError>(WebRootError::AlreadyExists),
            !has_files && !created ==> r == Err::<(), WebRootError>(WebRootError::CreationFailure),
            !has_files && created && !placeholder_written ==> r == Err::<(), WebRootError>(
                WebRootError::CreationFailure,
            ),
            !has_files && created && placeholder_written ==> r == Ok::<(), WebRootError>(()),
    {
        if has_files {
            return Err(WebRootError::AlreadyExists);
        }
        if !created {
            return Err(WebRootError::CreationFailure);
        }
        if !placeholder_written {
            return Err(WebRootError::CreationFailure);
        }
        Ok(())
    }
}

} // verus!
