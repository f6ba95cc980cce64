//! The enabled-sites symlink that activates an nginx configuration
//! file: the probe that decides whether the link is already there, and
//! the decision taken on the outcome of creating it.

use vstd::prelude::*;

use crate::nginx::config_file::ConfigError;

verus! {

pub struct Linker;

impl Linker {
    /// A link counts as present only when the path exists and is a
    /// symlink.
    pub fn link_exists(entry_exists: bool, is_symlink: bool) -> (r: bool)
        ensures
            r == (entry_exists && is_symlink),
    {
        entry_exists && is_symlink
    }

    /// The decision on creating the link: an existing link is a
    /// conflict of its own kind, a failed creation a linking error.
    pub fn create(link_exists: bool, symlink_succeeded: bool) -> (r: Result<(), ConfigError>)
        ensures
            link_exists ==> r == Err::<(), ConfigError>(ConfigError::SymlinkExists),
            !link_exists && !symlink_succeeded ==> r == Err::<(), ConfigError>(
                ConfigError::Linking,
            ),
            !link_exists && symlink_succeeded ==> r == Ok::<(), ConfigError>(()),
    {
        if link_exists {
            return Err(ConfigError::SymlinkExists);
        }
        if !symlink_succeeded {
            return Err(ConfigError::Linking);
        }
        Ok(())
    }
}

} // verus!
