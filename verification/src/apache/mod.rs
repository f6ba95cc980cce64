//! The Apache backend: error taxonomy and the decisions taken on the
//! outcomes of its service commands.  Spawning the commands themselves
//! is the caller's work; the functions here fix which error each
//! outcome maps to.

use vstd::prelude::*;

pub mod config_file;
pub mod configurator;
pub mod http_config;

verus! {

#[derive(Debug, Clone, Copy, PartialEq, Eq, Structural)]
pub enum ApacheError {
    NotInstalled,
    BadConfiguration,
    CannotReload,
}

pub struct Apache;

impl Apache {
    /// The decision on a service reload: a reload that did not run or
    /// exited non-zero is fatal.
    pub fn reload(reload_succeeded: bool) -> (r: Result<(), ApacheError>)
        ensures
            r == if reload_succeeded {
                Ok::<(), ApacheError>(())
            } else {
                Err::<(), ApacheError>(ApacheError::CannotReload)
            },
    {
        if reload_succeeded {
            Ok(())
        } else {
            Err(ApacheError::CannotReload)
        }
    }

    /// The decision on site activation: a failed activation is a
    /// configuration error.
    pub fn enable_site(activation_succeeded: bool) -> (r: Result<(), ApacheError>)
        ensures
            r == if activation_succeeded {
                Ok::<(), ApacheError>(())
            } else {
                Err::<(), ApacheError>(ApacheError::BadConfiguration)
            },
    {
        if activation_succeeded {
            Ok(())
        } else {
            Err(ApacheError::BadConfiguration)
        }
    }
}

} // verus!
