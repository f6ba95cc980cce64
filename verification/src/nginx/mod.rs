//! The nginx backend: error taxonomy and the decisions taken on the
//! outcomes of its service commands.  This backend validates its
//! configuration syntax before every reload.

use vstd::prelude::*;

pub mod config_file;
pub mod configurator;

verus! {

#[derive(Debug, Clone, Copy, PartialEq, Eq, Structural)]
pub enum NginxError {
    CannotReload,
    BadConfiguration,
    NotInstalled,
}

pub struct Nginx;

impl Nginx {
    /// The decision on a service reload: a reload that did not run or
    /// exited non-zero is fatal.
    pub fn reload(reload_succeeded: bool) -> (r: Result<(), NginxError>)
        ensures
            r == if reload_succeeded {
                Ok::<(), NginxError>(())
            } else {
                Err::<(), NginxError>(NginxError::CannotReload)
            },
    {
        if reload_succeeded {
            Ok(())
        } else {
            Err(NginxError::CannotReload)
        }
    }

    /// The decision on the syntax check: a failed check is a
    /// configuration error.
    pub fn check(check_succeeded: bool) -> (r: Result<(), NginxError>)
        ensures
            r == if check_succeeded {
                Ok::<(), NginxError>(())
            } else {
                Err::<(), NginxError>(NginxError::BadConfiguration)
            },
    {
        if check_succeeded {
            Ok(())
        } else {
            Err(NginxError::BadConfiguration)
        }
    }

    /// The full reload sequence: the service must be installed, its
    /// configuration must pass the syntax check, and only then is the
    /// reload outcome consulted.
    pub fn check_and_reload(
        installed: bool,
        check_succeeded: bool,
        reload_succeeded: bool,
    ) -> (r: Result<(), NginxError>)
        ensures
            !installed ==> r == Err::<(), NginxError>(NginxError::NotInstalled),
            installed && !check_succeeded ==> r == Err::<(), NginxError>(
                NginxError::BadConfiguration,
            ),
            installed && check_succeeded && !reload_succeeded ==> r == Err::<(), NginxError>(
                NginxError::CannotReload,
            ),
            installed && check_succeeded && reload_succeeded ==> r == Ok::<(), NginxError>(()),
    {
        if !installed {
            return Err(NginxError::NotInstalled);
        }
        match Self::check(check_succeeded) {
            Ok(_) => {},
            Err(e) => {
                return Err(e);
            },
        }
        match Self::reload(reload_succeeded) {
            Ok(_) => {},
            Err(e) => {
                return Err(e);
            },
        }
        Ok(())
    }
}

} // verus!
