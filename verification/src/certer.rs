//! The certificate-issuance adapter: the fixed challenge directory the
//! external tool is pointed at, and the decision taken on its outcome.

use vstd::prelude::*;

verus! {

#[derive(Debug, Clone, Copy, PartialEq, Eq, Structural)]
pub enum CertBotError {
    NotInstalled,
    ProcessFailure,
}

pub struct Certer;

impl Certer {
    /// The shared webroot challenge directory handed to the issuance
    /// tool; one directory serves all domains.
    pub fn challenge_dir() -> (r: &'static str)
        ensures
            r@ == "/var/www/.well-known/challenge"@,
    {
        "/var/www/.well-known/challenge"
    }

    /// The decision on an issuance run: the tool must be installed,
    /// and a run that did not spawn or exited non-zero is a process
    /// failure.
    pub fn run(installed: bool, process_succeeded: bool) -> (r: Result<(), CertBotError>)
        ensures
            !installed ==> r == Err::<(), CertBotError>(CertBotError::NotInstalled),
            installed && !process_succeeded ==> r == Err::<(), CertBotError>(
                CertBotError::ProcessFailure,
            ),
            installed && process_succeeded ==> r == Ok::<(), CertBotError>(()),
    {
        if !installed {
            return Err(CertBotError::NotInstalled);
        }
        if !process_succeeded {
            return Err(CertBotError::ProcessFailure);
        }
        Ok(())
    }
}

} // verus!
