//! The command that forgets the credential of an appliance.

use vstd::prelude::*;

use crate::configuration::{appliance_url, rewritten_scheme, ConfigError};
use crate::credential_manager::{refused, spec_bootstrapped, spec_removed, CredentialManager};
use crate::database::CredentialError;

verus! {

/// The command `logout`.
#[derive(Clone, Copy, Debug)]
pub struct LogoutSubcommand {}

impl LogoutSubcommand {
    /// The address under which the credential of the appliance is kept,
    /// for the URL as the user gives it: the one that `login` kept it under.
    pub fn appliance(&self, url: &str) -> (r: Result<String, ConfigError>)
        ensures
            match rewritten_scheme(url@) {
                Some(address) => r matches Ok(built) && built@ == address,
                None => r matches Err(e) && e == ConfigError::UnknownScheme,
            },
    {
        appliance_url(url)
    }

    /// Removes the credential that the store holds for the URL. Where
    /// there is none, nothing changes.
    pub fn execute(&mut self, credential_manager: &mut CredentialManager, url: &str) -> (r: Result<
        (),
        CredentialError,
    >)
        ensures
            match spec_bootstrapped(old(credential_manager)@) {
                Ok(ready) => r is Ok && final(credential_manager)@ == spec_removed(ready, url@),
                Err(e) => refused(old(credential_manager)@, final(credential_manager)@, r, e),
            },
    {
        credential_manager.remove_credential(url)
    }
}

} // verus!
