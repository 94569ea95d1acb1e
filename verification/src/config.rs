//! Service configuration.
//!
//! The configuration file is read and deserialized by the caller; this
//! module holds the resulting values and the one rule about them: a
//! configuration without a client id is rejected, since verification
//! would then accept no token's audience.

use vstd::prelude::*;

verus! {

use vstd::string::StringExecFns;

/// The identity-provider section of the configuration.
pub struct GoogleConfig {
    pub client_id: String,
}

/// The whole service configuration.
pub struct Config {
    pub google: GoogleConfig,
}

impl Config {
    /// Accepts a configuration exactly when it names a client id.
    pub fn check(self) -> (r: Result<Config, String>)
        ensures
            match r {
                Ok(c) => c.google.client_id@ == self.google.client_id@ && self.google.client_id@.len()
                    > 0,
                Err(m) => self.google.client_id@.len() == 0 && m@
                    == "Must include a twitch client id"@,
            },
    {
        if self.google.client_id.as_str().is_empty() {
            return Err(String::from_str("Must include a twitch client id"));
        }
        Ok(self)
    }
}

} // verus!
