//! The process-wide configuration, built once at startup and passed to what
//! needs it.

use vstd::prelude::*;
use crate::error::ErrorKind;

verus! {

/// Settings of the service.
#[derive(Debug, Clone)]
pub struct Config {
    pub port: i32,
    pub database_url: String,
    pub jwt_secret: String,
    pub jwt_expires_in: String,
    pub jwt_maxage: i32,
    pub smtp_username: String,
    pub smtp_password: String,
    pub smtp_host: String,
    pub smtp_port: u16,
    pub frontend_origin: String,
}

/// Whether a configuration is usable: ports and the token age in
/// [1, 65535], and no text setting empty.
pub open spec fn config_valid(c: Config) -> bool {
    &&& 1 <= c.port <= 65535
    &&& c.database_url@.len() > 0
    &&& c.jwt_secret@.len() > 0
    &&& c.jwt_expires_in@.len() > 0
    &&& 1 <= c.jwt_maxage <= 65535
    &&& c.smtp_username@.len() > 0
    &&& c.smtp_password@.len() > 0
    &&& c.smtp_host@.len() > 0
    &&& 1 <= c.smtp_port
    &&& c.frontend_origin@.len() > 0
}

impl Config {
    /// Checks every setting.
    pub fn validate(&self) -> (r: Result<(), ErrorKind>)
        ensures
            r is Ok <==> config_valid(*self),
            r matches Err(e) ==> e == ErrorKind::ValidationFailed,
    {
        let ok = 1 <= self.port && self.port <= 65535 && !self.database_url.as_str().is_empty()
            && !self.jwt_secret.as_str().is_empty() && !self.jwt_expires_in.as_str().is_empty()
            && 1 <= self.jwt_maxage && self.jwt_maxage <= 65535
            && !self.smtp_username.as_str().is_empty() && !self.smtp_password.as_str().is_empty()
            && !self.smtp_host.as_str().is_empty() && 1 <= self.smtp_port
            && !self.frontend_origin.as_str().is_empty();
        if ok {
            Ok(())
        } else {
            Err(ErrorKind::ValidationFailed)
        }
    }
}

} // verus!
