//! What the inbox is started with: the secret and the port, as found in the
//! environment or defaulted.

use crate::ascii::all_alphanumeric;
use crate::secret::generate_secret;
use vstd::prelude::*;

verus! {

/// The port that the inbox listens on unless another is configured.
pub const DEFAULT_PORT: &'static str = "3000";

/// The length of a secret that the inbox generates for itself.
pub const GENERATED_SECRET_LENGTH: usize = 32;

/// The settings of a running inbox. They are fixed when it starts.
#[derive(Debug)]
pub struct Config {
    /// The secret that guards the listing.
    pub secret: String,
    /// The port to listen on.
    pub port: String,
    /// Whether the secret was generated at start, for want of a configured
    /// one. A generated secret has to be shown to the operator: nothing else
    /// knows it.
    pub generated: bool,
}

/// The secret that a setting configures: a setting that is absent or empty
/// configures none.
pub open spec fn spec_configured_secret(setting: Option<Seq<char>>) -> Option<Seq<char>> {
    match setting {
        Some(secret) => if secret.len() > 0 {
            Some(secret)
        } else {
            None
        },
        None => None,
    }
}

/// The port that a setting configures: the default if the setting is absent.
pub open spec fn spec_port(setting: Option<Seq<char>>) -> Seq<char> {
    match setting {
        Some(port) => port,
        None => DEFAULT_PORT@,
    }
}

impl Config {
    /// Settles the configuration from the two settings that the environment
    /// may hold. A configured secret is taken as it is; otherwise a secret of
    /// [`GENERATED_SECRET_LENGTH`] random letters and digits is generated.
    pub fn resolve(secret_setting: Option<String>, port_setting: Option<String>) -> (config: Config)
        ensures
            config.port@ == spec_port(port_setting.deep_view()),
            match spec_configured_secret(secret_setting.deep_view()) {
                Some(secret) => !config.generated && config.secret@ == secret,
                None => {
                    &&& config.generated
                    &&& config.secret@.len() == GENERATED_SECRET_LENGTH
                    &&& all_alphanumeric(config.secret@)
                },
            },
    {
        let port = match port_setting {
            Some(port) => port,
            None => DEFAULT_PORT.to_string(),
        };
        match secret_setting {
            Some(secret) => {
                if !secret.as_str().is_empty() {
                    return Config { secret, port, generated: false };
                }
            },
            None => {},
        }
        Config { secret: generate_secret(GENERATED_SECRET_LENGTH), port, generated: true }
    }

    /// The address to bind the listener to: the port on every interface.
    pub fn bind_address(&self) -> (address: String)
        ensures
            address@ == "0.0.0.0:"@ + self.port@,
    {
        let mut address = "0.0.0.0:".to_string();
        address.append(self.port.as_str());
        address
    }

    /// The line that announces the server at start.
    pub fn banner(&self) -> (line: String)
        ensures
            line@ == "Server running on :"@ + self.port@,
    {
        let mut line = "Server running on :".to_string();
        line.append(self.port.as_str());
        line
    }

    /// The address under which the operator finds the listing, secret
    /// included.
    pub fn access_url(&self) -> (url: String)
        ensures
            url@ == "http://localhost:"@ + self.port@ + "/?secret="@ + self.secret@,
    {
        let mut url = "http://localhost:".to_string();
        url.append(self.port.as_str());
        url.append("/?secret=");
        url.append(self.secret.as_str());
        url
    }
}

} // verus!
