//! Repository and server settings.

use vstd::prelude::*;

verus! {

/// Where the repository lives and the secret that unlocks it.
pub struct RepositoryConfig {
    pub location: String,
    pub secret: String,
}

impl RepositoryConfig {
    /// Both the location and the secret must be non-empty for any operation
    /// to be attempted.
    pub open spec fn wf(&self) -> bool {
        self.location@.len() > 0 && self.secret@.len() > 0
    }

    /// Builds a configuration, or `None` when the location or the secret is empty.
    pub fn new(location: String, secret: String) -> (r: Option<RepositoryConfig>)
        ensures
            r is Some <==> (location@.len() > 0 && secret@.len() > 0),
            r is Some ==> r->Some_0.wf() && r->Some_0.location@ == location@
                && r->Some_0.secret@ == secret@,
    {
        if location.unicode_len() == 0 || secret.unicode_len() == 0 {
            None
        } else {
            Some(RepositoryConfig { location, secret })
        }
    }
}

/// Address the HTTP server binds to.
pub struct ServerConfig {
    pub ip: String,
    pub port: u16,
}

/// Path of the configuration file, relative to the user's home directory.
pub open spec fn config_suffix() -> Seq<char> {
    "/.config/resticapi/config.toml"@
}

/// Path of the configuration file under the given home directory.
pub fn config_file_path(home: &str) -> (r: String)
    ensures
        r@ == home@ + config_suffix(),
{
    let path = String::from_str(home);
    path.concat("/.config/resticapi/config.toml")
}

} // verus!
