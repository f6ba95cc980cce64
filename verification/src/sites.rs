//! The nginx site directories: available sites and the enabled-sites
//! symlink directory.

use vstd::prelude::*;
use vstd::string::StringExecFns;

verus! {

pub struct Sites;

impl Sites {
    /// The `(sites-available, sites-enabled)` base directories.
    pub fn paths() -> (r: (String, String))
        ensures
            r.0@ == "/etc/nginx/sites-available"@,
            r.1@ == "/etc/nginx/sites-enabled"@,
    {
        let sites_available = String::from_str("/etc/nginx/sites-available");
        let sites_enabled = String::from_str("/etc/nginx/sites-enabled");
        (sites_available, sites_enabled)
    }
}

} // verus!
