//! Settings for a local copy of the Kitsu database.

use vstd::prelude::*;
use vstd::string::StringExecFns;
use crate::text::{decimal, push_decimal};

verus! {

/// Where the database is and who connects to it.
#[derive(Debug, Clone)]
pub struct DatabaseConfig {
    pub host: String,
    pub port: u16,
    pub database: String,
    pub user: String,
    pub password: Option<String>,
}

impl DatabaseConfig {
    /// The connection string: user, host, port and database name.
    pub open spec fn spec_connection_string(&self) -> Seq<char> {
        "postgresql://"@ + self.user@ + "@"@ + self.host@ + ":"@ + decimal(self.port as nat) + "/"@
            + self.database@
    }

    /// The PostgreSQL connection string of the configuration. The password
    /// is not part of it.
    pub fn connection_string(&self) -> (text: String)
        ensures
            text@ == self.spec_connection_string(),
    {
        let mut out = "postgresql://".to_owned();
        out.append(self.user.as_str());
        out.append("@");
        out.append(self.host.as_str());
        out.append(":");
        push_decimal(&mut out, self.port as u64);
        out.append("/");
        out.append(self.database.as_str());
        out
    }
}

} // verus!
