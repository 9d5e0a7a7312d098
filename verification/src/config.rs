//! Database connection configuration.
//!
//! The surrounding service keeps its relational store's coordinates in a
//! configuration value; the only logic in it is assembling the connection
//! URL, which is verified here. Reading the configuration from disk is
//! I/O and stays outside the library.

use vstd::prelude::*;

verus! {

/// Coordinates of the relational database.
#[derive(Clone, Debug)]
pub struct DataBase {
    pub user: String,
    pub password: String,
    pub host: String,
    pub dbname: String,
}

/// Service configuration.
#[derive(Clone, Debug)]
pub struct Config {
    pub data_base: DataBase,
}

impl Config {
    /// The connection URL this configuration denotes:
    /// `postgres://<user>:<password>@<host>/<dbname>`.
    pub open spec fn spec_db_url(self) -> Seq<char> {
        "postgres://"@ + self.data_base.user@ + ":"@ + self.data_base.password@ + "@"@
            + self.data_base.host@ + "/"@ + self.data_base.dbname@
    }

    /// Assemble the database connection URL from the configured parts.
    pub fn get_db_url(self) -> (r: String)
        ensures
            r@ == self.spec_db_url(),
    {
        let database = self.data_base;
        let mut url = String::from_str("postgres://");
        url.append(database.user.as_str());
        url.append(":");
        url.append(database.password.as_str());
        url.append("@");
        url.append(database.host.as_str());
        url.append("/");
        url.append(database.dbname.as_str());
        url
    }
}

} // verus!
