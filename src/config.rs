//! The server's settings.
use vstd::prelude::*;
use vstd::string::StringExecFns;

verus! {

/// The port the server listens on when none is set.
pub const DEFAULT_PORT: u16 = 8000;

/// Where the store lives and where the server listens.
#[derive(Debug, PartialEq)]
pub struct AppConfig {
    pub database_url: String,
    pub port: u16,
}

/// The address of a PostgreSQL database on this machine.
pub open spec fn postgres_url(
    user: Seq<char>,
    pass: Seq<char>,
    name: Seq<char>,
    db_port: Seq<char>,
) -> Seq<char> {
    "postgres://"@ + user + ":"@ + pass + "@localhost:"@ + db_port + "/"@ + name
}

impl AppConfig {
    /// The settings for the database `db_name` on this machine, reached on
    /// `db_port` as `db_user` with `db_pass`, and a server on `port`.
    pub fn from_settings(db_user: &str, db_pass: &str, db_name: &str, db_port: &str, port: u16) -> (r:
        Self)
        ensures
            r.database_url@ == postgres_url(db_user@, db_pass@, db_name@, db_port@),
            r.port == port,
    {
        let mut url = "postgres://".to_owned();
        url.append(db_user);
        url.append(":");
        url.append(db_pass);
        url.append("@localhost:");
        url.append(db_port);
        url.append("/");
        url.append(db_name);
        AppConfig { database_url: url, port }
    }
}

} // verus!
