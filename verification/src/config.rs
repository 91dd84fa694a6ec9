//! The settings of the service, from the values of its environment
//! variables with their defaults.

use vstd::prelude::*;

verus! {

/// Where the service listens, which database it uses and where it exports.
pub struct ServerSettings {
    pub host: String,
    pub port: String,
    pub db_url: String,
    pub export_dir: String,
}

/// A given value, or the default when none is given.
pub open spec fn or_default(v: Option<String>, default: Seq<char>) -> Seq<char> {
    match v {
        Some(s) => s@,
        None => default,
    }
}

fn value_or(v: Option<String>, default: &str) -> (r: String)
    ensures
        r@ == or_default(v, default@),
{
    match v {
        Some(s) => s,
        None => String::from_str(default),
    }
}

impl ServerSettings {
    /// The settings from the values of `HOST`, `PORT`, `DB_URL` and
    /// `EXPORT_DIR`; a missing value takes its default (`127.0.0.1`, `3000`,
    /// `sqlite://data/database.db`, `export`).
    pub fn from_values(
        host: Option<String>,
        port: Option<String>,
        db_url: Option<String>,
        export_dir: Option<String>,
    ) -> (s: ServerSettings)
        ensures
            s.host@ == or_default(host, "127.0.0.1"@),
            s.port@ == or_default(port, "3000"@),
            s.db_url@ == or_default(db_url, "sqlite://data/database.db"@),
            s.export_dir@ == or_default(export_dir, "export"@),
    {
        ServerSettings {
            host: value_or(host, "127.0.0.1"),
            port: value_or(port, "3000"),
            db_url: value_or(db_url, "sqlite://data/database.db"),
            export_dir: value_or(export_dir, "export"),
        }
    }

    /// The address to listen on: `host:port`.
    pub fn addr(&self) -> (a: String)
        ensures
            a@ == self.host@ + ":"@ + self.port@,
    {
        let mut a = self.host.clone();
        a.append(":");
        a.append(self.port.as_str());
        a
    }
}

} // verus!
