use vstd::prelude::*;

verus! {

/// Where and as whom to connect.
pub struct ConnectionConfig {
    pub host: String,
    pub user: String,
    pub dbname: String,
    /// Whether the connection must be encrypted.
    pub tls: bool,
}

pub open spec fn sslmode_text(tls: bool) -> Seq<char> {
    if tls {
        "require"@
    } else {
        "disable"@
    }
}

pub open spec fn connection_text(host: Seq<char>, user: Seq<char>, dbname: Seq<char>, tls: bool) -> Seq<char> {
    "host="@ + host + " user="@ + user + " dbname="@ + dbname + " sslmode="@ + sslmode_text(tls)
}

impl ConnectionConfig {
    pub fn new(host: &str, user: &str, dbname: &str, tls: bool) -> (r: ConnectionConfig)
        ensures
            r.host@ == host@,
            r.user@ == user@,
            r.dbname@ == dbname@,
            r.tls == tls,
    {
        ConnectionConfig {
            host: String::from_str(host),
            user: String::from_str(user),
            dbname: String::from_str(dbname),
            tls,
        }
    }

    /// The settings the program has always used: a local server, the `tests`
    /// database, no encryption.
    pub fn local() -> (r: ConnectionConfig)
        ensures
            r.host@ == "localhost"@,
            r.user@ == "devales"@,
            r.dbname@ == "tests"@,
            !r.tls,
    {
        ConnectionConfig::new("localhost", "devales", "tests", false)
    }

    /// The key/value connection string that the driver parses.
    pub fn connection_string(&self) -> (r: String)
        ensures
            r@ == connection_text(self.host@, self.user@, self.dbname@, self.tls),
    {
        let mut s = String::from_str("host=");
        s.append(self.host.as_str());
        s.append(" user=");
        s.append(self.user.as_str());
        s.append(" dbname=");
        s.append(self.dbname.as_str());
        s.append(" sslmode=");
        if self.tls {
            s.append("require");
        } else {
            s.append("disable");
        }
        s
    }
}

} // verus!
