use vstd::prelude::*;
use crate::text::{decimal, decimal_text};

verus! {

/// Everything the service needs to start: the store and the listening address.
#[derive(Debug, Clone, PartialEq, Eq)]
pub struct Config {
    pub db: DbConfig,
    pub server: ServerConfig,
}

/// Where the store is and how to log in to it.
#[derive(Debug, Clone, PartialEq, Eq)]
pub struct DbConfig {
    pub host: String,
    pub port: u16,
    pub user: String,
    pub password: String,
    pub dbname: String,
    pub max_connections: u32,
}

/// The address the service listens on.
#[derive(Debug, Clone, PartialEq, Eq)]
pub struct ServerConfig {
    pub host: String,
    pub port: u16,
}

/// An ephemeral store made for one test run.
#[derive(Debug, Clone, PartialEq, Eq)]
pub struct TestDb {
    pub host: String,
    pub port: u16,
    pub user: String,
    pub password: String,
    pub dbname: String,
}

/// The connection pool size used when the configuration names none.
pub fn default_pool_size() -> (r: u32)
    ensures
        r == 5,
{
    5
}

/// The address of a store server, without a database; the password part is
/// left out when the password is empty.
pub open spec fn server_url_of(user: Seq<char>, password: Seq<char>, host: Seq<char>, port: u16) -> Seq<char> {
    "postgres://"@ + user + (if password.len() == 0 { Seq::empty() } else { ":"@ + password }) + "@"@
        + host + ":"@ + decimal(port as nat)
}

/// The address of one database on a store server.
pub open spec fn db_url_of(user: Seq<char>, password: Seq<char>, host: Seq<char>, port: u16, dbname: Seq<char>) -> Seq<char> {
    server_url_of(user, password, host, port) + "/"@ + dbname
}

pub open spec fn listen_url_of(https: bool, host: Seq<char>, port: u16) -> Seq<char> {
    (if https { "https://"@ } else { "http://"@ }) + host + ":"@ + decimal(port as nat)
}

fn server_url_text(user: &str, password: &str, host: &str, port: u16) -> (r: String)
    ensures
        r@ == server_url_of(user@, password@, host@, port),
{
    let mut s = String::from_str("postgres://");
    s.append(user);
    if !password.is_empty() {
        s.append(":");
        s.append(password);
    }
    s.append("@");
    s.append(host);
    s.append(":");
    let p = decimal_text(port as u128);
    s.append(p.as_str());
    assert(s@ =~= server_url_of(user@, password@, host@, port));
    s
}

fn db_url_text(server_url: String, dbname: &str) -> (r: String)
    ensures
        r@ == server_url@ + "/"@ + dbname@,
{
    let mut s = server_url;
    s.append("/");
    s.append(dbname);
    s
}

impl DbConfig {
    pub fn server_url(&self) -> (r: String)
        ensures
            r@ == server_url_of(self.user@, self.password@, self.host@, self.port),
    {
        server_url_text(self.user.as_str(), self.password.as_str(), self.host.as_str(), self.port)
    }

    pub fn url(&self) -> (r: String)
        ensures
            r@ == db_url_of(self.user@, self.password@, self.host@, self.port, self.dbname@),
    {
        db_url_text(self.server_url(), self.dbname.as_str())
    }
}

impl ServerConfig {
    pub fn url(&self, https: bool) -> (r: String)
        ensures
            r@ == listen_url_of(https, self.host@, self.port),
    {
        let mut s = String::from_str(if https { "https://" } else { "http://" });
        s.append(self.host.as_str());
        s.append(":");
        let p = decimal_text(self.port as u128);
        s.append(p.as_str());
        s
    }
}

/// Relies on uuid's `Uuid::new_v4` and its `Display`, which writes the
/// hyphenated form of 36 characters.
#[verifier::external_body]
fn random_run_id() -> (r: String)
    ensures
        r@.len() == 36,
{
    uuid::Uuid::new_v4().to_string()
}

impl TestDb {
    /// A test database named `test_<run_id>`.
    pub fn with_run_id(host: &str, port: u16, user: &str, password: &str, run_id: &str) -> (r: TestDb)
        ensures
            r.host@ == host@,
            r.port == port,
            r.user@ == user@,
            r.password@ == password@,
            r.dbname@ == "test_"@ + run_id@,
    {
        let mut dbname = String::from_str("test_");
        dbname.append(run_id);
        TestDb {
            host: String::from_str(host),
            port,
            user: String::from_str(user),
            password: String::from_str(password),
            dbname,
        }
    }

    /// A test database under a fresh random name, `test_` and a uuid.
    pub fn fresh(host: &str, port: u16, user: &str, password: &str) -> (r: TestDb)
        ensures
            r.host@ == host@,
            r.port == port,
            r.user@ == user@,
            r.password@ == password@,
            r.dbname@.len() == 41,
            r.dbname@.subrange(0, 5) == "test_"@,
    {
        let id = random_run_id();
        let r = TestDb::with_run_id(host, port, user, password, id.as_str());
        proof {
            reveal_strlit("test_");
        }
        assert(r.dbname@.subrange(0, 5) =~= "test_"@);
        r
    }

    pub fn server_url(&self) -> (r: String)
        ensures
            r@ == server_url_of(self.user@, self.password@, self.host@, self.port),
    {
        server_url_text(self.user.as_str(), self.password.as_str(), self.host.as_str(), self.port)
    }

    pub fn url(&self) -> (r: String)
        ensures
            r@ == db_url_of(self.user@, self.password@, self.host@, self.port, self.dbname@),
    {
        db_url_text(self.server_url(), self.dbname.as_str())
    }
}

} // verus!
