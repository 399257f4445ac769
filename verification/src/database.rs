//! Connecting to PostgreSQL: the addresses the server connects to, the database it
//! creates, and what it makes of the answer to that creation.

use vstd::prelude::*;
use vstd::string::*;

use crate::text::{after_last, contains_text, lemma_after_last, text_after_last, text_contains};

verus! {

/// The address of the database server: `postgres://{user}:{pwd}@{host}`.
pub fn server_url(user: &str, pwd: &str, host: &str) -> (url: String)
    ensures
        url@ == "postgres://"@ + user@ + ":"@ + pwd@ + "@"@ + host@,
{
    let mut url = String::from_str("postgres://");
    url.append(user);
    url.append(":");
    url.append(pwd);
    url.append("@");
    url.append(host);
    url
}

/// The statement that creates the server's database: `CREATE DATABASE "{name}"`.
pub fn create_database_statement(name: &str) -> (s: String)
    ensures
        s@ == "CREATE DATABASE \""@ + name@ + "\""@,
{
    let mut s = String::from_str("CREATE DATABASE \"");
    s.append(name);
    s.append("\"");
    s
}

/// The address of the server's database: the server's address, `/` and the name.
pub open spec fn database_url_text(server_url: Seq<char>, name: Seq<char>) -> Seq<char> {
    server_url + seq!['/'] + name
}

/// The address of the server's database: `{server_url}/{name}`.
pub fn database_url(server_url: &str, name: &str) -> (url: String)
    ensures
        url@ == database_url_text(server_url@, name@),
{
    proof {
        reveal_strlit("/");
    }
    let mut url = String::from_str(server_url);
    url.append("/");
    url.append(name);
    url
}

/// The database that an address names: the text after its last `/` (the whole
/// address when it holds none), as `split("/").last()` gives it.
pub fn database_name(url: &str) -> (name: String)
    ensures
        name@ == after_last(url@, '/'),
{
    text_after_last(url, '/')
}

/// The name that `database_url` puts into an address is the name that `database_name`
/// reads back, when it holds no `/`.
pub proof fn lemma_database_name_round_trip(server_url: Seq<char>, name: Seq<char>)
    requires
        !name.contains('/'),
    ensures
        after_last(database_url_text(server_url, name), '/') == name,
{
    let url = database_url_text(server_url, name);
    lemma_after_last(url, '/');
    let tail = after_last(url, '/');
    let k = url.len() - tail.len();
    if tail.len() < name.len() {
        assert(url[k - 1] == name[name.len() - tail.len() - 1]);
    } else if tail.len() > name.len() {
        assert(tail[tail.len() - name.len() - 1] == url[url.len() - name.len() - 1]);
        assert(url[url.len() - name.len() - 1] == '/');
    }
    assert(url.skip(url.len() - name.len()) =~= name);
}

/// Why creating the database failed: an error that the database reported, with its
/// message, or any other error.
pub enum CreateDatabaseError {
    Database(String),
    Other,
}

/// What the server does after trying to create its database.
#[derive(Clone, Copy, Debug, PartialEq, Eq, Structural)]
pub enum DatabaseCreation {
    /// Created: report it and go on.
    Created,
    /// The database reported that it already exists: report it and go on.
    AlreadyExists,
    /// The database reported another error: stop the server.
    Failed,
    /// An error that the database did not report: go on silently.
    Ignored,
}

/// What the server does after trying to create its database.
pub fn database_creation(result: &Result<(), CreateDatabaseError>) -> (c: DatabaseCreation)
    ensures
        result is Ok ==> c == DatabaseCreation::Created,
        result matches Err(CreateDatabaseError::Database(m)) ==> c == (if contains_text(
            m@,
            "already exists"@,
        ) {
            DatabaseCreation::AlreadyExists
        } else {
            DatabaseCreation::Failed
        }),
        result matches Err(CreateDatabaseError::Other) ==> c == DatabaseCreation::Ignored,
{
    match result {
        Ok(_) => DatabaseCreation::Created,
        Err(CreateDatabaseError::Database(m)) => {
            if text_contains(m.as_str(), "already exists") {
                DatabaseCreation::AlreadyExists
            } else {
                DatabaseCreation::Failed
            }
        },
        Err(CreateDatabaseError::Other) => DatabaseCreation::Ignored,
    }
}

} // verus!
