//! The backend connection wrapper: a lock-guarded handle shared by every
//! caller, and the builder that validates connection parameters.

use vstd::prelude::*;
use vstd::rwlock::RwLock;
use vstd::string::StringExecFns;
use crate::engine::DbError;

pub mod aql;
pub mod memory;
pub mod mongodb;
pub mod pgsql;

verus! {

/// The backend's usual local endpoint, used until a host is configured.
pub const DEFAULT_HOST: &'static str = "http://127.0.0.1:8529";

/// How the connection authenticates against the backend.
#[derive(Debug, Clone, Copy)]
pub enum AuthType<'a> {
    NoAuth,
    Basic { user: &'a str, pass: &'a str },
    Jwt { user: &'a str, pass: &'a str },
}

impl<'a> Default for AuthType<'a> {
    fn default() -> (r: Self)
        ensures
            r is NoAuth,
    {
        AuthType::NoAuth
    }
}

/// One live backend connection under a reader/writer lock: many
/// concurrent readers, or one exclusive writer. Replacement of the
/// connection happens entirely inside one write guard, so no caller
/// observes a half-replaced connection.
#[verifier::reject_recursive_types(T)]
pub struct Db<T> {
    db: RwLock<T, spec_fn(T) -> bool>,
}

impl<T> Db<T> {
    /// The lock invariant on the wrapped connection.
    pub closed spec fn inv(&self, v: T) -> bool {
        self.db.inv(v)
    }

    /// Wrap a connection; any replacement value is admitted by the lock.
    pub fn new(db: T) -> (r: Self)
        ensures
            forall|v: T| r.inv(v),
    {
        Db { db: RwLock::new(db, Ghost(|v: T| true)) }
    }

    /// Shared access really is shared: any number of read guards may be
    /// held side by side, and two guards held at once observe the very
    /// same connection. Exclusive access is the lock's own guarantee:
    /// `acquire_write` hands the connection out, and nobody proceeds
    /// until `release_write` returns it.
    pub fn reads_see_one_connection(&self) {
        let h1 = self.db.acquire_read();
        let h2 = self.db.acquire_read();
        let v1 = h1.borrow();
        let v2 = h2.borrow();
        proof {
            vstd::rwlock::ReadHandle::lemma_readers_match(&h1, &h2);
        }
        assert(*v1 == *v2);
        h1.release_read();
        h2.release_read();
    }
}

/// What every lock-guarded backend handle offers: access to the guarded
/// client and a short description.
pub trait DbBasics {
    type Client;

    /// The lock-guarded client.
    fn db(&self) -> &Self::Client;

    /// Short description of the backend.
    fn db_info(&self) -> String;
}

impl<T> DbBasics for Db<T> {
    type Client = RwLock<T, spec_fn(T) -> bool>;

    fn db(&self) -> (r: &RwLock<T, spec_fn(T) -> bool>) {
        &self.db
    }

    fn db_info(&self) -> String {
        "lock-guarded database connection".to_owned()
    }
}

/// The parameters a validated builder hands to the transport layer:
/// where to connect, how to authenticate, which database to select.
#[derive(Debug, Clone, Copy)]
pub struct ConnConfig<'a> {
    pub host: &'a str,
    pub auth: AuthType<'a>,
    pub db_name: &'a str,
}

/// Builder for a backend connection.
#[derive(Debug)]
pub struct DbBuilder<'a> {
    pub auth_type: AuthType<'a>,
    pub host: &'a str,
    pub db_name: &'a str,
}

impl<'a> Default for DbBuilder<'a> {
    fn default() -> (r: Self)
        ensures
            r.auth_type is NoAuth,
            r.host == DEFAULT_HOST,
            r.db_name@.len() == 0,
    {
        proof {
            reveal_strlit("");
        }
        DbBuilder { auth_type: AuthType::NoAuth, host: DEFAULT_HOST, db_name: "" }
    }
}

impl<'a> DbBuilder<'a> {
    /// A builder pointing at the default host, with no authentication and
    /// no database selected.
    pub fn new() -> (r: Self)
        ensures
            r.auth_type is NoAuth,
            r.host == DEFAULT_HOST,
            r.db_name@.len() == 0,
    {
        proof {
            reveal_strlit("");
        }
        DbBuilder { auth_type: AuthType::NoAuth, host: DEFAULT_HOST, db_name: "" }
    }

    /// Alter the host address.
    pub fn host(&mut self, host: &'a str)
        ensures
            final(self).host == host,
            final(self).auth_type == old(self).auth_type,
            final(self).db_name == old(self).db_name,
    {
        self.host = host;
    }

    /// Configure the authentication type.
    pub fn auth_type(&mut self, auth: AuthType<'a>)
        ensures
            final(self).auth_type == auth,
            final(self).host == old(self).host,
            final(self).db_name == old(self).db_name,
    {
        self.auth_type = auth;
    }

    /// Configure the database name.
    pub fn db_name(&mut self, db_nam: &'a str)
        ensures
            final(self).db_name == db_nam,
            final(self).host == old(self).host,
            final(self).auth_type == old(self).auth_type,
    {
        self.db_name = db_nam;
    }

    /// Validate the configuration: a connection needs a host and a
    /// database name. On success the checked parameters are handed out
    /// for the transport to act on.
    pub fn connect(&self) -> (r: Result<ConnConfig<'a>, DbError>)
        ensures
            self.host@.len() == 0 ==> (r matches Err(e) && e is NoHostProvided),
            self.host@.len() > 0 && self.db_name@.len() == 0 ==> (r matches Err(e)
                && e is BlankDatabaseName),
            self.host@.len() > 0 && self.db_name@.len() > 0 ==> (r matches Ok(c) && c.host
                == self.host && c.auth == self.auth_type && c.db_name == self.db_name),
    {
        if self.host.is_empty() {
            return Err(DbError::NoHostProvided);
        }
        if self.db_name.is_empty() {
            return Err(DbError::BlankDatabaseName);
        }
        Ok(ConnConfig { host: self.host, auth: self.auth_type, db_name: self.db_name })
    }
}

} // verus!
