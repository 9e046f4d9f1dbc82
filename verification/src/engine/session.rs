//! The session: a shared-ownership handle around one lock-guarded
//! backend connection. Handles are cloned freely; all of them share the
//! same connection, and the lock inside `Db` grants many concurrent
//! readers or one exclusive writer.

use vstd::prelude::*;
use std::sync::Arc;
use crate::engine::db::Db;

verus! {

/// Marker for types that can stand at the root of a fresh session.
pub trait NewSession {}

/// A shared handle to one lock-guarded backend connection.
pub struct Session<T>(Arc<T>);

/// Relies on std's `Arc::clone`: the returned handle refers to the same
/// allocation, so it denotes the same value.
#[verifier::external_body]
fn arc_clone<T>(a: &Arc<T>) -> (r: Arc<T>)
    ensures
        r == *a,
{
    Arc::clone(a)
}

/// Relies on std's `Arc::as_ref`: a shared reference to the value the
/// allocation holds.
#[verifier::external_body]
fn arc_get<T>(a: &Arc<T>) -> (r: &T)
    ensures
        *r == **a,
{
    a.as_ref()
}

impl<T> Session<Db<T>> {
    /// Open a session over a fresh connection wrapper. Every clone of
    /// the returned handle shares this one connection.
    pub fn new(t: T) -> (r: Session<Db<T>>)
        ensures
            forall|v: T| r@.inv(v),
    {
        Session(Arc::new(Db::new(t)))
    }
}

impl<T> Session<T> {
    /// The shared value all handles of this session refer to.
    pub closed spec fn view(&self) -> T {
        *self.0
    }

    /// Reference to the shared inner value.
    pub fn get_ref(&self) -> (r: &T)
        ensures
            *r == self@,
    {
        arc_get(&self.0)
    }

    /// Convert into the internal shared pointer.
    pub fn into_inner(self) -> (r: Arc<T>)
        ensures
            *r == self@,
    {
        self.0
    }
}

impl<T> Clone for Session<T> {
    /// A new handle to the same session: O(1), the connection is not
    /// cloned.
    fn clone(&self) -> (r: Self)
        ensures
            r@ == self@,
    {
        Session(arc_clone(&self.0))
    }
}

} // verus!
