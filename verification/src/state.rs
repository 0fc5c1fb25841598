//! The shared state of the server.
use vstd::prelude::*;

verus! {

/// What every request handler of the server can reach: the handle of its
/// database.
#[derive(Clone, Debug)]
pub struct AppState<D> {
    pub db: D,
}

impl<D> AppState<D> {
    /// The state of a server that uses the database `db`.
    pub fn new(db: D) -> (r: AppState<D>)
        ensures
            r.db == db,
    {
        AppState { db }
    }
}

} // verus!
