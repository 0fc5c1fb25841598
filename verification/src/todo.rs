//! A todo as the API hands it out.
use vstd::prelude::*;

verus! {

/// One todo. Timestamps are microseconds since the UNIX epoch, in UTC.
#[derive(Debug, PartialEq, Eq)]
pub struct Todo {
    /// The todo's identifier, the 128-bit value of its UUID.
    pub id: u128,
    pub title: String,
    pub completed: bool,
    /// Rank in the list: todos are listed by ascending position.
    pub position: i64,
    pub created_at: i64,
    pub updated_at: i64,
}

impl Clone for Todo {
    fn clone(&self) -> (r: Self)
        ensures
            r == *self,
    {
        Todo {
            id: self.id,
            title: self.title.clone(),
            completed: self.completed,
            position: self.position,
            created_at: self.created_at,
            updated_at: self.updated_at,
        }
    }
}

} // verus!
