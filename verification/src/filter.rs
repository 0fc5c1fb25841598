//! Which todos the list shows, chosen by the hash part of the page address.
use vstd::prelude::*;
use crate::text::same_text;

verus! {

/// The three views of the todo list.
#[derive(Debug, Clone, Copy, PartialEq, Eq, Structural)]
pub enum TodoFilter {
    All,
    Active,
    Completed,
}

/// The filter that an address hash selects: `#/active` and `#/completed`
/// select their views, any other hash selects all todos.
pub open spec fn filter_of_hash(hash: Seq<char>) -> TodoFilter {
    if hash == "#/active"@ {
        TodoFilter::Active
    } else if hash == "#/completed"@ {
        TodoFilter::Completed
    } else {
        TodoFilter::All
    }
}

/// The address hash of a filter.
pub open spec fn hash_of(filter: TodoFilter) -> Seq<char> {
    match filter {
        TodoFilter::All => "#/"@,
        TodoFilter::Active => "#/active"@,
        TodoFilter::Completed => "#/completed"@,
    }
}

/// Whether a filter shows a todo with the given completion flag.
pub open spec fn shows(filter: TodoFilter, completed: bool) -> bool {
    match filter {
        TodoFilter::All => true,
        TodoFilter::Active => !completed,
        TodoFilter::Completed => completed,
    }
}

impl TodoFilter {
    /// The filter selected by an address hash.
    pub fn from_hash(hash: &str) -> (r: TodoFilter)
        ensures
            r == filter_of_hash(hash@),
    {
        if same_text(hash, "#/active") {
            TodoFilter::Active
        } else if same_text(hash, "#/completed") {
            TodoFilter::Completed
        } else {
            TodoFilter::All
        }
    }

    /// The address hash that selects this filter.
    pub fn as_hash(self) -> (r: &'static str)
        ensures
            r@ == hash_of(self),
    {
        match self {
            TodoFilter::All => "#/",
            TodoFilter::Active => "#/active",
            TodoFilter::Completed => "#/completed",
        }
    }

    /// Whether this filter shows a todo whose completion flag is `completed`.
    pub fn shows(self, completed: bool) -> (r: bool)
        ensures
            r == shows(self, completed),
    {
        match self {
            TodoFilter::All => true,
            TodoFilter::Active => !completed,
            TodoFilter::Completed => completed,
        }
    }
}

/// The filter of the page's current address: the one its hash selects, or
/// all todos when the address has no readable hash.
pub fn filter_from_location(hash: Option<String>) -> (r: TodoFilter)
    ensures
        r == match hash {
            Some(h) => filter_of_hash(h@),
            None => TodoFilter::All,
        },
{
    match hash {
        Some(h) => TodoFilter::from_hash(h.as_str()),
        None => TodoFilter::All,
    }
}

/// Following the hash of a filter leads back to that filter.
pub proof fn lemma_hash_round_trip(filter: TodoFilter)
    ensures
        filter_of_hash(hash_of(filter)) == filter,
{
    reveal_strlit("#/");
    reveal_strlit("#/active");
    reveal_strlit("#/completed");
    assert("#/"@.len() == 2);
    assert("#/active"@.len() == 8);
    assert("#/completed"@.len() == 11);
}

/// The hashes of the three filters are the only ones that select them, and
/// the hash of a filter selected by a hash is that hash, unless the hash
/// selected all todos by default.
pub proof fn lemma_hash_of_selected(hash: Seq<char>)
    ensures
        filter_of_hash(hash) != TodoFilter::All ==> hash_of(filter_of_hash(hash)) == hash,
        hash == "#/"@ ==> filter_of_hash(hash) == TodoFilter::All,
{
    reveal_strlit("#/");
    reveal_strlit("#/active");
    reveal_strlit("#/completed");
    assert("#/"@.len() == 2);
    assert("#/active"@.len() == 8);
    assert("#/completed"@.len() == 11);
}

} // verus!
