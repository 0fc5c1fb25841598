//! The decisions of the page: the classes and labels it shows, and what a
//! key press or a finished edit leads to.
use vstd::prelude::*;
use crate::filter::TodoFilter;
use crate::text::{same_text, trim_text, trimmed};

verus! {

/// The class of the footer: hidden while the list is empty.
pub fn footer_class(has_todos: bool) -> (r: &'static str)
    ensures
        r@ == if has_todos {
            "footer"@
        } else {
            "footer hidden"@
        },
{
    if has_todos {
        "footer"
    } else {
        "footer hidden"
    }
}

/// The class of the main section: hidden while the list is empty.
pub fn main_class(has_todos: bool) -> (r: &'static str)
    ensures
        r@ == if has_todos {
            "main"@
        } else {
            "main hidden"@
        },
{
    if has_todos {
        "main"
    } else {
        "main hidden"
    }
}

/// The words after the number of todos left: singular for exactly one.
pub fn items_left_label(remaining: usize) -> (r: &'static str)
    ensures
        r@ == if remaining == 1 {
            " item left"@
        } else {
            " items left"@
        },
{
    if remaining == 1 {
        " item left"
    } else {
        " items left"
    }
}

/// The class of the link to a filter: selected when it is the current one.
pub fn filter_link_class(current: TodoFilter, link: TodoFilter) -> (r: &'static str)
    ensures
        r@ == if current == link {
            "selected"@
        } else {
            ""@
        },
{
    if current == link {
        "selected"
    } else {
        ""
    }
}

/// The class of the "Clear completed" button: hidden when nothing is completed.
pub fn clear_completed_class(completed: usize) -> (r: &'static str)
    ensures
        r@ == if completed == 0 {
            "clear-completed hidden"@
        } else {
            "clear-completed"@
        },
{
    if completed == 0 {
        "clear-completed hidden"
    } else {
        "clear-completed"
    }
}

/// The class of a todo's list item.
pub fn todo_class(completed: bool, editing: bool) -> (r: &'static str)
    ensures
        r@ == match (completed, editing) {
            (true, true) => "todo completed editing"@,
            (true, false) => "todo completed"@,
            (false, true) => "todo editing"@,
            (false, false) => "todo"@,
        },
{
    match (completed, editing) {
        (true, true) => "todo completed editing",
        (true, false) => "todo completed",
        (false, true) => "todo editing",
        (false, false) => "todo",
    }
}

/// Whether ticking a todo's box asks the server for a change: only when the
/// new state differs from the todo's.
pub fn completed_changed(current: bool, requested: bool) -> (r: bool)
    ensures
        r == (current != requested),
{
    current != requested
}

/// What a key pressed in a todo's edit field does.
#[derive(Debug, Clone, Copy, PartialEq, Eq, Structural)]
pub enum EditKey {
    /// Enter: commit the edit.
    Commit,
    /// Escape: restore the title and leave editing.
    Cancel,
    /// Any other key: nothing.
    Other,
}

/// The action of a key in a todo's edit field.
pub fn edit_key_action(key: &str) -> (r: EditKey)
    ensures
        r == if key@ == "Enter"@ {
            EditKey::Commit
        } else if key@ == "Escape"@ {
            EditKey::Cancel
        } else {
            EditKey::Other
        },
{
    if same_text(key, "Enter") {
        EditKey::Commit
    } else if same_text(key, "Escape") {
        EditKey::Cancel
    } else {
        EditKey::Other
    }
}

/// What committing the edit of a todo's title does.
#[derive(Debug)]
pub enum CommitPlan {
    /// The todo is not being edited: nothing happens.
    Skip,
    /// The edited title is blank: leave editing and delete the todo.
    Delete,
    /// The edited title, trimmed, is the old one: show it and leave editing.
    Keep(String),
    /// The title changed: leave editing and ask the server to rename the
    /// todo; the field then shows this title if the server agrees, and the
    /// old one if it does not.
    Rename(String),
}

/// A `CommitPlan` with its title as a character sequence.
pub enum CommitPlanView {
    Skip,
    Delete,
    Keep(Seq<char>),
    Rename(Seq<char>),
}

impl View for CommitPlan {
    type V = CommitPlanView;

    open spec fn view(&self) -> CommitPlanView {
        match self {
            CommitPlan::Skip => CommitPlanView::Skip,
            CommitPlan::Delete => CommitPlanView::Delete,
            CommitPlan::Keep(t) => CommitPlanView::Keep(t@),
            CommitPlan::Rename(t) => CommitPlanView::Rename(t@),
        }
    }
}

/// The plan for committing an edit, given whether the todo is being edited,
/// the text of the edit field and the todo's title.
pub open spec fn commit_plan(editing: bool, draft: Seq<char>, original: Seq<char>) -> CommitPlanView {
    if !editing {
        CommitPlanView::Skip
    } else if trimmed(draft).len() == 0 {
        CommitPlanView::Delete
    } else if trimmed(draft) == original {
        CommitPlanView::Keep(trimmed(draft))
    } else {
        CommitPlanView::Rename(trimmed(draft))
    }
}

/// A commit keeps the title without asking the server only when the
/// trimmed edit is exactly the old title; any other non-blank edit renames
/// the todo to the trimmed edit, a blank edit deletes it, and nothing happens
/// outside editing.
pub proof fn lemma_commit_cases(editing: bool, draft: Seq<char>, original: Seq<char>)
    ensures
        !editing ==> commit_plan(editing, draft, original) == CommitPlanView::Skip,
        editing && trimmed(draft).len() == 0 ==> commit_plan(editing, draft, original)
            == CommitPlanView::Delete,
        editing && trimmed(draft).len() > 0 && trimmed(draft) == original ==> commit_plan(
            editing,
            draft,
            original,
        ) == CommitPlanView::Keep(original),
        editing && trimmed(draft).len() > 0 && trimmed(draft) != original ==> commit_plan(
            editing,
            draft,
            original,
        ) == CommitPlanView::Rename(trimmed(draft)),
        commit_plan(editing, draft, original) is Keep ==> trimmed(draft) == original,
{
}

/// Decides what committing an edit does.
pub fn plan_commit(editing: bool, draft: &str, original: &str) -> (r: CommitPlan)
    ensures
        r@ == commit_plan(editing, draft@, original@),
        !editing ==> r is Skip,
        editing && trimmed(draft@).len() == 0 ==> r is Delete,
        editing && trimmed(draft@).len() > 0 && trimmed(draft@) == original@ ==> (
        r matches CommitPlan::Keep(t) && t@ == original@),
        editing && trimmed(draft@).len() > 0 && trimmed(draft@) != original@ ==> (
        r matches CommitPlan::Rename(t) && t@ == trimmed(draft@)),
{
    if !editing {
        return CommitPlan::Skip;
    }
    let t = trim_text(draft);
    if t.is_empty() {
        return CommitPlan::Delete;
    }
    if same_text(t, original) {
        return CommitPlan::Keep(t.to_owned());
    }
    CommitPlan::Rename(t.to_owned())
}

/// What pressing a key in the new-todo field does.
#[derive(Debug)]
pub enum NewTodoPlan {
    /// Not Enter, or a todo is being created already: nothing happens.
    Ignore,
    /// The list of todos is not available: the failure is logged.
    MissingStore,
    /// The field holds only white space: it is emptied.
    ClearInput,
    /// A todo with this title is created.
    Create(String),
}

/// Decides what a key press in the new-todo field does.
pub fn plan_new_todo(key: &str, is_creating: bool, has_store: bool, value: &str) -> (r:
    NewTodoPlan)
    ensures
        !(key@ == "Enter"@) || is_creating ==> r is Ignore,
        key@ == "Enter"@ && !is_creating && !has_store ==> r is MissingStore,
        key@ == "Enter"@ && !is_creating && has_store && trimmed(value@).len() == 0
            ==> r is ClearInput,
        key@ == "Enter"@ && !is_creating && has_store && trimmed(value@).len() > 0 ==> (
        r matches NewTodoPlan::Create(t) && t@ == trimmed(value@)),
{
    if !same_text(key, "Enter") || is_creating {
        return NewTodoPlan::Ignore;
    }
    if !has_store {
        return NewTodoPlan::MissingStore;
    }
    let t = trim_text(value);
    if t.is_empty() {
        return NewTodoPlan::ClearInput;
    }
    NewTodoPlan::Create(t.to_owned())
}

/// What a todo's edit field shows once the server has answered a rename:
/// the new title when the rename succeeded, the old title when it failed.
pub fn draft_after_rename(renamed: bool, title: String, original: String) -> (r: String)
    ensures
        r@ == if renamed {
            title@
        } else {
            original@
        },
{
    if renamed {
        title
    } else {
        original
    }
}

/// What the new-todo field is set to once the server has answered a
/// creation: emptied when the todo was created, left as it is (none) when
/// the creation failed.
pub fn new_todo_field_after(created: bool) -> (r: Option<String>)
    ensures
        created ==> (r matches Some(v) && v@ == Seq::<char>::empty()),
        !created ==> r is None,
{
    if created {
        Some(String::new())
    } else {
        None
    }
}

} // verus!
