//! The decisions of the HTTP handlers and of the todo repository: which
//! requests are valid, and which outcomes of the database are errors.
use vstd::prelude::*;
use crate::error::{AppError, AppErrorView};
use crate::ident::{uuid_string, uuid_text};
use crate::text::{is_white_space, lemma_trimmed_ends, lemma_trimmed_idempotent, trim_text, trimmed};

verus! {

/// What validating a title gives: the title without surrounding white space,
/// or a validation error when nothing else is left.
pub open spec fn title_validation(title: Seq<char>) -> Result<Seq<char>, AppErrorView> {
    if trimmed(title).len() == 0 {
        Err(AppErrorView::Validation("title must not be empty"@))
    } else {
        Ok(trimmed(title))
    }
}

/// A result of the handlers with its texts as character sequences.
pub open spec fn text_result_view(r: Result<String, AppError>) -> Result<Seq<char>, AppErrorView> {
    match r {
        Ok(s) => Ok(s@),
        Err(e) => Err(e@),
    }
}

/// Checks the title of a new or renamed todo and returns it trimmed.
pub fn validate_title(title: &str) -> (r: Result<String, AppError>)
    ensures
        text_result_view(r) == title_validation(title@),
        trimmed(title@).len() > 0 ==> (r matches Ok(t) && t@ == trimmed(title@)),
        trimmed(title@).len() == 0 ==> (r matches Err(e) && e@ == AppErrorView::Validation(
            "title must not be empty"@,
        )),
{
    let trimmed_title = trim_text(title);
    if trimmed_title.is_empty() {
        return Err(AppError::Validation(String::from_str("title must not be empty")));
    }
    Ok(trimmed_title.to_owned())
}

/// Checks the title of a partial update, when there is one.
pub fn validate_optional_title(title: Option<String>) -> (r: Result<Option<String>, AppError>)
    ensures
        match title {
            None => r matches Ok(None),
            Some(t) => match (r, title_validation(t@)) {
                (Ok(Some(v)), Ok(expected)) => v@ == expected,
                (Err(e), Err(expected)) => e@ == expected,
                _ => false,
            },
        },
{
    match title {
        Some(t) => {
            let v = validate_title(t.as_str());
            match v {
                Ok(s) => Ok(Some(s)),
                Err(e) => Err(e),
            }
        },
        None => Ok(None),
    }
}

/// Only a blank title is refused: a title with any character that is not
/// white space, whatever its length, is accepted as its trimmed text, and a
/// refused title is refused as empty.
pub proof fn lemma_only_blank_titles_refused(title: Seq<char>)
    ensures
        title_validation(title) is Err <==> trimmed(title).len() == 0,
        trimmed(title).len() > 0 ==> title_validation(title) == Ok::<Seq<char>, AppErrorView>(
            trimmed(title),
        ),
        trimmed(title).len() == 0 ==> title_validation(title) == Err::<Seq<char>, AppErrorView>(
            AppErrorView::Validation("title must not be empty"@),
        ),
{
}

/// A title that passed validation passes again, unchanged.
pub proof fn lemma_validation_idempotent(title: Seq<char>)
    requires
        title_validation(title) is Ok,
    ensures
        title_validation(title_validation(title)->Ok_0) == title_validation(title),
{
    lemma_trimmed_idempotent(title);
}

/// An accepted title is never blank: it has a first and a last character,
/// and neither is white space.
pub proof fn lemma_accepted_title_not_blank(title: Seq<char>)
    requires
        title_validation(title) is Ok,
    ensures
        title_validation(title)->Ok_0.len() > 0,
        !is_white_space(title_validation(title)->Ok_0[0]),
        !is_white_space(title_validation(title)->Ok_0.last()),
{
    lemma_trimmed_ends(title);
}

/// The message that reports a missing todo.
pub open spec fn not_found_message(id: u128) -> Seq<char> {
    "todo `"@ + uuid_text(id) + "` not found"@
}

/// The error that reports that no todo has the identifier `id`.
pub fn not_found(id: u128) -> (r: AppError)
    ensures
        r@ == AppErrorView::NotFound(not_found_message(id)),
{
    let mut m = String::from_str("todo `");
    let id_text = uuid_string(id);
    m.append(id_text.as_str());
    m.append("` not found");
    AppError::NotFound(m)
}

/// The answer to an update: the updated todo, or not found when the
/// database had no todo with that identifier.
pub fn found_or_not_found<T>(id: u128, todo: Option<T>) -> (r: Result<T, AppError>)
    ensures
        match todo {
            Some(t) => r == Ok::<T, AppError>(t),
            None => r matches Err(e) && e@ == AppErrorView::NotFound(not_found_message(id)),
        },
{
    match todo {
        Some(t) => Ok(t),
        None => Err(not_found(id)),
    }
}

/// The answer to a deletion: success, or not found when nothing was deleted.
pub fn deleted_or_not_found(id: u128, deleted: bool) -> (r: Result<(), AppError>)
    ensures
        deleted ==> r is Ok,
        !deleted ==> (r matches Err(e) && e@ == AppErrorView::NotFound(not_found_message(id))),
{
    if deleted {
        Ok(())
    } else {
        Err(not_found(id))
    }
}

/// Whether a partial update changes anything: when neither the title nor the
/// completion flag is given, the repository only reads the todo.
pub fn update_has_changes(title: Option<&str>, completed: Option<bool>) -> (r: bool)
    ensures
        r == (title.is_some() || completed.is_some()),
{
    title.is_some() || completed.is_some()
}

/// Whether a delete statement removed a todo, given the rows it affected.
pub fn deleted_from_rows(rows_affected: u64) -> (r: bool)
    ensures
        r == (rows_affected > 0),
{
    rows_affected > 0
}

} // verus!
