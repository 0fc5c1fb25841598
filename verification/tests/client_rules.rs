use todomvc::request::{clear_completed_click, toggle_all_click, RequestState};
use todomvc::api::{error_from_response, todo_url, ApiError, ErrorPayload};
use todomvc::filter::{filter_from_location, TodoFilter};
use todomvc::todo::Todo;
use todomvc::todo_list::{
    all_completed, done_count, push_todo, remaining_count, remove_todo, replace_todo,
    visible_todos,
};
use todomvc::ui::{
    clear_completed_class, completed_changed, edit_key_action, filter_link_class, footer_class,
    items_left_label, main_class, plan_commit, plan_new_todo, todo_class,
    CommitPlan, EditKey, NewTodoPlan, draft_after_rename, new_todo_field_after,
};

fn todo(id: u128, title: &str, completed: bool) -> Todo {
    Todo {
        id,
        title: title.to_owned(),
        completed,
        position: id as i64,
        created_at: 1_000 + id as i64,
        updated_at: 2_000 + id as i64,
    }
}

fn three_todos() -> Vec<Todo> {
    vec![todo(1, "first", false), todo(2, "second", true), todo(3, "third", false)]
}

#[test]
fn filter_hashes_round_trip() {
    for filter in [TodoFilter::All, TodoFilter::Active, TodoFilter::Completed] {
        assert_eq!(TodoFilter::from_hash(filter.as_hash()), filter);
    }
    assert_eq!(TodoFilter::All.as_hash(), "#/");
    assert_eq!(TodoFilter::Active.as_hash(), "#/active");
    assert_eq!(TodoFilter::Completed.as_hash(), "#/completed");
}

#[test]
fn unknown_hashes_show_all_todos() {
    assert_eq!(TodoFilter::from_hash(""), TodoFilter::All);
    assert_eq!(TodoFilter::from_hash("#/Active"), TodoFilter::All);
    assert_eq!(TodoFilter::from_hash("#/active/"), TodoFilter::All);
    assert_eq!(filter_from_location(None), TodoFilter::All);
    assert_eq!(filter_from_location(Some("#/completed".to_owned())), TodoFilter::Completed);
}

#[test]
fn filters_show_by_completion() {
    assert!(TodoFilter::All.shows(true) && TodoFilter::All.shows(false));
    assert!(TodoFilter::Active.shows(false) && !TodoFilter::Active.shows(true));
    assert!(TodoFilter::Completed.shows(true) && !TodoFilter::Completed.shows(false));
}

#[test]
fn created_todo_is_appended() {
    let mut todos = three_todos();
    push_todo(&mut todos, todo(4, "fourth", false));
    assert_eq!(todos.len(), 4);
    assert_eq!(todos[3], todo(4, "fourth", false));
}

#[test]
fn updated_todo_replaces_the_listed_one() {
    let mut todos = three_todos();
    let renamed = Todo { title: "renamed".to_owned(), completed: true, ..todo(3, "third", false) };
    replace_todo(&mut todos, renamed.clone());
    assert_eq!(todos, vec![todo(1, "first", false), todo(2, "second", true), renamed]);

    let mut untouched = three_todos();
    replace_todo(&mut untouched, todo(9, "elsewhere", true));
    assert_eq!(untouched, three_todos());
}

#[test]
fn only_the_first_duplicate_is_replaced() {
    let mut todos = vec![todo(5, "a", false), todo(5, "b", false)];
    replace_todo(&mut todos, todo(5, "c", true));
    assert_eq!(todos, vec![todo(5, "c", true), todo(5, "b", false)]);
}

#[test]
fn deleted_todo_is_removed() {
    let mut todos = three_todos();
    remove_todo(&mut todos, 2);
    assert_eq!(todos, vec![todo(1, "first", false), todo(3, "third", false)]);
    remove_todo(&mut todos, 42);
    assert_eq!(todos.len(), 2);
}

#[test]
fn removing_a_new_todo_restores_the_list() {
    let mut todos = three_todos();
    push_todo(&mut todos, todo(7, "temporary", false));
    remove_todo(&mut todos, 7);
    assert_eq!(todos, three_todos());
}

#[test]
fn visible_todos_follow_the_filter() {
    let todos = three_todos();
    assert_eq!(visible_todos(&todos, TodoFilter::All), todos);
    assert_eq!(
        visible_todos(&todos, TodoFilter::Active),
        vec![todo(1, "first", false), todo(3, "third", false)]
    );
    assert_eq!(visible_todos(&todos, TodoFilter::Completed), vec![todo(2, "second", true)]);
}

#[test]
fn counts_add_up_to_the_list() {
    let todos = three_todos();
    assert_eq!(remaining_count(&todos), 2);
    assert_eq!(done_count(&todos), 1);
    assert_eq!(remaining_count(&todos) + done_count(&todos), todos.len());
    assert_eq!(remaining_count(&Vec::new()), 0);
}

#[test]
fn all_completed_needs_a_non_empty_finished_list() {
    assert!(!all_completed(&Vec::new()));
    assert!(!all_completed(&three_todos()));
    assert!(all_completed(&vec![todo(1, "a", true), todo(2, "b", true)]));
}

#[test]
fn toggle_all_then_clear_completed_leaves_the_active_todo() {
    // The server answers "toggle all" and "clear completed" with the whole
    // list, which the client takes as it is; then a single todo is reset.
    let mut todos: Vec<Todo> = three_todos().into_iter().map(|t| Todo { completed: true, ..t }).collect();
    assert!(all_completed(&todos));
    replace_todo(&mut todos, todo(2, "second", false));
    assert_eq!(remaining_count(&todos), 1);
    let remaining = visible_todos(&todos, TodoFilter::Active);
    assert_eq!(remaining, vec![todo(2, "second", false)]);
}

#[test]
fn section_and_footer_classes() {
    assert_eq!(footer_class(true), "footer");
    assert_eq!(footer_class(false), "footer hidden");
    assert_eq!(main_class(true), "main");
    assert_eq!(main_class(false), "main hidden");
    assert_eq!(items_left_label(1), " item left");
    assert_eq!(items_left_label(0), " items left");
    assert_eq!(items_left_label(2), " items left");
    assert_eq!(filter_link_class(TodoFilter::Active, TodoFilter::Active), "selected");
    assert_eq!(filter_link_class(TodoFilter::Active, TodoFilter::All), "");
    assert_eq!(clear_completed_class(0), "clear-completed hidden");
    assert_eq!(clear_completed_class(3), "clear-completed");
}

#[test]
fn clearing_needs_completed_todos_and_no_running_request() {
    assert_eq!(clear_completed_click(RequestState::Idle, 2), (RequestState::Running, true));
    assert_eq!(clear_completed_click(RequestState::Idle, 0), (RequestState::Idle, false));
    assert_eq!(clear_completed_click(RequestState::Running, 2), (RequestState::Running, false));
}

#[test]
fn todo_item_classes() {
    assert_eq!(todo_class(true, true), "todo completed editing");
    assert_eq!(todo_class(true, false), "todo completed");
    assert_eq!(todo_class(false, true), "todo editing");
    assert_eq!(todo_class(false, false), "todo");
}

#[test]
fn toggling_to_the_same_state_sends_nothing() {
    assert!(!completed_changed(true, true));
    assert!(!completed_changed(false, false));
    assert!(completed_changed(false, true));
}

#[test]
fn edit_keys() {
    assert_eq!(edit_key_action("Enter"), EditKey::Commit);
    assert_eq!(edit_key_action("Escape"), EditKey::Cancel);
    assert_eq!(edit_key_action("a"), EditKey::Other);
}

#[test]
fn committing_an_edit() {
    assert!(matches!(plan_commit(false, "anything", "title"), CommitPlan::Skip));
    assert!(matches!(plan_commit(true, "  \t", "title"), CommitPlan::Delete));
    match plan_commit(true, "  title ", "title") {
        CommitPlan::Keep(t) => assert_eq!(t, "title"),
        other => panic!("unexpected plan {other:?}"),
    }
    match plan_commit(true, " new title ", "title") {
        CommitPlan::Rename(t) => assert_eq!(t, "new title"),
        other => panic!("unexpected plan {other:?}"),
    }
}

#[test]
fn entering_a_new_todo() {
    assert!(matches!(plan_new_todo("a", false, true, "x"), NewTodoPlan::Ignore));
    assert!(matches!(plan_new_todo("Enter", true, true, "x"), NewTodoPlan::Ignore));
    assert!(matches!(plan_new_todo("Enter", false, false, "x"), NewTodoPlan::MissingStore));
    assert!(matches!(plan_new_todo("Enter", false, true, "   "), NewTodoPlan::ClearInput));
    match plan_new_todo("Enter", false, true, "  buy milk ") {
        NewTodoPlan::Create(title) => assert_eq!(title, "buy milk"),
        other => panic!("unexpected plan {other:?}"),
    }
}

#[test]
fn api_error_constructors() {
    let unsupported = ApiError::unsupported_platform();
    assert_eq!(unsupported.status, None);
    assert_eq!(unsupported.code.as_deref(), Some("unsupported_platform"));
    assert_eq!(unsupported.message, "frontend API client is only available in wasm builds");

    let request = ApiError::request("request failed: offline".to_owned());
    assert_eq!(
        request,
        ApiError {
            status: None,
            code: Some("request_failed".to_owned()),
            message: "request failed: offline".to_owned(),
        }
    );

    let decode = ApiError::decode("failed to decode API response: eof".to_owned());
    assert_eq!(decode.code.as_deref(), Some("decode_failed"));
    assert_eq!(decode.display_text(), "failed to decode API response: eof");
}

#[test]
fn error_answers_become_api_errors() {
    let body = ErrorPayload {
        code: "validation_error".to_owned(),
        message: "title must not be empty".to_owned(),
    };
    assert_eq!(
        error_from_response(400, Ok(body)),
        ApiError {
            status: Some(400),
            code: Some("validation_error".to_owned()),
            message: "title must not be empty".to_owned(),
        }
    );
    assert_eq!(
        error_from_response(502, Err("expected value at line 1".to_owned())),
        ApiError {
            status: Some(502),
            code: Some("unexpected_error_response".to_owned()),
            message: "failed to decode error response: expected value at line 1".to_owned(),
        }
    );
}

#[test]
fn todo_addresses() {
    assert_eq!(todo_url(0xa1a2a3a4b1b2c1c2d1d2d3d4d5d6d7d8), "/api/todos/a1a2a3a4-b1b2-c1c2-d1d2-d3d4d5d6d7d8");
}

#[test]
fn toggling_all_waits_for_the_running_request() {
    assert_eq!(toggle_all_click(RequestState::Idle), (RequestState::Running, true));
    assert_eq!(toggle_all_click(RequestState::Running), (RequestState::Running, false));
}

#[test]
fn one_request_at_a_time() {
    // Click, click again while running, finish, click: two requests, never two at once.
    let mut state = RequestState::Idle;
    let mut in_flight = 0;
    let mut started = 0;
    for wanted in [Some(true), Some(true), None, Some(false), Some(true)] {
        match wanted {
            Some(wanted) => {
                let (next, start) = state.click(wanted);
                state = next;
                if start {
                    in_flight += 1;
                    started += 1;
                }
            }
            None => {
                state = state.finish();
                in_flight -= 1;
            }
        }
        assert!(in_flight <= 1);
        assert_eq!(state.is_running(), in_flight == 1);
    }
    assert_eq!(started, 2);
    assert_eq!(RequestState::Running.finish(), RequestState::Idle);
}

#[test]
fn request_and_decode_failures_carry_their_reason() {
    let request = ApiError::request_failure("offline");
    assert_eq!(request.code.as_deref(), Some("request_failed"));
    assert_eq!(request.message, "request failed: offline");
    assert_eq!(request.status, None);
    let decode = ApiError::decode_failure("eof");
    assert_eq!(decode.code.as_deref(), Some("decode_failed"));
    assert_eq!(decode.message, "failed to decode API response: eof");
}

#[test]
fn edit_field_after_a_rename() {
    assert_eq!(draft_after_rename(true, "new".to_owned(), "old".to_owned()), "new");
    assert_eq!(draft_after_rename(false, "new".to_owned(), "old".to_owned()), "old");
}

#[test]
fn new_todo_field_after_a_creation() {
    assert_eq!(new_todo_field_after(true), Some(String::new()));
    assert_eq!(new_todo_field_after(false), None);
}
