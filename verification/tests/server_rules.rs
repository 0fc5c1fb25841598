use todomvc::config::{
    bind_addr_text, first_config_failure, origin_allowed, dotenv_failure, parse_cors_allowed_origins, parse_static_dir, rust_log_filter,
};
use todomvc::error::AppError;
use todomvc::routes::{
    deleted_from_rows, deleted_or_not_found, found_or_not_found, not_found,
    update_has_changes, validate_optional_title, validate_title,
};
use todomvc::state::AppState;
use todomvc::text::same_text;
use todomvc::todo::Todo;

const SAMPLE_ID: u128 = 0xa1a2a3a4b1b2c1c2d1d2d3d4d5d6d7d8;

fn sample_todo(id: u128, title: &str, completed: bool, position: i64) -> Todo {
    Todo {
        id,
        title: title.to_owned(),
        completed,
        position,
        created_at: 1_700_000_000_000_000 + position,
        updated_at: 1_700_000_000_000_000 + position,
    }
}

#[test]
fn validate_title_trims_surrounding_space() {
    match validate_title("  first todo  ") {
        Ok(title) => assert_eq!(title, "first todo"),
        Err(error) => panic!("unexpected error: {}", error.message()),
    }
    match validate_title("  renamed todo  ") {
        Ok(title) => assert_eq!(title, "renamed todo"),
        Err(error) => panic!("unexpected error: {}", error.message()),
    }
    match validate_title("\u{3000}\tvalid title\u{a0}\n") {
        Ok(title) => assert_eq!(title, "valid title"),
        Err(error) => panic!("unexpected error: {}", error.message()),
    }
}

#[test]
fn validate_title_rejects_blank_titles() {
    for blank in ["", "   ", "\t\n", "\u{2003}\u{205f}"] {
        match validate_title(blank) {
            Ok(title) => panic!("blank title accepted: {title:?}"),
            Err(error) => {
                assert!(matches!(error, AppError::Validation(_)));
                assert_eq!(error.code(), "validation_error");
                assert_eq!(error.status_code(), 400);
                assert_eq!(error.message(), "title must not be empty");
            }
        }
    }
}

#[test]
fn validated_title_validates_again_unchanged() {
    let once = validate_title("  twice  ").ok().unwrap();
    let twice = validate_title(&once).ok().unwrap();
    assert_eq!(once, twice);
}

#[test]
fn validate_optional_title_passes_absent_titles() {
    assert!(matches!(validate_optional_title(None), Ok(None)));
    match validate_optional_title(Some(" x ".to_owned())) {
        Ok(Some(title)) => assert_eq!(title, "x"),
        _ => panic!("expected a trimmed title"),
    }
    match validate_optional_title(Some("   ".to_owned())) {
        Err(error) => assert_eq!(error.code(), "validation_error"),
        _ => panic!("expected a validation error"),
    }
}

#[test]
fn identifiers_are_written_hyphenated_in_lower_case() {
    assert_eq!(not_found(0).message(), "todo `00000000-0000-0000-0000-000000000000` not found");
    assert_eq!(
        not_found(u128::MAX).message(),
        "todo `ffffffff-ffff-ffff-ffff-ffffffffffff` not found"
    );
    assert_eq!(
        not_found(0x0123456789abcdef0011223344556677).message(),
        "todo `01234567-89ab-cdef-0011-223344556677` not found"
    );
}

#[test]
fn not_found_reports_the_identifier() {
    let error = not_found(SAMPLE_ID);
    assert_eq!(error.code(), "not_found");
    assert_eq!(error.status_code(), 404);
    assert_eq!(
        error.message(),
        "todo `a1a2a3a4-b1b2-c1c2-d1d2-d3d4d5d6d7d8` not found"
    );
}

#[test]
fn update_of_missing_todo_is_not_found() {
    let todo = sample_todo(SAMPLE_ID, "renamed todo", true, 0);
    match found_or_not_found(SAMPLE_ID, Some(todo.clone())) {
        Ok(found) => assert_eq!(found, todo),
        Err(error) => panic!("unexpected error: {}", error.message()),
    }
    match found_or_not_found::<Todo>(7, None) {
        Ok(_) => panic!("missing todo reported as found"),
        Err(error) => {
            assert_eq!(error.status_code(), 404);
            assert_eq!(
                error.message(),
                "todo `00000000-0000-0000-0000-000000000007` not found"
            );
        }
    }
}

#[test]
fn delete_of_missing_todo_is_not_found() {
    assert!(deleted_or_not_found(SAMPLE_ID, true).is_ok());
    match deleted_or_not_found(SAMPLE_ID, false) {
        Ok(()) => panic!("missing todo reported as deleted"),
        Err(error) => assert_eq!(error.code(), "not_found"),
    }
    assert!(deleted_from_rows(1));
    assert!(deleted_from_rows(3));
    assert!(!deleted_from_rows(0));
}

#[test]
fn empty_partial_update_only_reads() {
    assert!(!update_has_changes(None, None));
    assert!(update_has_changes(Some("t"), None));
    assert!(update_has_changes(None, Some(false)));
}

#[test]
fn every_error_has_its_code_status_and_message() {
    let cases: Vec<(AppError, &str, u16, &str)> = vec![
        (
            AppError::Dotenv("line 3: bad".to_owned()),
            "dotenv_load_failed",
            500,
            "failed to load .env file: line 3: bad",
        ),
        (
            AppError::MissingEnvVar { name: "DATABASE_URL".to_owned() },
            "missing_env_var",
            500,
            "missing required environment variable `DATABASE_URL`",
        ),
        (
            AppError::InvalidBindAddress { value: "nowhere".to_owned() },
            "invalid_bind_address",
            500,
            "failed to parse BIND_ADDR value `nowhere`",
        ),
        (AppError::Io("broken pipe".to_owned()), "io_error", 500, "i/o error: broken pipe"),
        (
            AppError::TracingInit("already set".to_owned()),
            "tracing_init_failed",
            500,
            "failed to initialize tracing: already set",
        ),
        (AppError::Validation("bad".to_owned()), "validation_error", 400, "bad"),
        (AppError::NotFound("gone".to_owned()), "not_found", 404, "gone"),
        (
            AppError::Database("timeout".to_owned()),
            "database_error",
            500,
            "database error: timeout",
        ),
    ];
    for (error, code, status, message) in cases {
        assert_eq!(error.code(), code);
        assert_eq!(error.status_code(), status);
        assert_eq!(error.message(), message);
    }
}

#[test]
fn cors_origins_default_when_unset() {
    assert_eq!(
        parse_cors_allowed_origins(None),
        vec!["http://127.0.0.1:8080".to_owned(), "http://localhost:8080".to_owned()]
    );
}

#[test]
fn cors_origins_are_split_trimmed_and_non_empty() {
    assert_eq!(
        parse_cors_allowed_origins(Some(" http://a.test , ,http://b.test,".to_owned())),
        vec!["http://a.test".to_owned(), "http://b.test".to_owned()]
    );
    assert_eq!(parse_cors_allowed_origins(Some(String::new())), Vec::<String>::new());
    assert_eq!(parse_cors_allowed_origins(Some(" , \u{a0},".to_owned())), Vec::<String>::new());
    assert_eq!(
        parse_cors_allowed_origins(Some("http://localhost:8080".to_owned())),
        vec!["http://localhost:8080".to_owned()]
    );
}

#[test]
fn static_dir_is_trimmed_or_absent() {
    assert_eq!(parse_static_dir(None), None);
    assert_eq!(parse_static_dir(Some("   ".to_owned())), None);
    assert_eq!(parse_static_dir(Some(String::new())), None);
    assert_eq!(
        parse_static_dir(Some(" ../frontend/dist \n".to_owned())),
        Some("../frontend/dist".to_owned())
    );
}

#[test]
fn bind_address_and_log_filter_have_defaults() {
    assert_eq!(bind_addr_text(None), "0.0.0.0:8080");
    assert_eq!(bind_addr_text(Some("127.0.0.1:3000".to_owned())), "127.0.0.1:3000");
    assert_eq!(rust_log_filter(None), "backend=info,tower_http=info");
    assert_eq!(rust_log_filter(Some("backend=debug".to_owned())), "backend=debug");
}

#[test]
fn missing_dotenv_file_is_no_error() {
    assert!(dotenv_failure(true, "not found".to_owned()).is_none());
    match dotenv_failure(false, "line 2: unexpected character".to_owned()) {
        Some(error) => {
            assert_eq!(error.code(), "dotenv_load_failed");
            assert_eq!(error.message(), "failed to load .env file: line 2: unexpected character");
        }
        None => panic!("a broken .env file must be reported"),
    }
}

#[test]
fn app_state_holds_its_database() {
    let state = AppState::new("postgres://localhost/todos".to_owned());
    assert_eq!(state.db, "postgres://localhost/todos");
}

#[test]
fn only_configured_origins_are_allowed() {
    let origins = parse_cors_allowed_origins(None);
    assert!(origin_allowed(&origins, "http://localhost:8080"));
    assert!(origin_allowed(&origins, "http://127.0.0.1:8080"));
    assert!(!origin_allowed(&origins, "http://localhost:8081"));
    assert!(!origin_allowed(&Vec::new(), "http://localhost:8080"));
}

#[test]
fn error_codes_are_distinct() {
    let errors = vec![
        AppError::Dotenv(String::new()),
        AppError::MissingEnvVar { name: String::new() },
        AppError::InvalidBindAddress { value: String::new() },
        AppError::Io(String::new()),
        AppError::TracingInit(String::new()),
        AppError::Validation(String::new()),
        AppError::NotFound(String::new()),
        AppError::Database(String::new()),
    ];
    for (i, a) in errors.iter().enumerate() {
        for (j, b) in errors.iter().enumerate() {
            assert_eq!(i == j, a.code() == b.code());
        }
    }
}

#[test]
fn accepted_titles_are_never_blank() {
    let title = validate_title("\u{2003} a  b \u{2003}").ok().unwrap();
    assert_eq!(title, "a  b");
    assert!(!title.starts_with(char::is_whitespace));
    assert!(!title.ends_with(char::is_whitespace));
}

#[test]
fn configuration_failures_come_in_reading_order() {
    let ok_url: Result<String, &str> = Ok("postgres://db".to_owned());
    let ok_addr: Result<u16, &str> = Ok(8080);
    assert_eq!(first_config_failure::<u16, &str>(Some("dotenv"), Err("url"), Err("addr")), Err("dotenv"));
    assert_eq!(first_config_failure::<u16, &str>(None, Err("url"), Err("addr")), Err("url"));
    assert_eq!(first_config_failure(None, ok_url.clone(), Err("addr")), Err::<(String, u16), _>("addr"));
    assert_eq!(
        first_config_failure(None, ok_url, ok_addr),
        Ok(("postgres://db".to_owned(), 8080))
    );
}

#[test]
fn strings_compare_by_their_characters() {
    assert!(same_text("Enter", "Enter"));
    assert!(!same_text("Enter", "enter"));
    assert!(!same_text("", " "));
}
