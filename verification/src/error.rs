//! Errors of the server, with the code, HTTP status and message that an
//! error response carries.
use vstd::prelude::*;

verus! {

/// An error of the server. The causes that come from other libraries (the
/// `.env` loader, the file system, the database) are held as their text.
#[derive(Debug)]
pub enum AppError {
    /// The `.env` file exists but could not be loaded.
    Dotenv(String),
    /// A required environment variable is not set.
    MissingEnvVar { name: String },
    /// The bind address is not a socket address.
    InvalidBindAddress { value: String },
    /// An input/output operation failed.
    Io(String),
    /// The log subscriber could not be installed.
    TracingInit(String),
    /// A request carried an invalid value.
    Validation(String),
    /// A requested todo does not exist.
    NotFound(String),
    /// The database reported an error.
    Database(String),
}

/// An `AppError` with its texts as character sequences.
pub enum AppErrorView {
    Dotenv(Seq<char>),
    MissingEnvVar(Seq<char>),
    InvalidBindAddress(Seq<char>),
    Io(Seq<char>),
    TracingInit(Seq<char>),
    Validation(Seq<char>),
    NotFound(Seq<char>),
    Database(Seq<char>),
}

impl View for AppError {
    type V = AppErrorView;

    open spec fn view(&self) -> AppErrorView {
        match self {
            AppError::Dotenv(d) => AppErrorView::Dotenv(d@),
            AppError::MissingEnvVar { name } => AppErrorView::MissingEnvVar(name@),
            AppError::InvalidBindAddress { value } => AppErrorView::InvalidBindAddress(value@),
            AppError::Io(d) => AppErrorView::Io(d@),
            AppError::TracingInit(d) => AppErrorView::TracingInit(d@),
            AppError::Validation(m) => AppErrorView::Validation(m@),
            AppError::NotFound(m) => AppErrorView::NotFound(m@),
            AppError::Database(d) => AppErrorView::Database(d@),
        }
    }
}

/// The machine-readable code of an error.
pub open spec fn error_code(e: AppErrorView) -> Seq<char> {
    match e {
        AppErrorView::Dotenv(_) => "dotenv_load_failed"@,
        AppErrorView::MissingEnvVar(_) => "missing_env_var"@,
        AppErrorView::InvalidBindAddress(_) => "invalid_bind_address"@,
        AppErrorView::Io(_) => "io_error"@,
        AppErrorView::TracingInit(_) => "tracing_init_failed"@,
        AppErrorView::Validation(_) => "validation_error"@,
        AppErrorView::NotFound(_) => "not_found"@,
        AppErrorView::Database(_) => "database_error"@,
    }
}

/// The HTTP status of an error: 400 for an invalid request, 404 for a missing
/// todo, 500 for everything else.
pub open spec fn error_status(e: AppErrorView) -> u16 {
    match e {
        AppErrorView::Validation(_) => 400,
        AppErrorView::NotFound(_) => 404,
        _ => 500,
    }
}

/// The human-readable message of an error.
pub open spec fn error_message(e: AppErrorView) -> Seq<char> {
    match e {
        AppErrorView::Dotenv(d) => "failed to load .env file: "@ + d,
        AppErrorView::MissingEnvVar(name) => "missing required environment variable `"@ + name
            + "`"@,
        AppErrorView::InvalidBindAddress(value) => "failed to parse BIND_ADDR value `"@ + value
            + "`"@,
        AppErrorView::Io(d) => "i/o error: "@ + d,
        AppErrorView::TracingInit(d) => "failed to initialize tracing: "@ + d,
        AppErrorView::Validation(m) => m,
        AppErrorView::NotFound(m) => m,
        AppErrorView::Database(d) => "database error: "@ + d,
    }
}

impl AppError {
    /// The machine-readable code of this error.
    pub fn code(&self) -> (r: &'static str)
        ensures
            r@ == error_code(self@),
    {
        match self {
            AppError::Dotenv(_) => "dotenv_load_failed",
            AppError::MissingEnvVar { .. } => "missing_env_var",
            AppError::InvalidBindAddress { .. } => "invalid_bind_address",
            AppError::Io(_) => "io_error",
            AppError::TracingInit(_) => "tracing_init_failed",
            AppError::Validation(_) => "validation_error",
            AppError::NotFound(_) => "not_found",
            AppError::Database(_) => "database_error",
        }
    }

    /// The HTTP status code of the response that reports this error.
    pub fn status_code(&self) -> (r: u16)
        ensures
            r == error_status(self@),
    {
        match self {
            AppError::Validation(_) => 400,
            AppError::NotFound(_) => 404,
            _ => 500,
        }
    }

    /// The message of this error, as its `Display` form writes it.
    pub fn message(&self) -> (r: String)
        ensures
            r@ == error_message(self@),
    {
        match self {
            AppError::Dotenv(d) => prefixed("failed to load .env file: ", d.as_str()),
            AppError::MissingEnvVar { name } => quoted(
                "missing required environment variable `",
                name.as_str(),
            ),
            AppError::InvalidBindAddress { value } => quoted(
                "failed to parse BIND_ADDR value `",
                value.as_str(),
            ),
            AppError::Io(d) => prefixed("i/o error: ", d.as_str()),
            AppError::TracingInit(d) => prefixed("failed to initialize tracing: ", d.as_str()),
            AppError::Validation(m) => m.clone(),
            AppError::NotFound(m) => m.clone(),
            AppError::Database(d) => prefixed("database error: ", d.as_str()),
        }
    }
}

/// `head` followed by `tail`.
pub(crate) fn prefixed(head: &str, tail: &str) -> (r: String)
    ensures
        r@ == head@ + tail@,
{
    let mut r = String::from_str(head);
    r.append(tail);
    r
}

/// `head`, then `body`, then a closing back-quote.
fn quoted(head: &str, body: &str) -> (r: String)
    ensures
        r@ == head@ + body@ + "`"@,
{
    let mut r = prefixed(head, body);
    r.append("`");
    r
}

/// Two errors of different kinds never share a code, so a client can tell
/// the kind of a failure from its code alone.
pub proof fn lemma_codes_identify_kinds(a: AppErrorView, b: AppErrorView)
    requires
        error_code(a) == error_code(b),
    ensures
        a is Dotenv <==> b is Dotenv,
        a is MissingEnvVar <==> b is MissingEnvVar,
        a is InvalidBindAddress <==> b is InvalidBindAddress,
        a is Io <==> b is Io,
        a is TracingInit <==> b is TracingInit,
        a is Validation <==> b is Validation,
        a is NotFound <==> b is NotFound,
        a is Database <==> b is Database,
{
    reveal_strlit("dotenv_load_failed");
    reveal_strlit("missing_env_var");
    reveal_strlit("invalid_bind_address");
    reveal_strlit("io_error");
    reveal_strlit("tracing_init_failed");
    reveal_strlit("validation_error");
    reveal_strlit("not_found");
    reveal_strlit("database_error");
    assert("dotenv_load_failed"@.len() == 18);
    assert("missing_env_var"@.len() == 15);
    assert("invalid_bind_address"@.len() == 20);
    assert("io_error"@.len() == 8);
    assert("tracing_init_failed"@.len() == 19);
    assert("validation_error"@.len() == 16);
    assert("not_found"@.len() == 9);
    assert("database_error"@.len() == 14);
    assert(error_code(a).len() == error_code(b).len());
}

} // verus!
