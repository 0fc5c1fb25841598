//! The parts of the server configuration that are computed from the text of
//! environment variables.
use vstd::prelude::*;
use crate::text::{lemma_trimmed_idempotent, same_text, split_on, split_text, trim_text, trimmed};

verus! {

/// The origins allowed by CORS when `CORS_ALLOWED_ORIGINS` is not set.
pub open spec fn default_origins() -> Seq<Seq<char>> {
    seq!["http://127.0.0.1:8080"@, "http://localhost:8080"@]
}

/// The pieces trimmed, without those that trimming left empty, in order.
pub open spec fn nonempty_trimmed(pieces: Seq<Seq<char>>) -> Seq<Seq<char>>
    decreases pieces.len(),
{
    if pieces.len() == 0 {
        Seq::empty()
    } else {
        let rest = nonempty_trimmed(pieces.drop_last());
        let t = trimmed(pieces.last());
        if t.len() > 0 {
            rest.push(t)
        } else {
            rest
        }
    }
}

/// The allowed origins for a value of `CORS_ALLOWED_ORIGINS`: the
/// comma-separated entries, trimmed, without empty ones; the defaults when
/// the variable is not set.
pub open spec fn allowed_origins(value: Option<Seq<char>>) -> Seq<Seq<char>> {
    match value {
        Some(v) => nonempty_trimmed(split_on(v, ',')),
        None => default_origins(),
    }
}

/// The text of an optional string.
pub open spec fn option_text(value: Option<String>) -> Option<Seq<char>> {
    match value {
        Some(v) => Some(v@),
        None => None,
    }
}

/// Reads `CORS_ALLOWED_ORIGINS`.
pub fn parse_cors_allowed_origins(value: Option<String>) -> (r: Vec<String>)
    ensures
        r.deep_view() == allowed_origins(option_text(value)),
        value matches Some(v) ==> r.deep_view() == split_on(v@, ',').map_values(
            |p: Seq<char>| trimmed(p),
        ).filter(|t: Seq<char>| t.len() > 0),
        value is None ==> r.deep_view() == default_origins(),
{
    proof {
        if let Some(v) = &value {
            lemma_origins_are_filter(split_on(v@, ','));
        }
    }
    match value {
        Some(v) => {
            let pieces = split_text(v.as_str(), ',');
            let ghost all = pieces.deep_view();
            let mut out: Vec<String> = Vec::new();
            let n = pieces.len();
            for i in 0..n
                invariant
                    n == pieces.len(),
                    all == pieces.deep_view(),
                    all == split_on(v@, ','),
                    out.deep_view() == nonempty_trimmed(all.take(i as int)),
            {
                let t = trim_text(pieces[i]);
                assert(all.take(i + 1).drop_last() =~= all.take(i as int));
                assert(all.take(i + 1).last() == pieces[i as int]@);
                if !t.is_empty() {
                    out.push(t.to_owned());
                    assert(out.deep_view() =~= nonempty_trimmed(all.take(i as int)).push(t@));
                }
            }
            assert(all.take(n as int) =~= all);
            out
        },
        None => {
            let mut out: Vec<String> = Vec::new();
            out.push(String::from_str("http://127.0.0.1:8080"));
            out.push(String::from_str("http://localhost:8080"));
            assert(out.deep_view() =~= default_origins());
            out
        },
    }
}

/// The allowed origins of a list of pieces are the pieces trimmed, with the
/// empty ones left out and every other one kept, in order, with no limit on
/// their number.
pub proof fn lemma_origins_are_filter(pieces: Seq<Seq<char>>)
    ensures
        nonempty_trimmed(pieces) == pieces.map_values(|p: Seq<char>| trimmed(p)).filter(
            |t: Seq<char>| t.len() > 0,
        ),
    decreases pieces.len(),
{
    reveal(Seq::filter);
    if pieces.len() > 0 {
        lemma_origins_are_filter(pieces.drop_last());
        assert(pieces.map_values(|p: Seq<char>| trimmed(p)).drop_last() =~= pieces.drop_last().map_values(
            |p: Seq<char>| trimmed(p),
        ));
    }
}

/// Every allowed origin is non-empty and has no surrounding white space.
pub proof fn lemma_origins_trimmed(pieces: Seq<Seq<char>>)
    ensures
        forall|i: int|
            0 <= i < nonempty_trimmed(pieces).len() ==> {
                &&& (#[trigger] nonempty_trimmed(pieces)[i]).len() > 0
                &&& trimmed(nonempty_trimmed(pieces)[i]) == nonempty_trimmed(pieces)[i]
            },
    decreases pieces.len(),
{
    if pieces.len() > 0 {
        let rest = nonempty_trimmed(pieces.drop_last());
        lemma_origins_trimmed(pieces.drop_last());
        lemma_trimmed_idempotent(pieces.last());
        assert forall|i: int| 0 <= i < nonempty_trimmed(pieces).len() implies {
            &&& (#[trigger] nonempty_trimmed(pieces)[i]).len() > 0
            &&& trimmed(nonempty_trimmed(pieces)[i]) == nonempty_trimmed(pieces)[i]
        } by {
            if i < rest.len() {
                assert(nonempty_trimmed(pieces)[i] == rest[i]);
            }
        }
    }
}

/// The static directory for a value of `STATIC_DIR`: the trimmed text, or
/// none when the variable is unset or holds only white space.
pub open spec fn static_dir(value: Option<Seq<char>>) -> Option<Seq<char>> {
    match value {
        Some(v) => if trimmed(v).len() == 0 {
            None
        } else {
            Some(trimmed(v))
        },
        None => None,
    }
}

/// Reads `STATIC_DIR`; the result is the path of the directory to serve.
pub fn parse_static_dir(value: Option<String>) -> (r: Option<String>)
    ensures
        option_text(r) == static_dir(option_text(value)),
        value matches Some(v) ==> (trimmed(v@).len() > 0 ==> (r matches Some(d) && d@ == trimmed(
            v@,
        ))),
        value matches Some(v) ==> (trimmed(v@).len() == 0 ==> r is None),
        value is None ==> r is None,
{
    match value {
        Some(v) => {
            let t = trim_text(v.as_str());
            if t.is_empty() {
                None
            } else {
                Some(t.to_owned())
            }
        },
        None => None,
    }
}

/// The bind address when `BIND_ADDR` is not set.
pub open spec fn default_bind_addr() -> Seq<char> {
    "0.0.0.0:8080"@
}

/// The log filter when `RUST_LOG` is not set.
pub open spec fn default_rust_log() -> Seq<char> {
    "backend=info,tower_http=info"@
}

/// The text of the address to listen on: the value of `BIND_ADDR`, or the
/// default address when the variable is not set.
pub fn bind_addr_text(value: Option<String>) -> (r: String)
    ensures
        r@ == match option_text(value) {
            Some(v) => v,
            None => default_bind_addr(),
        },
{
    match value {
        Some(v) => v,
        None => String::from_str("0.0.0.0:8080"),
    }
}

/// The log filter: the value of `RUST_LOG`, or the default filter when the
/// variable is not set.
pub fn rust_log_filter(value: Option<String>) -> (r: String)
    ensures
        r@ == match option_text(value) {
            Some(v) => v,
            None => default_rust_log(),
        },
{
    match value {
        Some(v) => v,
        None => String::from_str("backend=info,tower_http=info"),
    }
}

/// How a failure to load the `.env` file is handled: a missing file is no
/// error, any other failure is reported with its text.
pub fn dotenv_failure(file_not_found: bool, detail: String) -> (r: Option<crate::error::AppError>)
    ensures
        file_not_found ==> r is None,
        !file_not_found ==> (r matches Some(e) && e@ == crate::error::AppErrorView::Dotenv(detail@)),
{
    if file_not_found {
        None
    } else {
        Some(crate::error::AppError::Dotenv(detail))
    }
}

/// Whether a request from `origin` may be answered under CORS: exactly when
/// the origin is one of the allowed origins.
pub fn origin_allowed(origins: &Vec<String>, origin: &str) -> (r: bool)
    ensures
        r == origins.deep_view().contains(origin@),
{
    let n = origins.len();
    for i in 0..n
        invariant
            n == origins.len(),
            forall|j: int| 0 <= j < i ==> origins.deep_view()[j] != origin@,
    {
        if same_text(origins[i].as_str(), origin) {
            assert(origins.deep_view()[i as int] == origin@);
            return true;
        }
    }
    false
}

/// The outcome of reading the configuration, given the outcome of each read:
/// the first failure in the order the reads happen (the `.env` file, then
/// `DATABASE_URL`, then `BIND_ADDR`), or the database address and the bind
/// address when every read succeeded.
pub fn first_config_failure<A, E>(
    dotenv: Option<E>,
    database_url: Result<String, E>,
    bind_addr: Result<A, E>,
) -> (r: Result<(String, A), E>)
    ensures
        dotenv matches Some(e) ==> r == Err::<(String, A), E>(e),
        dotenv is None && database_url is Err ==> r == Err::<(String, A), E>(database_url->Err_0),
        dotenv is None && database_url is Ok && bind_addr is Err ==> r == Err::<(String, A), E>(
            bind_addr->Err_0,
        ),
        dotenv is None && database_url is Ok && bind_addr is Ok ==> r == Ok::<(String, A), E>(
            (database_url->Ok_0, bind_addr->Ok_0),
        ),
{
    if let Some(e) = dotenv {
        return Err(e);
    }
    match database_url {
        Err(e) => Err(e),
        Ok(url) => match bind_addr {
            Err(e) => Err(e),
            Ok(addr) => Ok((url, addr)),
        },
    }
}

} // verus!
