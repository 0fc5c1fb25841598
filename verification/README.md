# todomvc

A TodoMVC application (an HTTP API over PostgreSQL and a Leptos browser
client) whose rules are verified with Verus.

- `src/` is the verified library: title validation, not-found answers and
  error codes of the API (`routes`, `error`), the configuration read from
  the environment (`config`), the client's list of todos and its filters
  (`todo_list`, `filter`), the client's API errors and addresses (`api`),
  the decisions of the page (`ui`), and the one-request-at-a-time guard of
  its buttons (`request`). `text` and `ident` state what the
  string functions of `std` and the UUID text of the `uuid` crate compute.
- `app/` is the program around it: the axum server with its sqlx repository,
  and the Leptos components that call the library.
- `tests/` runs the library on concrete values.
