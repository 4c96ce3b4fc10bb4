# todo_api

The rules of a small todo HTTP service, verified with Verus.

- `src/` is the verified library:
  - `text`: Unicode whitespace trimming, ASCII case-insensitive comparison, decimal rendering.
  - `error`: the service's errors and their view.
  - `todo`: todos, field validation, patch validation, timestamp consistency, not-found decisions.
  - `query`: listing parameters, sorting and pagination.
  - `sql`: the listing queries, built with sqlx's `QueryBuilder`.
  - `aggregate`: commands and the events that accepting them yields.
  - `laws`: properties that hold across these functions.
- `app/` is the axum server: routing, database access and JSON, calling the library for every decision.
- `tests/` runs the library on concrete inputs.
