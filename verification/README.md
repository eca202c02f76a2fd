# api

Request logic of a trading API, verified with Verus.

- `src/pagination.rs`: the page a listing request asks for (`parse_page`, `parse_cursor`),
  the cursors of the next and previous page (`compute_cursors`, `pairs_page_meta`), and
  the laws that tie them together (a cursor that a page hands out leads to the page it names).
- `src/decimal.rs`: unsigned decimal numerals, read and written, with their round trip.
- `src/config.rs`: numeric settings with defaults.
- `src/health.rs`: from what each dependency check found to a component report, and
  from a report to the answer of the health endpoints.
- `app/`: the HTTP handlers (axum, sqlx, reqwest, tokio) that do the I/O around the library.
- `tests/`: tests of the library.
