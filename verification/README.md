# oddee

The verified core of ODDEE, a service that records physical-world events
(camera, sensor, inventory, access-control and machine reports) and flags
the ones that do not belong.

`src/` is a Verus library:

- `time`: UTC instants, their order, look-back windows and the UTC hour.
- `text`: decimal and UUID text, and the white-space test behind `trim`.
- `event`, `anomaly`, `error`: the records, request validation and the
  failures the HTTP layer reports.
- `pagination`: page windows (default 50, at most 100) and `has_more`.
- `lookup`, `rules`, `detection`: the five detection rules, split into the
  lookups each rule asks of the store and the decision it takes on the
  answers; `run_all` runs them all in order.
- `event_log`: an in-memory store that answers the lookups, with the
  end-to-end laws of each rule.
- `replay`: the deterministic demonstration scenario.

`app/` is one program: `oddee` runs the HTTP service (axum and PostgreSQL
through sqlx), `oddee migrate` applies the SQL migrations in `./migrations`,
and `oddee replay [--delay-ms N]` posts the demonstration scenario to a
running service. It converts between the library's plain types and the wire
and row forms.
