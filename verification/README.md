# koro_api

The Koro issue tracker's HTTP API: organizations, projects, issues with keys such
as `CORE-12`, per-project workflow statuses, a board, relations between issues,
an activity log, invitations, accounts and image attachments.

## Layout

- `src/` — the verified library (Verus). Every request of the API is a flow: a
  state machine whose `start` reads the request and whose `step` takes what the
  database reported and says what to do next, down to the answer. Each `step` is
  proved against a decision table (`*_next`) that states, for every state and
  report, the next state and action, including every error answer. Beside the
  flows stand the pure rules they use: issue keys, slugs, text trimming, paging,
  upload checks, the SQL of the "my issues" list, token claims.
- `app/` — the server: routes, the SQL of each step, transactions, JWT signing,
  password hashes and the object store. It runs the library's flows and does not
  decide anything itself.
- `tests/` — examples of every flow and rule, run against the compiled library.
