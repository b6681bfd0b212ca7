# parabellum_web

The rules of the Parabellum game's web layer, written in Verus and proved
against their contracts: what the JSON API and the server-rendered pages
answer, how forms and requests are read, how access and refresh tokens are
formed and checked, and how pages lay out villages, queues, armies and
reports.

Layout:

- `src/` — the verified library.
  - `api/` — the JSON API: request checks, building details, the rally point
    and the marketplace, training and research, the map, leaderboard and
    reports, and the answers' shapes.
  - `handlers/` — the server-rendered pages: form reading, command checks,
    the building page, sign-up and sign-in, report lines, the session.
  - `tokens.rs`, `metrics.rs`, `ids.rs` — authentication tokens, the
    authentication counters, and UUIDs.
  - `views.rs`, `text.rs`, `text_order.rs`, `order.rs`, `model.rs`,
    `errors.rs` — view helpers, text and ordering helpers, the game data the
    web layer reads, and the error types.
- `tests/` — tests of the library on concrete values.
- `app/` — what stays around the library: the clock that access tokens are
  issued and checked at, the process-wide counters, the serde glue of the
  forms, and the figures the game computes in floating point.
