# ticketing

A small ticket tracker served over HTTP (axum, askama, PostgreSQL through
sqlx). The library in `src/` holds its logic, verified with Verus:

- `token`: the `auth-token` cookie format, `user-<id>.<expiration>.<signature>`,
  its issuing and its parsing (exactly the pattern `^user-(\d+)\.(.+)\.(.+)`),
  and the proof that an issued token reads back as its user.
- `board`: ticket statuses and the board's columns, the stable sort by creation
  time, and which page or fragment shows the tickets.
- `auth`: sign-up (bcrypt hashing), login checks, the development login, how a
  request's context is resolved from its cookie, and the small page decisions.
- `configuration`: settings, the connection string, and the environment name.
- `error`, `ctx`, `models`, `templates`, `text`: errors and their client
  classes, the request context, stored records, page data with the creation
  date shown on tickets, and text helpers.

`app/` is the server around it: routing, middleware, the database queries,
configuration loading and template rendering.
