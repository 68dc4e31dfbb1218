# photobomber

The back-end of a festival photo-sharing service. `src/` is a library verified with Verus:

- `numeric`, `text` — decimal and hexadecimal text of integers, small string helpers.
- `auth`, `jwt`, `claims` — token claims, their JSON layout and how it is read back,
  signing and checking with `jsonwebtoken`, lifetimes, credentials, and validation of
  decoded claims.
- `cookies`, `middleware` — the authentication cookies and the decisions of the
  authentication middleware, as steps the server drives.
- `paths`, `images`, `upvote` — file names and extensions, the upload rules and the stored
  names of images, the lookup of requested images, the leaderboard query, upvote budgets.
- `location`, `stages` — the location board.
- `db`, `settings` — the database set-up sequence, the upload switch, service settings and
  allowed browser origins.

`app/` is the actix-web server around the library: HTTP, files, SQLite, the upvote cache,
and the serde forms of the library's types. `tests/` runs the library on concrete values.
