# townlink_server

The request-handling logic of the TownLink event server, verified with Verus.

- `src/` is the verified library: the SQL statements the server sends (`sql`), the
  bearer-token checks of its protected routes (`auth`), Google/Facebook sign-in
  (`social`, and the `login` state machine), the answers of each route (`routes`),
  the database addresses (`database`), points in time (`timestamp`), the records
  (`models`) and the text helpers they share (`text`).
- `app/` is the HTTP server around it: actix-web routes and middleware, PostgreSQL
  access with sqlx, HTTP calls to the identity providers with reqwest, and token
  signing and checking with jsonwebtoken.
- `tests/` runs the library on concrete values.
