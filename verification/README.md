# mystu

The backend of MyStu, a small campus forum: students of `stu.edu.cn` sign up
with a mailed verification code, log in for a pair of JWTs (a refresh token
and an access token), and write posts and comments.

* `src/` is the library, verified with Verus: error codes, the request
  filters and the router, the framing and checking of JWTs (signed by
  `jsonwebtoken`), verification codes (drawn with `rand`), and every decision
  the request handlers take between their database and Redis round trips.
* `app/` is the server around it: reading the environment and the clock,
  PostgreSQL (`sqlx`), Redis, mail (`lettre`), JSON (`serde`) and the HTTP
  framework.
* `tests/` exercises the library with the real outside crates linked.
