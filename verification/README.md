# auth_api

An account service: users sign up, log in with a password and receive a
bearer token (an HS256 JSON Web Token valid for one day), and call the
private routes with it.

- `src/` is the verified library (Verus): token framing, signing and
  checking (`token`, `jwt_auth`), the claims and their expiry (`claims`,
  `time`), password hashing (`password`), the login and signup decisions
  (`login`, `signup`), users and the authenticated principal (`user`), and
  the HTTP status of every failure (`route_error`).
- `app/` is the actix-web server around it: the database pool and queries
  (diesel), the JSON forms of the library's values (serde), the bearer
  middleware and the route handlers.
- `tests/` exercises the library on concrete values.
