# auth_api

An authentication and user-management web service: registration, login,
token refresh and logout with JWT access and refresh tokens, and an
admin-only user listing.

- `src/` is the verified library: the response envelope, the mapping from
  errors to responses, role checks, JWT issuing and checking, password
  hashing, and each request handler as a step function from where the
  request stands (with the outcome of the last database or session-store
  call) to what to do next. `src/laws.rs` holds properties proved of the
  whole.
- `app/` is the HTTP server (axum, sqlx, redis): it runs the step functions
  and carries out the work they ask for.
- `tests/` exercises the library on concrete values.
