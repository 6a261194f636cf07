# rust_backend

A small social feed backend: accounts with roles, sign-in by login and
password with session tokens, a paged feed of image posts, and like/dislike
ratings kept in per-post counters.

- `src/` is the verified library (Verus). It decides who may call an
  endpoint and what each outcome is answered with. Multi-step operations
  (sign-in, registration, creating and rating a post, serving a page of the
  feed) are state machines that take the outcome of the last database action
  and return the next action; single-statement operations (token lookup,
  sign-out, counting posts) are run by the app, and the library maps their
  outcome.
- `app/` is the actix-web server: it reads requests and sessions, runs the SQL
  that the library asks for with sqlx, writes images to disk, and serialises
  replies.
- `tests/` exercises the library on concrete values.
