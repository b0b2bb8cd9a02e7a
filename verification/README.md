# Starship

The Starship GraphQL server and the Toolbox document runtime, with their rules proved by
Verus.

## Layout

- `src/` is the verified library. Every operation of the server is a function that takes the
  records it reads (a planet, the requester's membership and roles, a user, ...) and returns
  the record to write or the error to answer; its contract states which. Where a rule is not
  checked or a result is left open (a random identifier, a code checked against the clock),
  the doc comment says so.
  - `permissions/`: the permission rule of planets (`has_permission`), the permission groups,
    permission updates, and the laws of the rule.
  - `mutations/`, `queries.rs`, `resolvers.rs`, `guards.rs`, `sessions.rs`: the operations of the
    GraphQL API, the session guard and the reading of bearer tokens.
  - `auth.rs`, `ids.rs`, `login_tokens.rs`: password hashing, email validation, TOTP, random
    identifiers and signed login JWTs, from their crates (bcrypt, email_address, libreauth,
    rand, nanoid, jwt, hmac, sha2), each behind a small function whose contract says what the
    crate does.
  - `toolbox/`: the node tree of Toolbox pages, change observers and projects.
- `app/` is the server program: the database tables (SeaORM), the GraphQL objects
  (async-graphql), the environment and the HTTP endpoints (actix-web). It reads and
  writes records and hands them to the library.
- `tests/` runs the library on concrete values.

## Running the server

The server needs `DATABASE_URL` (PostgreSQL), `SECRET` (the key tokens are signed with),
`IP_ADDR` and `PORT`; with `SMTP_HOST` set, users must verify their email address before
logging in. GraphQL requests go to `POST /graphql`, GraphiQL is at `GET /graphql` and the
schema at `GET /schema`.
