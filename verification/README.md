# graphql_server

The request logic of a small GraphQL server for users and their friends,
verified with Verus, and the actix-web / juniper / sqlx program that serves it.

## Layout

- `src/` — the verified library.
  - `errors.rs`: error kinds, the text a client sees for each, HTTP status codes.
  - `schemas.rs`: the user types and the validation of sign up requests.
  - `credentials.rs`: password hashing and checking (argon2), user ids (uuid),
    length checks (validator), each behind a small trusted wrapper.
  - `database.rs`: the outside work a request can ask for (`Request`), its
    answers (`Reply`), and the lookup of a user by name.
  - `graphql_schema.rs`: the GraphQL resolvers (`users`, `user`, `aboutMe`,
    `addFriend`, `deleteFriend`) as step machines.
  - `handlers.rs`: the HTTP handlers' decisions (sign up, log in, log out,
    admission to `/graphql`).
  - `model.rs`: a model of the tables (names, credentials, friendships), and
    proofs that the resolvers and sign up / log in read and write them as the
    API promises, step by step and over whole runs.
- `app/` — the server: routes, cookie sessions, the PostgreSQL pool, juniper.
  It performs each `Request` a step machine asks for and hands back the `Reply`.
- `tests/` — tests of the library.

Every step machine is started by a function that returns its first state and
the first piece of work, and goes on with `resume(reply)`, which returns either
the next state and piece of work or the finished outcome.
