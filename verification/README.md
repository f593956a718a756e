# chatauth

Two small web services and the verified library they are built on.

* `src/` is the library, checked with Verus. `auth` keeps users (with Argon2
  password hashes), decides registrations, logins and token refreshes, and
  computes what goes into access and refresh tokens and their cookies. `chat`
  keeps the rooms a websocket connection is subscribed to, within a room limit,
  answers each client request with a status code, and stores rooms in memory.
* `app/` is the HTTP and websocket front: configuration files, key files, JSON,
  JWT signing and checking, cookie jars, the shared room registry of broadcast
  channels and the tokio tasks that forward room events. `app` runs the
  authentication service by default and the chat service with the argument
  `chat`.
* `tests/` exercises the library from outside.
