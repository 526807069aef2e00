# login_service

Account registration and login over TCP with a four-byte answer protocol.

- `src/` is the verified library: the protocol codes (`protocol`), the
  server's connection state machine (`server_session`), the client's
  exchange state machine (`client_session`), the client's input handling
  (`client_cli`, `text`), the SQL statements of the account store (`sql`),
  accounts and SHA-512 crypt password hashing (`user`), and the server
  settings (`settings`).
- `app/` holds the two programs around it: the server (settings file, log
  output, `users.db` through sqlite, sockets and threads) and the
  command-line client. Each performs the actions its state machine returns
  and hands back what happened as events.
- `tests/` runs the library on concrete values.
