# libunftp core

The configuration and connection-routing core of an FTP server, verified with
Verus.

- `src/` is the verified library: the replies of the `MODE` and `STRU`
  commands (`commands/`), reply codes (`reply.rs`), decimal notation
  (`decimal.rs`), peer addresses (`net.rs`), and the server's configuration
  builder with the decisions its listening loops take: which mode to listen
  in, where a proxied connection goes, what to do with a data connection, and
  the passive mode reply (`ftpserver.rs`).
- `app/` holds the networking: address parsing, binding and accepting with
  tokio, and the PROXY protocol loop, which hands each connection to the
  library's decisions.
- `tests/` runs the library on concrete values.
