# kvserver

A key-value server whose core is verified with Verus.

- `src/` is the verified library. `pb` holds the command messages and their
  constructors; `storage` the `Storage` trait and the in-memory store (a
  `dashmap::DashMap` behind trusted wrappers); `service` carries out commands
  (`process_cmd`), runs the registered hooks (`StoreService`, `Service`) and
  states the laws of the store (`service::laws`); `server` decides what each
  event of a connection does; `args` turns a command line into a request;
  `config` holds the settings.
- `app/` is the program around it: `main server` runs the server on the
  RocksDB store, `main client <command>` sends one command. It reads the
  settings (TOML), speaks protobuf over length-delimited frames (tokio,
  prost), and shares the server between connections.
- `extras/cmd.proto` is the wire schema that `app/pb.rs` declares.
