//! The settings read at start-up.

use vstd::prelude::*;

verus! {

/// The server's settings.
#[derive(Clone, Debug, PartialEq, Eq)]
pub struct ServerConfig {
    pub listen_address: ListenAddress,
    pub rocksdb_path: RocksdbPath,
    pub connects: Connects,
}

/// The address the server listens on.
#[derive(Clone, Debug, PartialEq, Eq)]
pub struct ListenAddress {
    pub addr: String,
}

/// The directory of the on-disk store.
#[derive(Clone, Debug, PartialEq, Eq)]
pub struct RocksdbPath {
    pub path: String,
}

/// How many connection permits the server hands out.
#[derive(Clone, Debug, PartialEq, Eq)]
pub struct Connects {
    pub max_conns: usize,
}

/// The client's settings.
#[derive(Clone, Debug, PartialEq, Eq)]
pub struct ClientConfig {
    pub connect_address: ConnectAddress,
}

/// The address the client connects to.
#[derive(Clone, Debug, PartialEq, Eq)]
pub struct ConnectAddress {
    pub server_addr: String,
}

} // verus!
