//! The verified core of a key-value server: the command messages, the stores
//! that hold the values, the service that answers commands, the client's
//! command line, and what the server does on each event of a connection.

pub mod args;
pub mod client;
pub mod config;
pub mod pb;
pub mod server;
pub mod service;
pub mod storage;

pub use args::{process_args, ClientArgs};
pub use client::Client;
pub use config::{ClientConfig, ConnectAddress, Connects, ListenAddress, RocksdbPath, ServerConfig};
pub use pb::cmd::cmd_request;
pub use pb::cmd::{CmdRequest, CmdResponse, Get, Publish, SetValue, Subscribe, Unsubscribe};
pub use pb::{STATUS_BAD_REQUEST, STATUS_INTERNAL_ERROR, STATUS_OK};
pub use server::{ConnAction, ConnEvent, ConnState, Server};
pub use service::{get_response, process_cmd, set_response, CmdService, Service, StoreService};
pub use storage::mem_storage::MemStorage;
pub use storage::{Storage, StorageError};
