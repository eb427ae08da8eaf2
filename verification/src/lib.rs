//! Core of the Alpee module host: the registry of modules, the manager that
//! loads and tracks them, the IPC protocol spoken with module processes, the
//! WebSocket subscription rules and the outcomes of the REST command endpoint.

pub mod ids;
pub mod text;
pub mod error;
pub mod module;
pub mod config;
pub mod registry;
pub mod protocol;
pub mod ipc;
pub mod ws;
pub mod rest;
pub mod manager;
pub mod example_module;
