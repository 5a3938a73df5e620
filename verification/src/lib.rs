//! Sharing a clipboard and files between devices on a local network: the
//! state every device keeps, the rules by which peers authenticate, and the
//! messages they exchange.
pub mod table;
pub mod platform;
pub mod state;
pub mod auth;
pub mod text;
pub mod network;
pub mod clipboard;
pub mod file_transfer;
pub mod discovery;
