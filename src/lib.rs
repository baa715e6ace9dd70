//! Presence registry and mail broker of a LAN messaging and file-drop
//! service, with the decisions of each WebSocket connection, verified with
//! Verus.
pub mod center;
pub mod controllers;
pub mod file;
pub mod ids;
pub mod ip;
pub mod messages;
pub mod presence;
pub mod registry;
pub mod response;
pub mod session;
pub mod slots;
pub mod tables;
pub mod user;
pub mod utils;
