//! Core logic of a desktop manager for Minecraft-style game servers.
//!
//! The crate holds the decisions of the manager as plain functions on plain
//! values: the application settings and their defaults, the record that is
//! kept for each server, the steps that provision a server directory, the
//! encoding of server icons, and the navigation state of the interface.
//! Everything that touches the file system, the window or the screen is left
//! to the program that links this crate.

pub mod config;
pub mod icon;
pub mod ident;
pub mod panels;
pub mod provision;
pub mod random;
pub mod server;
pub mod state;
pub mod text;
pub mod window;
