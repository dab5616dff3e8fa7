//! A client's connection to a remote assistant service: the single shared
//! handle, the sessions that relay streamed answers and transfers to the
//! user interface, and the local listener's decisions.

pub mod bridge;
pub mod chat;
pub mod config;
pub mod connection;
pub mod json;
pub mod mail;
pub mod models;
pub mod notify;
pub mod replies;
pub mod status;
pub mod text;
pub mod transfer;
