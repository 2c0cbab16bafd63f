//! Device protocol, packet framing and application state machine of a
//! desktop client for Nothing and CMF earbuds.

pub mod protocol;
pub mod text;
pub mod bluetooth;
pub mod models;
pub mod config;
pub mod tray;
pub mod app;
pub mod components;
pub mod link;
