//! Verified core of the KiteA proxy panel: text rules, the Shoes
//! configuration builder, account and node rules, and the Shoes process
//! state machine.

pub mod text;
pub mod config;
pub mod outside;
pub mod system;
pub mod api;
pub mod auth;
pub mod nodes;
pub mod process;
pub mod panel;
