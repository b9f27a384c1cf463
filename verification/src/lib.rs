//! Verified core of a Logitech device manager: configuration, the presenter
//! runtime, button dispatch, control capture, and the rules the desktop and
//! overlay windows draw from.

pub mod action_ring;
pub mod agent;
pub mod binding;
pub mod color;
pub mod config;
pub mod desktop;
pub mod device;
pub mod hook;
pub mod ipc;
pub mod ipc_laws;
pub mod order;
pub mod overlay;
pub mod overlay_laws;
pub mod presenter;
pub mod route;
pub mod table;
pub mod text;
pub mod text_laws;
