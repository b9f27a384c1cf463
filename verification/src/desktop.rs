//! The settings window: what it holds of the agent, what it edits, and what it
//! announces.

pub mod assets;
pub mod bindings;
pub mod events;
pub mod link;
pub mod presenter_panel;
pub mod presenter_panel_laws;
pub mod presenter_state;
pub mod presenter_texts;
pub mod profile_edits;
pub mod profile_laws;
pub mod profiles;
pub mod requests;
pub mod state;
pub mod state_laws;
