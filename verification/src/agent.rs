//! The background agent: button dispatch and the presenter runtime.

pub mod button;
pub mod button_laws;
pub mod devices;
pub mod devices_laws;
pub mod worker;
pub mod worker_laws;
pub mod presenter;
pub mod presenter_laws;
