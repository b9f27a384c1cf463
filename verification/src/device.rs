//! Talking to a device: report bytes, presenter features, and the capture of
//! its controls.

pub mod arm;
pub mod arm_laws;
pub mod capture_restore;
pub mod pointer_speed;
pub mod presenter_control;
pub mod report;
pub mod restore_laws;
