//! Node lifecycle control for a desktop shell around an embedded block-validation node:
//! the controller's state machine, the statistics snapshot it displays, the bounded log
//! buffer it renders, and the text formatting shared by them.

pub mod blocks;
pub mod control;
pub mod error;
pub mod geoip;
pub mod log_capture;
pub mod services;
pub mod shell;
pub mod statistics;
pub mod tasks;
pub mod util;
