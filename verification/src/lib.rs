//! Verified core of an interactive atom sandbox: element data, electron
//! shells, nucleus composition, the control-panel state machine and the
//! order in which pairs of atoms interact.

pub mod decimal;
pub mod element;
pub mod templates;
pub mod shells;
pub mod nucleons;
pub mod controls;
pub mod interactions;
