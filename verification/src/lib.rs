//! State machine of an interactive kernel-module dashboard.
//!
//! The crate models the control loop of a terminal session: which panel
//! holds the focus, whether free-text entry is active and in which
//! sub-mode, which module action awaits confirmation, and where each
//! scrollable panel stands.  Every transition is a verified function;
//! terminal input, drawing and the privileged module operations stay
//! outside, behind plain values.

pub mod command;
pub mod event;
pub mod focus;
pub mod input;
pub mod key;
pub mod query;
pub mod scroll;
pub mod session;
