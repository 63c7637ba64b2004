//! A live battery gauge for the terminal: the geometry that places the gauge
//! in the viewport, and the decisions of the render / poll / refresh loop.

pub mod dashboard;
pub mod layout;
pub mod trace;
