//! Output coordination and crash capture for a command-line tool that shows
//! a live progress indicator: severity filtering, console line layout,
//! breadcrumb buffering and the consent and capture decisions.

pub mod severity;
pub mod width;
pub mod console;
pub mod breadcrumb;
pub mod progress;
pub mod consent;
pub mod style;
pub mod crash;
pub mod dispatch;
