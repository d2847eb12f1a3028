//! The state, update and render cycle of a panel that lists pending changes
//! (added, modified and deleted entries) for review.
//!
//! The state owns the ordered list of changes. `update` turns one user action
//! into the effects that the host has to carry out, and `view` derives the
//! panel that the host draws. Styles are a total function of an element's role
//! and of its interaction status.

pub mod decimal;
pub mod enums;
pub mod layout;
pub mod panel;
pub mod structs;
pub mod style;
pub mod widget;
