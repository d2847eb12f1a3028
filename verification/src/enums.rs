//! The closed vocabularies of the panel.

pub mod change_type;
pub mod effect;
pub mod message;
