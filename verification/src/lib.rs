//! Settings model and reducer for an airspace export configuration tool.

pub mod laws;
pub mod model;
pub mod names;
pub mod state;
pub mod token;
