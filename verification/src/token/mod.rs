//! Validation of bearer credentials.

pub mod bindings;
pub mod token_handler;
