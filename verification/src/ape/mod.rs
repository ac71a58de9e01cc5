//! Attribute-based policy evaluation.

pub mod attribute_cache;
pub mod contexts;
pub mod helpers;
pub mod permissions;
pub mod policy_evaluator;
pub mod structs;
