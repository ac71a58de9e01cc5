//! Authorization core of a multi-tenant data platform: a permission model,
//! an in-memory attribute store, a policy decision engine and a validator
//! for bearer credentials.

pub mod ape;
pub mod token;
