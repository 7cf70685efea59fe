//! Reading a text resource whole, creating it empty on request, with every
//! failure reported as a classified value.

pub mod error;
pub mod text;
pub mod store;
pub mod accessor;
pub mod laws;
