//! Address representation and micro-form validation for a URI-style
//! addressing scheme.
//!
//! An authority identifies a communication endpoint in one of three mutually
//! exclusive forms: a human-readable name, a raw IP address, or an opaque
//! numeric identifier. The compact binary ("micro") encoding of a URI admits
//! only some of these forms, under strict size constraints; the validator
//! decides whether an authority is legal input to that encoding.

pub mod authority;
pub mod validation;
