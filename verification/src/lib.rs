//! Decoding and validation of structured profile documents.
//!
//! A document arrives as bytes, is parsed into a generic tree, mapped onto the
//! typed [`model::Profile`], and then checked field by field. Every stage has
//! its own failure kind, and the validation stage reports all violations.

pub mod clock;
pub mod decode;
pub mod engine;
pub mod model;
pub mod path;
pub mod pipeline;
pub mod report;
pub mod rules;
pub mod text;
pub mod tree;
pub mod validate;
pub mod yaml;
