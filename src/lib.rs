//! Loading of sensitive-data detection rules: raw rule records are validated
//! and compiled into regular-expression matchers, and the compiled set forms
//! a read-only registry.
pub mod laws;
pub mod pattern;
pub mod rule;
pub mod settings;
