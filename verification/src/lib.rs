//! Finds, in one C# document, the field that a constructor fills from an
//! injected dependency, and reports every call made through that field.

pub mod analyzer;
pub mod binding;
pub mod capture;
pub mod diagnostic;
pub mod dispatch;
pub mod engine;
pub mod error;
pub mod laws;
pub mod pattern;
pub mod placeholder;
pub mod span;
pub mod text;
pub mod usage;
