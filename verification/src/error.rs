//! The ways in which one analysis pass can fail.

use vstd::prelude::*;

verus! {

/// Why an analysis pass produced no diagnostics.
#[derive(Clone, Copy, Debug, PartialEq, Eq, Structural)]
pub enum AnalysisError {
    /// The parser produced no syntax tree at all.
    ParseFailure,
    /// No constructor in the document fills a field from the dependency.
    NoFieldBindingFound,
    /// A name cannot fill its pattern's gap, or the pattern compiler
    /// rejected the pattern.
    QueryCompileFailure,
    /// A match lacks the capture that is read from it, or that capture's
    /// byte offsets do not cut a piece of text out of the document.
    MalformedMatch,
}

impl AnalysisError {
    /// A short name for the failure, for logs.
    pub fn name(&self) -> (name: &'static str)
        ensures
            name@ == match *self {
                AnalysisError::ParseFailure => "ParseFailure"@,
                AnalysisError::NoFieldBindingFound => "NoFieldBindingFound"@,
                AnalysisError::QueryCompileFailure => "QueryCompileFailure"@,
                AnalysisError::MalformedMatch => "MalformedMatch"@,
            },
    {
        match self {
            AnalysisError::ParseFailure => "ParseFailure",
            AnalysisError::NoFieldBindingFound => "NoFieldBindingFound",
            AnalysisError::QueryCompileFailure => "QueryCompileFailure",
            AnalysisError::MalformedMatch => "MalformedMatch",
        }
    }
}

} // verus!
