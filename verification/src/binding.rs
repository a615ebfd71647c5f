//! Choosing the bound field among the matches of the field-binding pattern.

use vstd::prelude::*;
use crate::capture::{capture_piece, capture_text};
use crate::error::AnalysisError;
use crate::pattern::{is_plain_name, plain_name, BINDING_CAPTURE};
use crate::span::{match_views, NodeSpan, QueryMatch};

verus! {

/// Whether each match of a list has an assigned-field capture that covers
/// a piece of `text`.
pub open spec fn all_bindings_readable(text: Seq<char>, matches: Seq<Seq<NodeSpan>>) -> bool {
    forall|i: int|
        0 <= i < matches.len() ==> (#[trigger] capture_text(
            text,
            matches[i],
            BINDING_CAPTURE as int,
        )) is Some
}

/// The field that a list of matches of the field-binding pattern binds: the
/// text under the assigned-field capture of the last match. No field where
/// there is no match. `MalformedMatch` where any match of the list, not only
/// the last, has no readable capture there.
pub open spec fn bound_field(text: Seq<char>, matches: Seq<Seq<NodeSpan>>) -> Result<
    Option<Seq<char>>,
    AnalysisError,
> {
    if !all_bindings_readable(text, matches) {
        Err(AnalysisError::MalformedMatch)
    } else if matches.len() == 0 {
        Ok(None)
    } else {
        Ok(capture_text(text, matches.last(), BINDING_CAPTURE as int))
    }
}

/// The outcome of a search for the bound field, with the field as the
/// characters it holds.
pub open spec fn chosen_view(chosen: Result<Option<String>, AnalysisError>) -> Result<
    Option<Seq<char>>,
    AnalysisError,
> {
    match chosen {
        Ok(Some(field)) => Ok(Some(field@)),
        Ok(None) => Ok(None),
        Err(e) => Err(e),
    }
}

/// Walks the matches in order and keeps the field of the latest one.
pub fn select_binding(text: &str, matches: &Vec<QueryMatch>) -> (chosen: Result<
    Option<String>,
    AnalysisError,
>)
    ensures
        chosen_view(chosen) == bound_field(text@, match_views(matches@)),
{
    let ghost views = match_views(matches@);
    let mut chosen: Option<String> = None;
    let mut i: usize = 0;
    while i < matches.len()
        invariant
            i <= matches.len(),
            views == match_views(matches@),
            forall|k: int|
                0 <= k < i ==> (#[trigger] capture_text(text@, views[k], BINDING_CAPTURE as int))
                    is Some,
            i == 0 ==> chosen is None,
            i > 0 ==> chosen is Some && Some(chosen->0@) == capture_text(
                text@,
                views[i - 1],
                BINDING_CAPTURE as int,
            ),
        decreases matches.len() - i,
    {
        match capture_piece(text, &matches[i], BINDING_CAPTURE) {
            None => {
                assert(capture_text(text@, views[i as int], BINDING_CAPTURE as int) is None);
                return Err(AnalysisError::MalformedMatch);
            },
            Some(piece) => {
                chosen = Some(piece.to_owned());
            },
        }
        i += 1;
    }
    Ok(chosen)
}

/// The field whose usages are to be searched, for a list of matches of
/// the field-binding pattern: the bound field, where there is one and its
/// name is plain. `NoFieldBindingFound` where the list binds no field,
/// `QueryCompileFailure` where the bound field's name is not plain, and the
/// failure of `bound_field` where it fails.
pub open spec fn field_to_search(text: Seq<char>, bindings: Seq<Seq<NodeSpan>>) -> Result<
    Seq<char>,
    AnalysisError,
> {
    match bound_field(text, bindings) {
        Err(e) => Err(e),
        Ok(None) => Err(AnalysisError::NoFieldBindingFound),
        Ok(Some(field)) => if is_plain_name(field) {
            Ok(field)
        } else {
            Err(AnalysisError::QueryCompileFailure)
        },
    }
}

/// The outcome of settling on a field, with the field as the characters it
/// holds.
pub open spec fn field_view(field: Result<String, AnalysisError>) -> Result<
    Seq<char>,
    AnalysisError,
> {
    match field {
        Ok(name) => Ok(name@),
        Err(e) => Err(e),
    }
}

/// Settles on the field whose usages are searched next, or ends the pass.
pub fn require_binding(text: &str, bindings: &Vec<QueryMatch>) -> (field: Result<
    String,
    AnalysisError,
>)
    ensures
        field_view(field) == field_to_search(text@, match_views(bindings@)),
{
    match select_binding(text, bindings) {
        Err(e) => Err(e),
        Ok(None) => Err(AnalysisError::NoFieldBindingFound),
        Ok(Some(field)) => if plain_name(field.as_str()) {
            Ok(field)
        } else {
            Err(AnalysisError::QueryCompileFailure)
        },
    }
}

} // verus!
