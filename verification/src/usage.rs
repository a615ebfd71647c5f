//! Picking the first argument out of each match of the usage pattern.

use vstd::prelude::*;
use crate::capture::capture_at;
use crate::error::AnalysisError;
use crate::pattern::ARGUMENT_CAPTURE;
use crate::span::{match_views, NodeSpan, QueryMatch};

verus! {

/// Whether each match of a list has a first-argument capture.
pub open spec fn all_have_argument(matches: Seq<Seq<NodeSpan>>) -> bool {
    forall|i: int|
        0 <= i < matches.len() ==> (#[trigger] capture_at(matches[i], ARGUMENT_CAPTURE as int))
            is Some
}

/// The first-argument node of each match of the usage pattern, in the
/// order of the matches. `MalformedMatch` where any match has too few
/// captures to hold one.
pub open spec fn argument_nodes(matches: Seq<Seq<NodeSpan>>) -> Result<
    Seq<NodeSpan>,
    AnalysisError,
> {
    if !all_have_argument(matches) {
        Err(AnalysisError::MalformedMatch)
    } else {
        Ok(Seq::new(matches.len(), |i: int| matches[i][ARGUMENT_CAPTURE as int]))
    }
}

/// The outcome of a search for first arguments, with the list of nodes
/// as a sequence.
pub open spec fn nodes_view(nodes: Result<Vec<NodeSpan>, AnalysisError>) -> Result<
    Seq<NodeSpan>,
    AnalysisError,
> {
    match nodes {
        Ok(spans) => Ok(spans@),
        Err(e) => Err(e),
    }
}

/// Records the first-argument node of each match.
pub fn select_arguments(matches: &Vec<QueryMatch>) -> (nodes: Result<Vec<NodeSpan>, AnalysisError>)
    ensures
        nodes_view(nodes) == argument_nodes(match_views(matches@)),
{
    let ghost views = match_views(matches@);
    let mut nodes: Vec<NodeSpan> = Vec::new();
    let mut i: usize = 0;
    while i < matches.len()
        invariant
            i <= matches.len(),
            views == match_views(matches@),
            forall|k: int|
                0 <= k < i ==> (#[trigger] capture_at(views[k], ARGUMENT_CAPTURE as int)) is Some,
            nodes@.len() == i,
            forall|k: int| 0 <= k < i ==> nodes@[k] == views[k][ARGUMENT_CAPTURE as int],
        decreases matches.len() - i,
    {
        match matches[i].capture(ARGUMENT_CAPTURE) {
            None => {
                assert(capture_at(views[i as int], ARGUMENT_CAPTURE as int) is None);
                return Err(AnalysisError::MalformedMatch);
            },
            Some(span) => {
                nodes.push(span);
            },
        }
        i += 1;
    }
    proof {
        assert(nodes@ =~= Seq::new(views.len(), |k: int| views[k][ARGUMENT_CAPTURE as int]));
    }
    Ok(nodes)
}

} // verus!
