//! The deployment that a run comes from.

use vstd::prelude::*;
use vstd::string::*;
use crate::dup::Dup;
use crate::text;

verus! {

/// What the state of the station says of a procedure.
#[derive(Debug, PartialEq, Eq)]
pub enum PullLookup {
    /// The state cannot be opened.
    Unavailable(String),
    /// The state cannot be read.
    Failed(String),
    /// The deployment that the procedure was pulled from, if any.
    Found(Option<String>),
}

/// View of [`PullLookup`].
pub enum PullLookupView {
    Unavailable(Seq<char>),
    Failed(Seq<char>),
    Found(Option<Seq<char>>),
}

impl DeepView for PullLookup {
    type V = PullLookupView;

    open spec fn deep_view(&self) -> PullLookupView {
        match self {
            PullLookup::Unavailable(v) => PullLookupView::Unavailable(v.deep_view()),
            PullLookup::Failed(v) => PullLookupView::Failed(v.deep_view()),
            PullLookup::Found(v) => PullLookupView::Found(v.deep_view()),
        }
    }
}

/// The deployment that a run comes from: none for a procedure that was not
/// pulled, and none where that cannot be found out. A run is never held up by
/// it.
pub open spec fn deployment_of(found: PullLookupView) -> Option<Seq<char>> {
    match found {
        PullLookupView::Found(id) => id,
        _ => None,
    }
}

/// What is logged where the deployment cannot be found out.
pub open spec fn lookup_warning(procedure_id: Seq<char>, found: PullLookupView) -> Option<Seq<char>> {
    match found {
        PullLookupView::Unavailable(e) => Some(
            "deployment_id lookup: state db unavailable ("@ + e
                + "); run will not be linked to a deployment"@,
        ),
        PullLookupView::Failed(e) => Some(
            "deployment_id lookup: failed to read pull state for "@ + procedure_id + " ("@ + e
                + "); run will not be linked to a deployment"@,
        ),
        PullLookupView::Found(_) => None,
    }
}

/// The deployment that a run comes from, with a warning where it cannot be
/// found out.
pub fn lookup_deployment_id(procedure_id: &str, found: PullLookup) -> (out: (
    Option<String>,
    Option<String>,
))
    ensures
        out.0.deep_view() == deployment_of(found.deep_view()),
        out.1.deep_view() == lookup_warning(procedure_id@, found.deep_view()),
{
    match found {
        PullLookup::Unavailable(e) => (
            None,
            Some(
                text::concat3(
                    "deployment_id lookup: state db unavailable (",
                    e.as_str(),
                    "); run will not be linked to a deployment",
                ),
            ),
        ),
        PullLookup::Failed(e) => {
            let mut s = text::concat3(
                "deployment_id lookup: failed to read pull state for ",
                procedure_id,
                " (",
            );
            s.append(e.as_str());
            s.append("); run will not be linked to a deployment");
            (None, Some(s))
        },
        PullLookup::Found(id) => (id, None),
    }
}

} // verus!
