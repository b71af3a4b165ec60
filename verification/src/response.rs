//! The outcome a dist request resolves to: a redirect to the chosen source,
//! or not-found when no source can satisfy the request.

use vstd::prelude::*;

verus! {

/// Ghost form of a dist resolution outcome.
pub enum DistResponseView {
    Redirect(Seq<char>),
    NotFound,
}

/// What the gateway answers for a dist request: a temporary redirect to the
/// given URL, or an empty not-found.
pub enum DistResponse {
    Redirect(String),
    NotFound,
}

impl View for DistResponse {
    type V = DistResponseView;

    open spec fn view(&self) -> DistResponseView {
        match self {
            DistResponse::Redirect(url) => DistResponseView::Redirect(url@),
            DistResponse::NotFound => DistResponseView::NotFound,
        }
    }
}

} // verus!
