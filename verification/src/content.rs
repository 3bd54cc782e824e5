//! The content dispatcher's classification step: the declared content kind
//! of a fetched resource, made an explicit tagged value.
//!
//! A resource whose declared kind starts with `text/html` is HTML and is
//! handled; a resource with any other declared kind has no handler and fails
//! branch-locally; a resource with no declared kind at all is a hard error
//! for that resource. Classification is evaluated once per resource.

use vstd::prelude::*;

use crate::text::has_prefix;
use crate::text::spec_has_prefix;

verus! {

/// Does this declared content kind indicate HTML? A `text/html` prefix
/// comparison, so parameters such as a charset do not matter.
pub open spec fn spec_is_html_kind(kind: Seq<char>) -> bool {
    spec_has_prefix(kind, "text/html"@)
}

/// The classification of a fetched resource by its declared content kind.
#[derive(Clone, Copy, PartialEq, Eq, Structural, Debug)]
pub enum ContentClass {
    /// The declared kind indicates HTML: handled.
    Html,
    /// Some other kind was declared: no handler, a branch-local failure.
    Unsupported,
    /// No kind was declared at all: a hard error for this resource.
    Missing,
}

/// What classification a declared kind (or its absence) receives.
pub open spec fn spec_classify(kind: Option<Seq<char>>) -> ContentClass {
    match kind {
        None => ContentClass::Missing,
        Some(k) => if spec_is_html_kind(k) {
            ContentClass::Html
        } else {
            ContentClass::Unsupported
        },
    }
}

/// Classifies a fetched resource by its declared content kind.
pub fn classify(kind: Option<&String>) -> (r: ContentClass)
    ensures
        r == spec_classify(match kind {
            Some(k) => Some(k@),
            None => None,
        }),
{
    match kind {
        None => ContentClass::Missing,
        Some(k) => {
            if has_prefix(k.as_str(), "text/html") {
                ContentClass::Html
            } else {
                ContentClass::Unsupported
            }
        },
    }
}

} // verus!
