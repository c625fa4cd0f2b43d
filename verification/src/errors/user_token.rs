use vstd::prelude::*;

use super::server::{ErrorSource, Failure};

verus! {

/// A request did not carry one of the session cookies.
#[derive(Copy, Clone, PartialEq, Eq, Debug, Structural)]
pub struct NoCookieError;

impl NoCookieError {
    /// The text this failure is described with.
    pub open spec fn text() -> Seq<char> {
        "Missing SECRET_HASH"@
    }

    /// Renders the failure as text.
    pub fn to_text(&self) -> (s: String)
        ensures
            s@ == Self::text(),
    {
        "Missing SECRET_HASH".to_owned()
    }
}

impl Failure for NoCookieError {
    open spec fn as_source(&self) -> ErrorSource {
        ErrorSource::NoCookie(*self)
    }

    fn source(&self) -> (s: ErrorSource) {
        ErrorSource::NoCookie(*self)
    }
}

} // verus!
