//! What the replies of the two operations have in common.

use vstd::prelude::*;

verus! {

/// A text that may be absent, as the characters it holds.
pub open spec fn text_of(text: Option<String>) -> Option<Seq<char>> {
    match text {
        Some(t) => Some(t@),
        None => None,
    }
}

/// The value behind a reference that may be absent.
pub open spec fn held<T>(value: Option<&T>) -> Option<T> {
    match value {
        Some(v) => Some(*v),
        None => None,
    }
}

/// How a reply is to be classed by the request layer.
#[derive(Clone, Copy, Debug, PartialEq, Eq, Structural)]
pub enum ReplyCode {
    /// The request was served.
    Served,
    /// The request was refused, or what it asked for failed.
    BadRequest,
    /// The process lacks the privilege that the request needs.
    Forbidden,
    /// The process has no settings to serve the request with.
    FailedDependency,
}

impl ReplyCode {
    /// The HTTP status that stands for the class.
    pub open spec fn spec_http_status(self) -> u16 {
        match self {
            ReplyCode::Served => 200,
            ReplyCode::BadRequest => 400,
            ReplyCode::Forbidden => 403,
            ReplyCode::FailedDependency => 424,
        }
    }

    /// The HTTP status that stands for the class.
    #[verifier::when_used_as_spec(spec_http_status)]
    pub fn http_status(self) -> (status: u16)
        ensures
            status == self.spec_http_status(),
    {
        match self {
            ReplyCode::Served => 200,
            ReplyCode::BadRequest => 400,
            ReplyCode::Forbidden => 403,
            ReplyCode::FailedDependency => 424,
        }
    }
}

} // verus!
