//! The response classifier: from what the transport brought back to the
//! outcome of the exchange.

use vstd::prelude::*;
use vstd::string::*;

verus! {

/// One candidate generation of a response body. A candidate without a text
/// field has `None`.
#[derive(Clone, Debug, PartialEq, Eq)]
pub struct Candidate {
    pub generated_text: Option<String>,
}

impl View for Candidate {
    type V = Option<Seq<char>>;

    open spec fn view(&self) -> Option<Seq<char>> {
        match self.generated_text {
            Some(t) => Some(t@),
            None => None,
        }
    }
}

/// What the transport hands back for one request.
#[derive(Clone, Debug, PartialEq, Eq)]
pub enum RawResult {
    /// The request did not get through; `cause` says why.
    TransportFailure { cause: String },
    /// A response came. `body` holds its candidates, or `None` where the body
    /// could not be read as a sequence of candidates.
    Response { status: u16, body: Option<Vec<Candidate>> },
}

/// The view of a `RawResult`.
pub enum RawResultView {
    TransportFailure { cause: Seq<char> },
    Response { status: u16, body: Option<Seq<Option<Seq<char>>>> },
}

impl View for RawResult {
    type V = RawResultView;

    open spec fn view(&self) -> RawResultView {
        match self {
            RawResult::TransportFailure { cause } => RawResultView::TransportFailure {
                cause: cause@,
            },
            RawResult::Response { status, body } => RawResultView::Response {
                status: *status,
                body: match body {
                    Some(candidates) => Some(candidates@.map_values(|c: Candidate| c@)),
                    None => None,
                },
            },
        }
    }
}

/// The outcome of one exchange.
#[derive(Clone, Debug, PartialEq, Eq)]
pub enum Classification {
    /// The generator answered; the text is that of its first candidate.
    Success(String),
    /// The remote side answered with the given status, and either the status
    /// says failure or the body holds no usable first candidate.
    RemoteError(u16),
    /// The request did not get through.
    TransportError(String),
}

/// The view of a `Classification`.
pub enum ClassificationView {
    Success(Seq<char>),
    RemoteError(u16),
    TransportError(Seq<char>),
}

impl View for Classification {
    type V = ClassificationView;

    open spec fn view(&self) -> ClassificationView {
        match self {
            Classification::Success(text) => ClassificationView::Success(text@),
            Classification::RemoteError(status) => ClassificationView::RemoteError(*status),
            Classification::TransportError(cause) => ClassificationView::TransportError(cause@),
        }
    }
}

/// A status from 200 to 299 says success.
pub open spec fn is_success_status(status: u16) -> bool {
    200 <= status < 300
}

/// Whether `status` says success.
pub fn is_success(status: u16) -> (r: bool)
    ensures
        r == is_success_status(status),
{
    200 <= status && status < 300
}

/// The outcome that a raw result stands for. A transport failure is a
/// transport error. A response is a success only where its status says
/// success and its body has a first candidate with a text, and that text is
/// then the answer; every other response is a remote error with its status.
pub open spec fn classification_of(raw: RawResultView) -> ClassificationView {
    match raw {
        RawResultView::TransportFailure { cause } => ClassificationView::TransportError(cause),
        RawResultView::Response { status, body } => {
            if !is_success_status(status) {
                ClassificationView::RemoteError(status)
            } else {
                match body {
                    Some(candidates) => {
                        if candidates.len() > 0 && candidates[0] is Some {
                            ClassificationView::Success(candidates[0]->0)
                        } else {
                            ClassificationView::RemoteError(status)
                        }
                    },
                    None => ClassificationView::RemoteError(status),
                }
            }
        },
    }
}

/// Classifies what the transport brought back.
pub fn classify(raw: &RawResult) -> (r: Classification)
    ensures
        r@ == classification_of(raw@),
{
    match raw {
        RawResult::TransportFailure { cause } => Classification::TransportError(cause.clone()),
        RawResult::Response { status, body } => {
            if !is_success(*status) {
                return Classification::RemoteError(*status);
            }
            match body {
                Some(candidates) => {
                    if candidates.len() == 0 {
                        return Classification::RemoteError(*status);
                    }
                    match &candidates[0].generated_text {
                        Some(text) => Classification::Success(text.clone()),
                        None => Classification::RemoteError(*status),
                    }
                },
                None => Classification::RemoteError(*status),
            }
        },
    }
}

} // verus!
