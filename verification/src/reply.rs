//! What came back for a request, and what it means for the caller.
//!
//! A call ends in exactly one of five ways, decided in this order: no
//! response arrived; the response's status was not a success; its body was
//! no envelope; the envelope held no data; the envelope held data. Only the
//! last is a success. Nothing here asks for the request to be sent again.

use vstd::prelude::*;

verus! {

/// The body of a response, decoded: the data, if the server produced any,
/// and the messages of the errors it reported, in its order.
#[derive(Debug, PartialEq, Eq)]
pub struct Envelope<D> {
    pub data: Option<D>,
    pub errors: Option<Vec<String>>,
}

impl<D> Envelope<D> {
    /// The messages of the errors the server reported: none where the
    /// envelope has no list of errors.
    pub open spec fn messages(self) -> Seq<Seq<char>> {
        match self.errors {
            Some(errors) => errors.deep_view(),
            None => Seq::empty(),
        }
    }
}

/// What reading and decoding the body of a response gave.
#[derive(Debug, PartialEq, Eq)]
pub enum Body<D> {
    /// The body could not be read, or was not an envelope.
    Undecodable { reason: String },
    /// The body was this envelope.
    Decoded(Envelope<D>),
}

/// What came back for one request.
#[derive(Debug, PartialEq, Eq)]
pub enum Reply<D> {
    /// Nothing: the HTTP call could not be completed.
    Unanswered { reason: String },
    /// A response with this status and this body.
    Answered { status: u16, body: Body<D> },
}

/// Why a call failed.
#[derive(Debug, PartialEq, Eq)]
pub enum ApiError {
    /// The HTTP call could not be completed.
    Transport { reason: String },
    /// The server answered with a status that is not a success.
    HttpStatus { status: u16 },
    /// The body of the response was not the expected envelope.
    Undecodable { reason: String },
    /// The envelope held no data; `messages` are the errors the server
    /// reported in it, in its order.
    NoData { messages: Vec<String> },
}

/// What an [`ApiError`] says.
pub enum ApiFailure {
    Transport { reason: Seq<char> },
    HttpStatus { status: u16 },
    Undecodable { reason: Seq<char> },
    NoData { messages: Seq<Seq<char>> },
}

impl View for ApiError {
    type V = ApiFailure;

    open spec fn view(&self) -> ApiFailure {
        match self {
            ApiError::Transport { reason } => ApiFailure::Transport { reason: reason@ },
            ApiError::HttpStatus { status } => ApiFailure::HttpStatus { status: *status },
            ApiError::Undecodable { reason } => ApiFailure::Undecodable { reason: reason@ },
            ApiError::NoData { messages } => ApiFailure::NoData {
                messages: messages.deep_view(),
            },
        }
    }
}

impl ApiFailure {
    /// The reply broke the protocol: its body was no envelope, or the
    /// envelope held no data.
    pub open spec fn is_protocol(self) -> bool {
        self is Undecodable || self is NoData
    }
}

/// A status is a success when it lies in 200..=299.
pub open spec fn is_success(status: u16) -> bool {
    200 <= status <= 299
}

/// Tells whether `status` is a success.
pub fn status_is_success(status: u16) -> (success: bool)
    ensures
        success == is_success(status),
{
    200 <= status && status <= 299
}

impl<D> Reply<D> {
    /// What the reply means: the data it carries, or the one failure that
    /// applies, the earliest of transport, status, decoding and missing data.
    pub open spec fn outcome(self) -> Result<D, ApiFailure> {
        match self {
            Reply::Unanswered { reason } => Err(ApiFailure::Transport { reason: reason@ }),
            Reply::Answered { status, body } => if !is_success(status) {
                Err(ApiFailure::HttpStatus { status })
            } else {
                match body {
                    Body::Undecodable { reason } => Err(
                        ApiFailure::Undecodable { reason: reason@ },
                    ),
                    Body::Decoded(envelope) => match envelope.data {
                        Some(data) => Ok(data),
                        None => Err(ApiFailure::NoData { messages: envelope.messages() }),
                    },
                }
            },
        }
    }

    /// Ends the call: hands out the data of the reply, or says why there is
    /// none.
    ///
    /// A success status with data in the envelope gives that data, whatever
    /// errors the envelope lists beside it. Every other reply is a failure,
    /// and the failure is final.
    pub fn conclude(self) -> (result: Result<D, ApiError>)
        ensures
            match self.outcome() {
                Ok(data) => result == Ok::<D, ApiError>(data),
                Err(failure) => result is Err && result->Err_0@ == failure,
            },
            self is Unanswered ==> result is Err && result->Err_0@ is Transport,
            self matches Reply::Answered { status, .. } ==> (is_success(status) && result is Err
                ==> result->Err_0@.is_protocol()),
            self matches Reply::Answered { status, .. } ==> (!is_success(status) ==> result is Err
                && result->Err_0@ == (ApiFailure::HttpStatus { status })),
            self matches Reply::Answered { status, body: Body::Decoded(envelope) } ==> (is_success(
                status,
            ) ==> (match envelope.data {
                Some(data) => result == Ok::<D, ApiError>(data),
                None => result is Err && result->Err_0@ == (ApiFailure::NoData {
                    messages: envelope.messages(),
                }),
            })),
    {
        match self {
            Reply::Unanswered { reason } => Err(ApiError::Transport { reason }),
            Reply::Answered { status, body } => {
                if !status_is_success(status) {
                    return Err(ApiError::HttpStatus { status });
                }
                match body {
                    Body::Undecodable { reason } => Err(ApiError::Undecodable { reason }),
                    Body::Decoded(envelope) => match envelope.data {
                        Some(data) => Ok(data),
                        None => {
                            let messages = match envelope.errors {
                                Some(errors) => errors,
                                None => Vec::new(),
                            };
                            assert(messages.deep_view() =~= envelope.messages());
                            Err(ApiError::NoData { messages })
                        },
                    },
                }
            },
        }
    }
}

/// A response whose status is not a success fails the call with that
/// status, whatever its body holds: no data in it is handed out and no error
/// in it replaces the status.
pub proof fn lemma_failed_status_is_final<D>(status: u16, body: Body<D>)
    requires
        !is_success(status),
    ensures
        (Reply::Answered { status, body }).outcome() == Err::<D, ApiFailure>(
            ApiFailure::HttpStatus { status },
        ),
{
}

/// A response with a success status and data in its envelope gives exactly
/// that data, whether or not the envelope lists errors beside it.
pub proof fn lemma_present_data_is_returned<D>(status: u16, data: D, errors: Option<Vec<String>>)
    requires
        is_success(status),
    ensures
        (Reply::Answered {
            status,
            body: Body::Decoded(Envelope { data: Some(data), errors }),
        }).outcome() == Ok::<D, ApiFailure>(data),
{
}

/// A response with a success status and no data in its envelope fails the
/// call with the messages of the errors the envelope lists, all of them, in
/// the envelope's order.
pub proof fn lemma_missing_data_reports_the_errors<D>(status: u16, errors: Vec<String>)
    requires
        is_success(status),
    ensures
        (Reply::Answered {
            status,
            body: Body::Decoded(Envelope::<D> { data: None, errors: Some(errors) }),
        }).outcome() == Err::<D, ApiFailure>(ApiFailure::NoData { messages: errors.deep_view() }),
        (ApiFailure::NoData { messages: errors.deep_view() }).is_protocol(),
{
}

} // verus!
