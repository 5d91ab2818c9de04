//! The errors that are answered over HTTP.

use vstd::prelude::*;
use crate::error::{CacheError, CacheErrorView};
use crate::response::{error_response, HttpResponse};

verus! {

/// An error to answer a request with.
#[derive(Debug, Clone, PartialEq, Eq)]
pub enum HttpError {
    /// The service failed. The cause is kept for the log and is not shown
    /// to the client.
    Internal(CacheError),
}

/// The mathematical content of an [`HttpError`].
pub enum HttpErrorView {
    Internal(CacheErrorView),
}

impl View for HttpError {
    type V = HttpErrorView;

    open spec fn view(&self) -> HttpErrorView {
        match self {
            HttpError::Internal(error) => HttpErrorView::Internal(error@),
        }
    }
}

impl HttpError {
    /// The response that answers this error: status 500 and nothing else,
    /// whatever the cause.
    pub fn into_response(self) -> (response: HttpResponse)
        ensures
            response@ == error_response(),
    {
        HttpResponse::internal_server_error()
    }
}

} // verus!
