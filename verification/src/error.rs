//! What can go wrong while an image is fetched, stored or read back.

use vstd::prelude::*;

verus! {

/// Why a storage or network step could not be carried out, as the caller that
/// tried it reports it.
#[derive(Debug, Clone, PartialEq, Eq)]
pub enum Failure {
    /// The network failed: no connection, a broken transfer.
    Transport(String),
    /// The file system failed: a directory or file could not be made,
    /// written, moved or read.
    Storage(String),
}

/// The mathematical content of a [`Failure`].
pub enum FailureView {
    Transport(Seq<char>),
    Storage(Seq<char>),
}

impl View for Failure {
    type V = FailureView;

    open spec fn view(&self) -> FailureView {
        match self {
            Failure::Transport(detail) => FailureView::Transport(detail@),
            Failure::Storage(detail) => FailureView::Storage(detail@),
        }
    }
}

/// Why an image could not be served or stored.
#[derive(Debug, Clone, PartialEq, Eq)]
pub enum CacheError {
    /// The network failed during a fetch.
    Transport(String),
    /// The origin answered with something that is neither an image nor a
    /// video, as a host does that asks its visitor to prove it is no robot.
    /// Holds the content type that came instead.
    Challenge(Vec<u8>),
    /// The origin's answer named no content type.
    MissingContentType,
    /// The file system failed.
    Storage(String),
    /// A payload is in the cache, but its media type cannot be read.
    Inconsistent(String),
    /// The media type of an entry cannot stand in a header. Holds the media
    /// type.
    InvalidMediaType(String),
    /// An event was reported that answers no step that was asked for.
    OutOfOrder,
}

/// The mathematical content of a [`CacheError`].
pub enum CacheErrorView {
    Transport(Seq<char>),
    Challenge(Seq<u8>),
    MissingContentType,
    Storage(Seq<char>),
    Inconsistent(Seq<char>),
    InvalidMediaType(Seq<char>),
    OutOfOrder,
}

impl View for CacheError {
    type V = CacheErrorView;

    open spec fn view(&self) -> CacheErrorView {
        match self {
            CacheError::Transport(detail) => CacheErrorView::Transport(detail@),
            CacheError::Challenge(content_type) => CacheErrorView::Challenge(content_type@),
            CacheError::MissingContentType => CacheErrorView::MissingContentType,
            CacheError::Storage(detail) => CacheErrorView::Storage(detail@),
            CacheError::Inconsistent(detail) => CacheErrorView::Inconsistent(detail@),
            CacheError::InvalidMediaType(mime_type) => CacheErrorView::InvalidMediaType(
                mime_type@,
            ),
            CacheError::OutOfOrder => CacheErrorView::OutOfOrder,
        }
    }
}

/// The error that a reported failure becomes: a failure of the network is a
/// transport error, one of the file system a storage error, each with the
/// reporter's words.
pub open spec fn error_of(failure: FailureView) -> CacheErrorView {
    match failure {
        FailureView::Transport(detail) => CacheErrorView::Transport(detail),
        FailureView::Storage(detail) => CacheErrorView::Storage(detail),
    }
}

impl CacheError {
    /// Turns a reported failure into the error that is handed on.
    pub fn from_failure(failure: Failure) -> (error: CacheError)
        ensures
            error@ == error_of(failure@),
    {
        match failure {
            Failure::Transport(detail) => CacheError::Transport(detail),
            Failure::Storage(detail) => CacheError::Storage(detail),
        }
    }
}

} // verus!
