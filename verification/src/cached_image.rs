//! A cache entry as it lies on disk.

use vstd::prelude::*;
use vstd::string::*;
use crate::error::{CacheError, CacheErrorView};
use crate::http_error::{HttpError, HttpErrorView};
use crate::response::{
    error_response, header_value_accepts, image_response, is_header_value, HttpResponse,
    HttpResponseView,
};

verus! {

/// The two parts of a cache entry: the payload and its media type.
#[derive(Debug, Clone, PartialEq, Eq)]
pub struct CachedImage {
    pub data: Vec<u8>,
    pub mime_type: String,
}

/// The mathematical content of a [`CachedImage`].
pub struct CachedImageView {
    pub data: Seq<u8>,
    pub mime_type: Seq<char>,
}

impl View for CachedImage {
    type V = CachedImageView;

    open spec fn view(&self) -> CachedImageView {
        CachedImageView { data: self.data@, mime_type: self.mime_type@ }
    }
}

/// The response that serves an entry: the image with its media type as
/// content type, or, where the media type cannot stand in a header, the
/// response to a failed request.
pub open spec fn entry_response(image: CachedImageView) -> HttpResponseView {
    if is_header_value(image.mime_type) {
        image_response(image.mime_type, Seq::empty(), image.data)
    } else {
        error_response()
    }
}

impl CachedImage {
    /// Tells whether the media type can stand in a header, and if not, with
    /// which error the request is answered.
    pub fn content_type(&self) -> (checked: Result<(), HttpError>)
        ensures
            checked is Ok <==> is_header_value(self@.mime_type),
            checked matches Err(error) ==> error@ == HttpErrorView::Internal(
                CacheErrorView::InvalidMediaType(self@.mime_type),
            ),
    {
        if header_value_accepts(self.mime_type.as_str()) {
            Ok(())
        } else {
            Err(HttpError::Internal(CacheError::InvalidMediaType(self.mime_type.clone())))
        }
    }

    /// Builds the response that serves this entry.
    pub fn into_response(self) -> (response: HttpResponse)
        ensures
            response@ == entry_response(self@),
    {
        match self.content_type() {
            Ok(()) => {},
            Err(error) => {
                return error.into_response();
            },
        }
        let mut headers: Vec<(String, String)> = Vec::new();
        headers.push((String::from_str("content-type"), self.mime_type));
        let response = HttpResponse { status: 200, headers, body: self.data };
        assert(response@.headers =~= seq![("content-type"@, self@.mime_type)] + Seq::empty());
        response
    }
}

} // verus!
