//! What a retrieval hands back.

use vstd::prelude::*;
use vstd::string::*;
use crate::error::{CacheError, CacheErrorView};
use crate::http_error::{HttpError, HttpErrorView};
use crate::response::{
    error_response, header_value_accepts, image_response, is_header_value, HttpResponse,
    HttpResponseView,
};

verus! {

/// An image as it is served: the payload, its media type, and whether it was
/// found in the cache or had to be fetched first.
#[derive(Debug, Clone, PartialEq, Eq)]
pub struct CachedImage {
    pub data: Vec<u8>,
    pub mime_type: String,
    pub extracted_from_cache: bool,
}

/// The mathematical content of a [`CachedImage`].
pub struct CachedImageView {
    pub data: Seq<u8>,
    pub mime_type: Seq<char>,
    pub extracted_from_cache: bool,
}

impl View for CachedImage {
    type V = CachedImageView;

    open spec fn view(&self) -> CachedImageView {
        CachedImageView {
            data: self.data@,
            mime_type: self.mime_type@,
            extracted_from_cache: self.extracted_from_cache,
        }
    }
}

/// How a response tells whether its image was found in the cache.
pub open spec fn cache_status(extracted_from_cache: bool) -> Seq<char> {
    if extracted_from_cache {
        "HIT"@
    } else {
        "MISS"@
    }
}

/// The response that serves an image: the image with its media type as
/// content type and with the header that tells a hit from a miss, or,
/// where the media type cannot stand in a header, the response to a failed
/// request.
pub open spec fn served_response(image: CachedImageView) -> HttpResponseView {
    if is_header_value(image.mime_type) {
        image_response(
            image.mime_type,
            seq![("x-piccache-status"@, cache_status(image.extracted_from_cache))],
            image.data,
        )
    } else {
        error_response()
    }
}

impl CachedImage {
    /// Tells whether the media type can stand in a header, and if not, with
    /// which error the request is answered.
    pub fn content_type(&self) -> (checked: Result<(), HttpError>)
        ensures
            checked is Ok <==> is_header_value(self@.mime_type),
            checked matches Err(error) ==> error@ == HttpErrorView::Internal(
                CacheErrorView::InvalidMediaType(self@.mime_type),
            ),
    {
        if header_value_accepts(self.mime_type.as_str()) {
            Ok(())
        } else {
            Err(HttpError::Internal(CacheError::InvalidMediaType(self.mime_type.clone())))
        }
    }

    /// Builds the response that serves this image.
    pub fn into_response(self) -> (response: HttpResponse)
        ensures
            response@ == served_response(self@),
    {
        match self.content_type() {
            Ok(()) => {},
            Err(error) => {
                return error.into_response();
            },
        }
        let cache_status_value = if self.extracted_from_cache {
            "HIT"
        } else {
            "MISS"
        };
        let mut headers: Vec<(String, String)> = Vec::new();
        headers.push((String::from_str("content-type"), self.mime_type));
        headers.push(
            (String::from_str("x-piccache-status"), String::from_str(cache_status_value)),
        );
        let response = HttpResponse { status: 200, headers, body: self.data };
        assert(response@.headers =~= seq![("content-type"@, self@.mime_type)] + seq![
            ("x-piccache-status"@, cache_status(self@.extracted_from_cache)),
        ]);
        response
    }
}

} // verus!
