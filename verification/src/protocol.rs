//! The exchange between the service and the caller that does its I/O.
//!
//! The service names a step as an [`Action`]; the caller carries it out and
//! reports the outcome as an [`Event`]; the service answers with the next
//! action, until it names a closing one. [`populate_step`] and
//! [`retrieve_step`] say which action answers which event.

use vstd::prelude::*;
use crate::app_service::{
    proxy_view, AppServiceView, CloudFlareBypassProxy, CloudFlareBypassProxyView,
};
use crate::cache_key::key_of;
use crate::error::{error_of, CacheError, CacheErrorView, Failure, FailureView};
use crate::layout::{folder_of, media_type_path_of, payload_path_of, staging_of};
use crate::text::{has_prefix, starts_with};

verus! {

/// One HTTP GET, as the caller is to send it.
#[derive(Debug, Clone, PartialEq, Eq)]
pub struct FetchRequest {
    /// The address to get.
    pub url: String,
    /// The value of the `user-agent` header.
    pub user_agent: String,
    /// The value of the `accept` header.
    pub accept: String,
    /// Whether a certificate that cannot be validated is accepted.
    pub accept_invalid_certs: bool,
    /// The proxy to send the request through, with basic authentication.
    pub proxy: Option<CloudFlareBypassProxy>,
}

/// The mathematical content of a [`FetchRequest`].
pub struct FetchRequestView {
    pub url: Seq<char>,
    pub user_agent: Seq<char>,
    pub accept: Seq<char>,
    pub accept_invalid_certs: bool,
    pub proxy: Option<CloudFlareBypassProxyView>,
}

impl View for FetchRequest {
    type V = FetchRequestView;

    open spec fn view(&self) -> FetchRequestView {
        FetchRequestView {
            url: self.url@,
            user_agent: self.user_agent@,
            accept: self.accept@,
            accept_invalid_certs: self.accept_invalid_certs,
            proxy: proxy_view(self.proxy),
        }
    }
}

/// What the caller reports.
#[derive(Debug, Clone, PartialEq, Eq)]
pub enum Event {
    /// Nothing has been done yet.
    Begin,
    /// The payload file was looked for.
    Probed { exists: bool },
    /// The directory exists now, whether it was made or found.
    FolderReady,
    /// The origin answered, with this content type or with none. The body is
    /// still the caller's to read.
    Fetched { content_type: Option<Vec<u8>> },
    /// The whole body was written to the file that was named.
    PayloadStored,
    /// The media type was written.
    MediaTypeStored,
    /// The file was moved.
    Published,
    /// Both files of the entry were read.
    EntryRead(crate::cached_image::CachedImage),
    /// The payload was read, the media type could not be.
    MediaTypeUnreadable { detail: String },
    /// The step could not be carried out.
    Failed(Failure),
}

/// The mathematical content of an [`Event`].
pub enum EventView {
    Begin,
    Probed { exists: bool },
    FolderReady,
    Fetched { content_type: Option<Seq<u8>> },
    PayloadStored,
    MediaTypeStored,
    Published,
    EntryRead(crate::cached_image::CachedImageView),
    MediaTypeUnreadable { detail: Seq<char> },
    Failed(FailureView),
}

/// The view of an optional byte string.
pub open spec fn bytes_view(bytes: Option<Vec<u8>>) -> Option<Seq<u8>> {
    match bytes {
        Some(bytes) => Some(bytes@),
        None => None,
    }
}

impl View for Event {
    type V = EventView;

    open spec fn view(&self) -> EventView {
        match self {
            Event::Begin => EventView::Begin,
            Event::Probed { exists } => EventView::Probed { exists: *exists },
            Event::FolderReady => EventView::FolderReady,
            Event::Fetched { content_type } => EventView::Fetched {
                content_type: bytes_view(*content_type),
            },
            Event::PayloadStored => EventView::PayloadStored,
            Event::MediaTypeStored => EventView::MediaTypeStored,
            Event::Published => EventView::Published,
            Event::EntryRead(entry) => EventView::EntryRead(entry@),
            Event::MediaTypeUnreadable { detail } => EventView::MediaTypeUnreadable {
                detail: detail@,
            },
            Event::Failed(failure) => EventView::Failed(failure@),
        }
    }
}

/// What the service asks of the caller. The last three close the exchange.
#[derive(Debug, Clone, PartialEq, Eq)]
pub enum Action {
    /// Look whether this file exists, and report `Probed`.
    ProbePayload { path: String },
    /// Make this directory and those above it; one that exists already is
    /// no failure. Report `FolderReady`.
    EnsureFolder { path: String },
    /// Send this request, and report `Fetched` once the answer's head is
    /// there.
    Fetch(FetchRequest),
    /// Write the body of the answer just fetched to this file, replacing
    /// what it held. Report `PayloadStored` when all of it is written.
    StorePayload { path: String },
    /// Write these bytes to this file. Report `MediaTypeStored`.
    StoreMediaType { path: String, value: Vec<u8> },
    /// Move the file at `from` to `to` in one step. Report `Published`.
    Publish { from: String, to: String },
    /// Read both files, and report `EntryRead`, or `MediaTypeUnreadable` if
    /// only the payload could be read.
    ReadEntry { data_path: String, mime_type_path: String },
    /// The image is here.
    Deliver(crate::dtos::CachedImage),
    /// The image is in the cache now.
    Stored,
    /// The operation failed.
    Fail(CacheError),
}

/// The mathematical content of an [`Action`].
pub enum ActionView {
    ProbePayload { path: Seq<char> },
    EnsureFolder { path: Seq<char> },
    Fetch(FetchRequestView),
    StorePayload { path: Seq<char> },
    StoreMediaType { path: Seq<char>, value: Seq<u8> },
    Publish { from: Seq<char>, to: Seq<char> },
    ReadEntry { data_path: Seq<char>, mime_type_path: Seq<char> },
    Deliver(crate::dtos::CachedImageView),
    Stored,
    Fail(CacheErrorView),
}

impl View for Action {
    type V = ActionView;

    open spec fn view(&self) -> ActionView {
        match self {
            Action::ProbePayload { path } => ActionView::ProbePayload { path: path@ },
            Action::EnsureFolder { path } => ActionView::EnsureFolder { path: path@ },
            Action::Fetch(request) => ActionView::Fetch(request@),
            Action::StorePayload { path } => ActionView::StorePayload { path: path@ },
            Action::StoreMediaType { path, value } => ActionView::StoreMediaType {
                path: path@,
                value: value@,
            },
            Action::Publish { from, to } => ActionView::Publish { from: from@, to: to@ },
            Action::ReadEntry { data_path, mime_type_path } => ActionView::ReadEntry {
                data_path: data_path@,
                mime_type_path: mime_type_path@,
            },
            Action::Deliver(image) => ActionView::Deliver(image@),
            Action::Stored => ActionView::Stored,
            Action::Fail(error) => ActionView::Fail(error@),
        }
    }
}

/// Where the storing of one image stands.
#[derive(Debug, Clone, PartialEq, Eq)]
pub enum Stage {
    Start,
    CreatingFolder,
    DirectFetchInFlight,
    BypassFetchInFlight,
    /// The body is being written; the media type waits here for its turn.
    WritingPayload { media_type: Vec<u8> },
    WritingMediaType,
    /// The media type is being moved to its place.
    PublishingMediaType,
    /// The payload is being moved to its place, which makes the entry seen.
    PublishingPayload,
    Stored,
    Failed,
}

/// The mathematical content of a [`Stage`].
pub enum StageView {
    Start,
    CreatingFolder,
    DirectFetchInFlight,
    BypassFetchInFlight,
    WritingPayload { media_type: Seq<u8> },
    WritingMediaType,
    PublishingMediaType,
    PublishingPayload,
    Stored,
    Failed,
}

impl View for Stage {
    type V = StageView;

    open spec fn view(&self) -> StageView {
        match self {
            Stage::Start => StageView::Start,
            Stage::CreatingFolder => StageView::CreatingFolder,
            Stage::DirectFetchInFlight => StageView::DirectFetchInFlight,
            Stage::BypassFetchInFlight => StageView::BypassFetchInFlight,
            Stage::WritingPayload { media_type } => StageView::WritingPayload {
                media_type: media_type@,
            },
            Stage::WritingMediaType => StageView::WritingMediaType,
            Stage::PublishingMediaType => StageView::PublishingMediaType,
            Stage::PublishingPayload => StageView::PublishingPayload,
            Stage::Stored => StageView::Stored,
            Stage::Failed => StageView::Failed,
        }
    }
}

/// Where the retrieval of one image stands.
#[derive(Debug, Clone, PartialEq, Eq)]
pub enum Progress {
    Start,
    Probing,
    /// The image was not in the cache and is being stored.
    Populating(Stage),
    /// The entry is being read; `hit` tells whether it was found at once.
    Reading { hit: bool },
    Finished,
}

/// The mathematical content of a [`Progress`].
pub enum ProgressView {
    Start,
    Probing,
    Populating(StageView),
    Reading { hit: bool },
    Finished,
}

impl View for Progress {
    type V = ProgressView;

    open spec fn view(&self) -> ProgressView {
        match self {
            Progress::Start => ProgressView::Start,
            Progress::Probing => ProgressView::Probing,
            Progress::Populating(stage) => ProgressView::Populating(stage@),
            Progress::Reading { hit } => ProgressView::Reading { hit: *hit },
            Progress::Finished => ProgressView::Finished,
        }
    }
}

/// The bytes of `image/`.
pub open spec fn image_prefix() -> Seq<u8> {
    seq![0x69u8, 0x6du8, 0x61u8, 0x67u8, 0x65u8, 0x2fu8]
}

/// The bytes of `video/`.
pub open spec fn video_prefix() -> Seq<u8> {
    seq![0x76u8, 0x69u8, 0x64u8, 0x65u8, 0x6fu8, 0x2fu8]
}

/// Whether a content type is that of an image or a video: whether it begins
/// with `image/` or with `video/`.
pub open spec fn is_media(content_type: Seq<u8>) -> bool {
    has_prefix(content_type, image_prefix()) || has_prefix(content_type, video_prefix())
}

/// Tells whether a content type is that of an image or a video.
pub fn is_media_type(content_type: &[u8]) -> (genuine: bool)
    ensures
        genuine == is_media(content_type@),
{
    let image: [u8; 6] = [0x69, 0x6d, 0x61, 0x67, 0x65, 0x2f];
    let video: [u8; 6] = [0x76, 0x69, 0x64, 0x65, 0x6f, 0x2f];
    assert(image@ =~= image_prefix());
    assert(video@ =~= video_prefix());
    starts_with(content_type, image.as_slice()) || starts_with(content_type, video.as_slice())
}

/// The request of a direct fetch, or, with `deploy_workarounds`, of one
/// through the proxy. Both ask as a plain command-line client would. The
/// second accepts any certificate, whatever the service's setting.
pub open spec fn request_for(
    service: AppServiceView,
    url: Seq<char>,
    deploy_workarounds: bool,
) -> FetchRequestView {
    FetchRequestView {
        url,
        user_agent: "curl/7.86.0"@,
        accept: "*/*"@,
        accept_invalid_certs: service.disable_https_validation || deploy_workarounds,
        proxy: if deploy_workarounds {
            service.bypass_info
        } else {
            None
        },
    }
}

/// What follows the head of an answer. A missing content type ends the
/// attempt. An image or a video is written to the staging file. Anything
/// else is a challenge: if `may_escalate`, the fetch is sent once more
/// through the proxy, otherwise the attempt ends.
pub open spec fn after_fetch(
    service: AppServiceView,
    url: Seq<char>,
    content_type: Option<Seq<u8>>,
    may_escalate: bool,
) -> (StageView, ActionView) {
    match content_type {
        None => (StageView::Failed, ActionView::Fail(CacheErrorView::MissingContentType)),
        Some(content_type) => if is_media(content_type) {
            (
                StageView::WritingPayload { media_type: content_type },
                ActionView::StorePayload {
                    path: staging_of(payload_path_of(service.images_dir, key_of(url))),
                },
            )
        } else if may_escalate {
            (StageView::BypassFetchInFlight, ActionView::Fetch(request_for(service, url, true)))
        } else {
            (StageView::Failed, ActionView::Fail(CacheErrorView::Challenge(content_type)))
        },
    }
}

/// Whether a stage waits for the outcome of a step.
pub open spec fn in_flight(stage: StageView) -> bool {
    !(stage is Start || stage is Stored || stage is Failed)
}

/// One step of storing the image of `url`: the stage that follows `stage`
/// on `event`, and what the caller is to do next.
///
/// The folder is made, the image is fetched directly, and, if that is
/// challenged and the service has a proxy, once more through the proxy.
/// The body is written to a staging file, and once all of it is there the
/// media type is written to another. Then the media type is moved to its
/// place, and last the payload to its own: a file of the entry is in its
/// place only whole, and the payload, by which the entry is found, only
/// with its media type beside it. A failure that is reported ends the
/// attempt with that failure; an event that does not answer the stage ends
/// it as out of order.
pub open spec fn populate_step(
    service: AppServiceView,
    url: Seq<char>,
    stage: StageView,
    event: EventView,
) -> (StageView, ActionView) {
    let key = key_of(url);
    let root = service.images_dir;
    match (stage, event) {
        (StageView::Start, EventView::Begin) => (
            StageView::CreatingFolder,
            ActionView::EnsureFolder { path: folder_of(root, key) },
        ),
        (StageView::CreatingFolder, EventView::FolderReady) => (
            StageView::DirectFetchInFlight,
            ActionView::Fetch(request_for(service, url, false)),
        ),
        (StageView::DirectFetchInFlight, EventView::Fetched { content_type }) => after_fetch(
            service,
            url,
            content_type,
            service.bypass_info is Some,
        ),
        (StageView::BypassFetchInFlight, EventView::Fetched { content_type }) => after_fetch(
            service,
            url,
            content_type,
            false,
        ),
        (StageView::WritingPayload { media_type }, EventView::PayloadStored) => (
            StageView::WritingMediaType,
            ActionView::StoreMediaType {
                path: staging_of(media_type_path_of(root, key)),
                value: media_type,
            },
        ),
        (StageView::WritingMediaType, EventView::MediaTypeStored) => (
            StageView::PublishingMediaType,
            ActionView::Publish {
                from: staging_of(media_type_path_of(root, key)),
                to: media_type_path_of(root, key),
            },
        ),
        (StageView::PublishingMediaType, EventView::Published) => (
            StageView::PublishingPayload,
            ActionView::Publish {
                from: staging_of(payload_path_of(root, key)),
                to: payload_path_of(root, key),
            },
        ),
        (StageView::PublishingPayload, EventView::Published) => (
            StageView::Stored,
            ActionView::Stored,
        ),
        (_, EventView::Failed(failure)) => if in_flight(stage) {
            (StageView::Failed, ActionView::Fail(error_of(failure)))
        } else {
            (StageView::Failed, ActionView::Fail(CacheErrorView::OutOfOrder))
        },
        _ => (StageView::Failed, ActionView::Fail(CacheErrorView::OutOfOrder)),
    }
}

/// The step that reads the entry of `url` back.
pub open spec fn read_entry(service: AppServiceView, url: Seq<char>) -> ActionView {
    ActionView::ReadEntry {
        data_path: payload_path_of(service.images_dir, key_of(url)),
        mime_type_path: media_type_path_of(service.images_dir, key_of(url)),
    }
}

/// A step of storing, seen from the retrieval it is part of: once the image
/// is stored it is read back as a miss; a failure ends the retrieval.
pub open spec fn within_retrieval(
    service: AppServiceView,
    url: Seq<char>,
    step: (StageView, ActionView),
) -> (ProgressView, ActionView) {
    if step.0 is Stored {
        (ProgressView::Reading { hit: false }, read_entry(service, url))
    } else if step.0 is Failed {
        (ProgressView::Finished, step.1)
    } else {
        (ProgressView::Populating(step.0), step.1)
    }
}

/// One step of retrieving the image of `url`.
///
/// The payload file is looked for. If it is there, the entry is read and
/// delivered as a hit. If not, the image is stored as [`populate_step`]
/// says, then read and delivered as a miss. A payload whose media type
/// cannot be read is an inconsistent entry, and no image is delivered.
pub open spec fn retrieve_step(
    service: AppServiceView,
    url: Seq<char>,
    progress: ProgressView,
    event: EventView,
) -> (ProgressView, ActionView) {
    match (progress, event) {
        (ProgressView::Start, EventView::Begin) => (
            ProgressView::Probing,
            ActionView::ProbePayload {
                path: payload_path_of(service.images_dir, key_of(url)),
            },
        ),
        (ProgressView::Probing, EventView::Probed { exists }) => if exists {
            (ProgressView::Reading { hit: true }, read_entry(service, url))
        } else {
            within_retrieval(
                service,
                url,
                populate_step(service, url, StageView::Start, EventView::Begin),
            )
        },
        (ProgressView::Populating(stage), _) => within_retrieval(
            service,
            url,
            populate_step(service, url, stage, event),
        ),
        (ProgressView::Reading { hit }, EventView::EntryRead(entry)) => (
            ProgressView::Finished,
            ActionView::Deliver(
                crate::dtos::CachedImageView {
                    data: entry.data,
                    mime_type: entry.mime_type,
                    extracted_from_cache: hit,
                },
            ),
        ),
        (ProgressView::Reading { hit }, EventView::MediaTypeUnreadable { detail }) => (
            ProgressView::Finished,
            ActionView::Fail(CacheErrorView::Inconsistent(detail)),
        ),
        (ProgressView::Probing, EventView::Failed(failure)) => (
            ProgressView::Finished,
            ActionView::Fail(error_of(failure)),
        ),
        (ProgressView::Reading { hit }, EventView::Failed(failure)) => (
            ProgressView::Finished,
            ActionView::Fail(error_of(failure)),
        ),
        _ => (ProgressView::Finished, ActionView::Fail(CacheErrorView::OutOfOrder)),
    }
}

} // verus!
