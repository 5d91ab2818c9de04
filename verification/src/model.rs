//! The operations run against a model of their surroundings: a disk that
//! keeps what is written to it, and an origin that answers the same request
//! in the same way. What the caller does with each action is written down
//! as [`perform`]; the laws below say what a whole storing or retrieval
//! then comes to.

use vstd::prelude::*;
use vstd::utf8::{decode_utf8, valid_utf8};
use crate::app_service::AppServiceView;
use crate::cache_key::{is_key, key_of};
use crate::cached_image::CachedImageView;
use crate::error::FailureView;
use crate::layout::{lemma_paths_distinct, media_type_path_of, payload_path_of, staging_of};
use crate::order::{closes, stage_rank};
use crate::protocol::{
    is_media, populate_step, request_for, retrieve_step, ActionView, EventView,
    FetchRequestView, ProgressView, StageView,
};

verus! {

/// What comes back when a request is sent.
pub enum Reply {
    /// No answer: the network failed.
    Unreachable { detail: Seq<char> },
    /// An answer, with or without a content type.
    Answer { content_type: Option<Seq<u8>>, body: Seq<u8> },
}

/// The surroundings of the service.
pub struct World {
    /// The files on disk, by path.
    pub files: Map<Seq<char>, Seq<u8>>,
    /// What each request is answered with.
    pub origin: spec_fn(FetchRequestView) -> Reply,
    /// The body of the answer fetched last, not yet written anywhere.
    pub body: Seq<u8>,
}

/// What carrying out `action` does to the world, and the event that reports
/// it. The disk never fails: a file that is written holds what was written,
/// a file that is moved is at its new place and no longer at its old one.
pub open spec fn perform(world: World, action: ActionView) -> (World, EventView) {
    match action {
        ActionView::ProbePayload { path } => (
            world,
            EventView::Probed { exists: world.files.contains_key(path) },
        ),
        ActionView::EnsureFolder { path } => (world, EventView::FolderReady),
        ActionView::Fetch(request) => match (world.origin)(request) {
            Reply::Unreachable { detail } => (
                world,
                EventView::Failed(FailureView::Transport(detail)),
            ),
            Reply::Answer { content_type, body } => (
                World { body, ..world },
                EventView::Fetched { content_type },
            ),
        },
        ActionView::StorePayload { path } => (
            World { files: world.files.insert(path, world.body), ..world },
            EventView::PayloadStored,
        ),
        ActionView::StoreMediaType { path, value } => (
            World { files: world.files.insert(path, value), ..world },
            EventView::MediaTypeStored,
        ),
        ActionView::Publish { from, to } => if world.files.contains_key(from) {
            (
                World { files: world.files.remove(from).insert(to, world.files[from]), ..world },
                EventView::Published,
            )
        } else {
            (world, EventView::Failed(FailureView::Storage(Seq::empty())))
        },
        ActionView::ReadEntry { data_path, mime_type_path } => if !world.files.contains_key(
            data_path,
        ) {
            (world, EventView::Failed(FailureView::Storage(Seq::empty())))
        } else if !world.files.contains_key(mime_type_path) || !valid_utf8(
            world.files[mime_type_path],
        ) {
            (world, EventView::MediaTypeUnreadable { detail: Seq::empty() })
        } else {
            (
                world,
                EventView::EntryRead(
                    CachedImageView {
                        data: world.files[data_path],
                        mime_type: decode_utf8(world.files[mime_type_path]),
                    },
                ),
            )
        },
        _ => (world, EventView::Begin),
    }
}

/// The storing of the image of `url`, carried on from `stage` and `event`
/// to its end: the world it leaves, and the action that closes it.
pub open spec fn populate_from(
    service: AppServiceView,
    url: Seq<char>,
    world: World,
    stage: StageView,
    event: EventView,
) -> (World, ActionView)
    decreases 10 - stage_rank(stage),
{
    let step = populate_step(service, url, stage, event);
    if closes(step.1) {
        (world, step.1)
    } else {
        let done = perform(world, step.1);
        populate_from(service, url, done.0, step.0, done.1)
    }
}

/// A whole storing of the image of `url`.
pub open spec fn populate(service: AppServiceView, url: Seq<char>, world: World) -> (
    World,
    ActionView,
) {
    populate_from(service, url, world, StageView::Start, EventView::Begin)
}

/// How far a retrieval is along its way.
pub open spec fn progress_rank(progress: ProgressView) -> nat {
    match progress {
        ProgressView::Start => 0,
        ProgressView::Probing => 1,
        ProgressView::Populating(stage) => 2 + stage_rank(stage),
        ProgressView::Reading { .. } => 12,
        ProgressView::Finished => 13,
    }
}

/// The retrieval of the image of `url`, carried on from `progress` and
/// `event` to its end.
pub open spec fn retrieve_from(
    service: AppServiceView,
    url: Seq<char>,
    world: World,
    progress: ProgressView,
    event: EventView,
) -> (World, ActionView)
    decreases 14 - progress_rank(progress),
{
    let step = retrieve_step(service, url, progress, event);
    if closes(step.1) {
        (world, step.1)
    } else {
        let done = perform(world, step.1);
        retrieve_from(service, url, done.0, step.0, done.1)
    }
}

/// A whole retrieval of the image of `url`.
pub open spec fn retrieve(service: AppServiceView, url: Seq<char>, world: World) -> (
    World,
    ActionView,
) {
    retrieve_from(service, url, world, ProgressView::Start, EventView::Begin)
}

/// The content type and the body of a reply that is an image or a video.
pub open spec fn genuine(reply: Reply) -> Option<(Seq<u8>, Seq<u8>)> {
    match reply {
        Reply::Answer { content_type: Some(content_type), body } => if is_media(content_type) {
            Some((content_type, body))
        } else {
            None
        },
        _ => None,
    }
}

/// Whether a reply is a challenge: an answer whose content type is neither
/// that of an image nor that of a video.
pub open spec fn challenged(reply: Reply) -> bool {
    reply matches Reply::Answer { content_type: Some(content_type), .. } && !is_media(
        content_type,
    )
}

/// The content type and the body that a storing of `url` ends up with, if
/// any: those of the direct answer, or, where that is a challenge and the
/// service has a proxy, those of the answer that comes through the proxy.
pub open spec fn accepted(service: AppServiceView, url: Seq<char>, world: World) -> Option<
    (Seq<u8>, Seq<u8>),
> {
    let direct = (world.origin)(request_for(service, url, false));
    if challenged(direct) && service.bypass_info is Some {
        genuine((world.origin)(request_for(service, url, true)))
    } else {
        genuine(direct)
    }
}

/// The files after the entry of `url` has been stored with this content
/// type and body: the two files of the entry hold them, the staging files
/// are gone, and every other file is as it was.
pub open spec fn files_with_entry(
    service: AppServiceView,
    url: Seq<char>,
    files: Map<Seq<char>, Seq<u8>>,
    content_type: Seq<u8>,
    body: Seq<u8>,
) -> Map<Seq<char>, Seq<u8>> {
    let payload = payload_path_of(service.images_dir, key_of(url));
    let media_type_path = media_type_path_of(service.images_dir, key_of(url));
    files.remove(staging_of(payload)).remove(staging_of(media_type_path)).insert(
        media_type_path,
        content_type,
    ).insert(payload, body)
}

/// What a storing comes to. Where an answer is accepted, the storing
/// succeeds and leaves exactly that answer in the entry's two files. Where
/// none is, it fails and leaves every file as it was.
pub proof fn lemma_populate_outcome(service: AppServiceView, url: Seq<char>, world: World)
    requires
        is_key(key_of(url)),
    ensures
        populate(service, url, world).0.origin == world.origin,
        match accepted(service, url, world) {
            Some((content_type, body)) => {
                &&& populate(service, url, world).1 is Stored
                &&& populate(service, url, world).0.files == files_with_entry(
                    service,
                    url,
                    world.files,
                    content_type,
                    body,
                )
            },
            None => {
                &&& populate(service, url, world).1 is Fail
                &&& populate(service, url, world).0.files == world.files
            },
        },
{
    reveal_with_fuel(populate_from, 9);
    lemma_paths_distinct(service.images_dir, key_of(url));
    let out = populate(service, url, world);
    match accepted(service, url, world) {
        Some((content_type, body)) => {
            assert(out.0.files =~= files_with_entry(
                service,
                url,
                world.files,
                content_type,
                body,
            ));
        },
        None => {},
    }
}

/// The image that reading an entry yields, if the entry can be read: its
/// payload, and its media type as text.
pub open spec fn readable_entry(
    service: AppServiceView,
    url: Seq<char>,
    files: Map<Seq<char>, Seq<u8>>,
) -> Option<CachedImageView> {
    let payload = payload_path_of(service.images_dir, key_of(url));
    let media_type_path = media_type_path_of(service.images_dir, key_of(url));
    if files.contains_key(payload) && files.contains_key(media_type_path) && valid_utf8(
        files[media_type_path],
    ) {
        Some(CachedImageView { data: files[payload], mime_type: decode_utf8(files[media_type_path]) })
    } else {
        None
    }
}

/// What is delivered from `entry`, marked as a hit or as a miss.
pub open spec fn delivery(entry: CachedImageView, hit: bool) -> ActionView {
    ActionView::Deliver(
        crate::dtos::CachedImageView {
            data: entry.data,
            mime_type: entry.mime_type,
            extracted_from_cache: hit,
        },
    )
}

/// What a retrieval comes to. Where the payload is on disk, nothing is
/// fetched or written, and the entry is delivered as a hit, or the
/// retrieval fails if the entry cannot be read. Where it is not, the image
/// is stored first, as a storing would, and then delivered as a miss.
pub proof fn lemma_retrieve_outcome(service: AppServiceView, url: Seq<char>, world: World)
    requires
        is_key(key_of(url)),
    ensures
        retrieve(service, url, world).0.origin == world.origin,
        world.files.contains_key(payload_path_of(service.images_dir, key_of(url))) ==> {
            &&& retrieve(service, url, world).0.files == world.files
            &&& match readable_entry(service, url, world.files) {
                Some(entry) => retrieve(service, url, world).1 == delivery(entry, true),
                None => retrieve(service, url, world).1 is Fail,
            }
        },
        !world.files.contains_key(payload_path_of(service.images_dir, key_of(url))) ==> {
            &&& retrieve(service, url, world).0.files == populate(service, url, world).0.files
            &&& match accepted(service, url, world) {
                Some((content_type, body)) => if valid_utf8(content_type) {
                    retrieve(service, url, world).1 == delivery(
                        CachedImageView { data: body, mime_type: decode_utf8(content_type) },
                        false,
                    )
                } else {
                    retrieve(service, url, world).1 is Fail
                },
                None => retrieve(service, url, world).1 is Fail,
            }
        },
{
    reveal_with_fuel(populate_from, 9);
    reveal_with_fuel(retrieve_from, 11);
    lemma_paths_distinct(service.images_dir, key_of(url));
    lemma_populate_outcome(service, url, world);
    let payload = payload_path_of(service.images_dir, key_of(url));
    if !world.files.contains_key(payload) {
        assert(retrieve(service, url, world).0.files =~= populate(service, url, world).0.files);
    }
}

/// After a storing that succeeded, a retrieval is a hit and delivers what
/// the origin answered: the body as the payload, and the content type as
/// the media type, byte for byte. The content type must be valid UTF-8, as
/// the media type is handed out as text; if it is not, the retrieval fails.
pub proof fn lemma_round_trip(service: AppServiceView, url: Seq<char>, world: World)
    requires
        is_key(key_of(url)),
        populate(service, url, world).1 is Stored,
    ensures
        accepted(service, url, world) matches Some((content_type, body)) && if valid_utf8(
            content_type,
        ) {
            &&& retrieve(service, url, populate(service, url, world).0).1 == delivery(
                CachedImageView { data: body, mime_type: decode_utf8(content_type) },
                true,
            )
            &&& vstd::utf8::encode_utf8(decode_utf8(content_type)) == content_type
        } else {
            retrieve(service, url, populate(service, url, world).0).1 is Fail
        },
{
    lemma_paths_distinct(service.images_dir, key_of(url));
    lemma_populate_outcome(service, url, world);
    lemma_retrieve_outcome(service, url, populate(service, url, world).0);
    let (content_type, body) = accepted(service, url, world).unwrap();
    if valid_utf8(content_type) {
        vstd::utf8::decode_utf8_encode_utf8(content_type);
    }
}

/// A retrieval that finds no payload and delivers an image delivers it as a
/// miss, and the retrieval that follows is a hit with the same payload and
/// the same media type.
pub proof fn lemma_miss_then_hit(service: AppServiceView, url: Seq<char>, world: World)
    requires
        is_key(key_of(url)),
        !world.files.contains_key(payload_path_of(service.images_dir, key_of(url))),
        retrieve(service, url, world).1 is Deliver,
    ensures
        retrieve(service, url, world).1 matches ActionView::Deliver(first) && {
            &&& !first.extracted_from_cache
            &&& retrieve(service, url, retrieve(service, url, world).0).1 == ActionView::Deliver(
                crate::dtos::CachedImageView { extracted_from_cache: true, ..first },
            )
        },
{
    lemma_paths_distinct(service.images_dir, key_of(url));
    lemma_populate_outcome(service, url, world);
    lemma_retrieve_outcome(service, url, world);
    lemma_retrieve_outcome(service, url, retrieve(service, url, world).0);
}

/// Storing the same image a second time succeeds as the first time did and
/// leaves the same files. Where the direct answer is an image or a video,
/// the entry holds that answer.
pub proof fn lemma_populate_twice(service: AppServiceView, url: Seq<char>, world: World)
    requires
        is_key(key_of(url)),
        populate(service, url, world).1 is Stored,
    ensures
        populate(service, url, populate(service, url, world).0).1 is Stored,
        populate(service, url, populate(service, url, world).0).0.files == populate(
            service,
            url,
            world,
        ).0.files,
        genuine((world.origin)(request_for(service, url, false))) matches Some(
            (content_type, body),
        ) ==> {
            let files = populate(service, url, populate(service, url, world).0).0.files;
            &&& files[payload_path_of(service.images_dir, key_of(url))] == body
            &&& files[media_type_path_of(service.images_dir, key_of(url))] == content_type
        },
{
    lemma_paths_distinct(service.images_dir, key_of(url));
    lemma_populate_outcome(service, url, world);
    let once = populate(service, url, world).0;
    lemma_populate_outcome(service, url, once);
    assert(accepted(service, url, once) == accepted(service, url, world));
    let (content_type, body) = accepted(service, url, world).unwrap();
    assert(files_with_entry(service, url, once.files, content_type, body) =~= once.files);
}

/// How a step turns out on a disk and a network that can fail.
pub enum Fate {
    /// The step is carried out in full.
    Completes,
    /// The step breaks off and is reported as failed. A write that breaks
    /// off may leave `left` in the file it was writing, or leave the file
    /// untouched; a move that breaks off moves nothing.
    Breaks { left: Option<Seq<u8>>, failure: FailureView },
}

/// What carrying out `action` does to the world when it turns out as `fate`
/// says, and the event that reports it.
pub open spec fn perform_with(world: World, action: ActionView, fate: Fate) -> (
    World,
    EventView,
) {
    match fate {
        Fate::Completes => perform(world, action),
        Fate::Breaks { left, failure } => {
            let files = match (action, left) {
                (ActionView::StorePayload { path }, Some(bytes)) => world.files.insert(
                    path,
                    bytes,
                ),
                (ActionView::StoreMediaType { path, .. }, Some(bytes)) => world.files.insert(
                    path,
                    bytes,
                ),
                _ => world.files,
            };
            (World { files, ..world }, EventView::Failed(failure))
        },
    }
}

/// Whether the entry of `url` is whole as far as its files show: where the
/// payload is in its place, so is the media type.
pub open spec fn entry_whole(
    service: AppServiceView,
    url: Seq<char>,
    files: Map<Seq<char>, Seq<u8>>,
) -> bool {
    files.contains_key(payload_path_of(service.images_dir, key_of(url)))
        ==> files.contains_key(media_type_path_of(service.images_dir, key_of(url)))
}

/// What holds of the disk while an image is stored, whatever goes wrong:
/// the entry is whole, and the events that report a file as written or
/// moved are true of the disk.
pub open spec fn sound(
    service: AppServiceView,
    url: Seq<char>,
    world: World,
    stage: StageView,
    event: EventView,
) -> bool {
    let media_type_path = media_type_path_of(service.images_dir, key_of(url));
    &&& entry_whole(service, url, world.files)
    &&& stage is WritingMediaType && event is MediaTypeStored ==> world.files.contains_key(
        staging_of(media_type_path),
    )
    &&& stage is PublishingMediaType && event is Published ==> world.files.contains_key(
        media_type_path,
    )
}

/// A storing keeps the entry whole at every step, however each step turns
/// out: if the disk is sound before a step, it is sound after the step has
/// been carried out, in full or in part. A storing begins on a sound disk
/// wherever it begins on a whole entry.
pub proof fn lemma_entry_stays_whole(
    service: AppServiceView,
    url: Seq<char>,
    world: World,
    stage: StageView,
    event: EventView,
    fate: Fate,
)
    requires
        is_key(key_of(url)),
        sound(service, url, world, stage, event),
    ensures
        sound(
            service,
            url,
            perform_with(world, populate_step(service, url, stage, event).1, fate).0,
            populate_step(service, url, stage, event).0,
            perform_with(world, populate_step(service, url, stage, event).1, fate).1,
        ),
        entry_whole(service, url, world.files) ==> sound(
            service,
            url,
            world,
            StageView::Start,
            EventView::Begin,
        ),
{
    lemma_paths_distinct(service.images_dir, key_of(url));
}

/// The payload's place changes in one way only: by the last step of a
/// storing, the move of the whole staged payload. No write, whole or
/// broken off, touches it, so that a payload that is found is never a part
/// of one.
pub proof fn lemma_payload_appears_whole(
    service: AppServiceView,
    url: Seq<char>,
    world: World,
    stage: StageView,
    event: EventView,
    fate: Fate,
)
    requires
        is_key(key_of(url)),
    ensures
        ({
            let payload = payload_path_of(service.images_dir, key_of(url));
            let step = populate_step(service, url, stage, event);
            let after = perform_with(world, step.1, fate).0.files;
            let moved = {
                &&& stage is PublishingMediaType
                &&& event is Published
                &&& fate is Completes
                &&& world.files.contains_key(staging_of(payload))
            };
            if moved {
                after.contains_key(payload) && after[payload] == world.files[staging_of(payload)]
            } else {
                &&& after.contains_key(payload) == world.files.contains_key(payload)
                &&& after.contains_key(payload) ==> after[payload] == world.files[payload]
            }
        }),
{
    lemma_paths_distinct(service.images_dir, key_of(url));
}

} // verus!
