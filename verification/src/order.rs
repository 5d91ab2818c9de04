//! The order of the steps: what the step functions of [`crate::protocol`]
//! never do, whatever events are reported.

use vstd::prelude::*;
use crate::app_service::AppServiceView;
use crate::cache_key::key_of;
use crate::error::CacheErrorView;
use crate::layout::{media_type_path_of, payload_path_of, staging_of};
use crate::protocol::{
    is_media, populate_step, request_for, ActionView, EventView, StageView,
};

verus! {

/// How far a stage is along the way from `Start` to an end.
pub open spec fn stage_rank(stage: StageView) -> nat {
    match stage {
        StageView::Start => 0,
        StageView::CreatingFolder => 1,
        StageView::DirectFetchInFlight => 2,
        StageView::BypassFetchInFlight => 3,
        StageView::WritingPayload { .. } => 4,
        StageView::WritingMediaType => 5,
        StageView::PublishingMediaType => 6,
        StageView::PublishingPayload => 7,
        StageView::Stored => 8,
        StageView::Failed => 9,
    }
}

/// Whether an action closes an operation.
pub open spec fn closes(action: ActionView) -> bool {
    action is Deliver || action is Stored || action is Fail
}

/// Every step moves on: no stage is entered twice, so nothing is tried
/// again, but for the one fetch through the proxy that follows a challenge.
/// A step that reaches `Stored` or `Failed` closes the exchange, and no other
/// step does.
pub proof fn lemma_steps_move_forward(
    service: AppServiceView,
    url: Seq<char>,
    stage: StageView,
    event: EventView,
)
    ensures
        !(stage is Failed) ==> stage_rank(populate_step(service, url, stage, event).0)
            > stage_rank(stage),
        stage is Failed ==> populate_step(service, url, stage, event).0 is Failed,
        populate_step(service, url, stage, event).0 is Stored <==> populate_step(
            service,
            url,
            stage,
            event,
        ).1 is Stored,
        populate_step(service, url, stage, event).0 is Failed <==> populate_step(
            service,
            url,
            stage,
            event,
        ).1 is Fail,
        !(populate_step(service, url, stage, event).1 is Deliver),
{
}

/// A request is sent at two points only. The direct one follows the making
/// of the folder. The one through the proxy follows a direct fetch whose
/// answer was a challenge, and only where the service has a proxy: it goes
/// to that proxy and accepts any certificate.
pub proof fn lemma_when_a_request_is_sent(
    service: AppServiceView,
    url: Seq<char>,
    stage: StageView,
    event: EventView,
)
    ensures
        populate_step(service, url, stage, event).1 matches ActionView::Fetch(request) ==> {
            ||| {
                &&& stage is CreatingFolder
                &&& event is FolderReady
                &&& request == request_for(service, url, false)
                &&& request.proxy is None
                &&& request.accept_invalid_certs == service.disable_https_validation
            }
            ||| {
                &&& stage is DirectFetchInFlight
                &&& event matches EventView::Fetched { content_type: Some(content_type) }
                &&& !is_media(content_type)
                &&& service.bypass_info is Some
                &&& request == request_for(service, url, true)
                &&& request.proxy == service.bypass_info
                &&& request.accept_invalid_certs
            }
        },
{
}

/// A direct fetch that is challenged is followed by one fetch through the
/// proxy if the service has one, and ends the attempt at once if it has
/// none. A fetch through the proxy that is challenged ends the attempt.
pub proof fn lemma_challenge_escalates_once(
    service: AppServiceView,
    url: Seq<char>,
    content_type: Seq<u8>,
)
    requires
        !is_media(content_type),
    ensures
        service.bypass_info is Some ==> populate_step(
            service,
            url,
            StageView::DirectFetchInFlight,
            EventView::Fetched { content_type: Some(content_type) },
        ) == (
            StageView::BypassFetchInFlight,
            ActionView::Fetch(request_for(service, url, true)),
        ),
        service.bypass_info is None ==> populate_step(
            service,
            url,
            StageView::DirectFetchInFlight,
            EventView::Fetched { content_type: Some(content_type) },
        ) == (StageView::Failed, ActionView::Fail(CacheErrorView::Challenge(content_type))),
        populate_step(
            service,
            url,
            StageView::BypassFetchInFlight,
            EventView::Fetched { content_type: Some(content_type) },
        ) == (StageView::Failed, ActionView::Fail(CacheErrorView::Challenge(content_type))),
{
}

/// An answer without a content type ends the attempt, whichever way it was
/// fetched and whether or not the service has a proxy.
pub proof fn lemma_missing_content_type_fails(
    service: AppServiceView,
    url: Seq<char>,
    stage: StageView,
)
    requires
        stage is DirectFetchInFlight || stage is BypassFetchInFlight,
    ensures
        populate_step(service, url, stage, EventView::Fetched { content_type: None }) == (
            StageView::Failed,
            ActionView::Fail(CacheErrorView::MissingContentType),
        ),
{
}

/// Nothing is written to a place of the entry: the body and the media type
/// each go to a staging file, the body only after a genuine answer, the
/// media type only once the whole body is written. The files are moved to
/// their places only once both are written, the media type first and the
/// payload last.
pub proof fn lemma_write_order(
    service: AppServiceView,
    url: Seq<char>,
    stage: StageView,
    event: EventView,
)
    ensures
        ({
            let payload = payload_path_of(service.images_dir, key_of(url));
            let media_type_path = media_type_path_of(service.images_dir, key_of(url));
            match populate_step(service, url, stage, event).1 {
                ActionView::StorePayload { path } => {
                    &&& path == staging_of(payload)
                    &&& stage is DirectFetchInFlight || stage is BypassFetchInFlight
                    &&& event matches EventView::Fetched { content_type: Some(content_type) }
                    &&& is_media(content_type)
                },
                ActionView::StoreMediaType { path, value } => {
                    &&& path == staging_of(media_type_path)
                    &&& stage == (StageView::WritingPayload { media_type: value })
                    &&& event is PayloadStored
                },
                ActionView::Publish { from, to } => {
                    &&& event is Published || event is MediaTypeStored
                    &&& if stage is WritingMediaType {
                        from == staging_of(media_type_path) && to == media_type_path
                            && event is MediaTypeStored
                    } else {
                        from == staging_of(payload) && to == payload
                            && stage is PublishingMediaType && event is Published
                    }
                },
                _ => true,
            }
        }),
{
}

/// How many requests are asked for while the events `events` are reported
/// one after another, beginning at `stage`.
pub open spec fn requests_asked(
    service: AppServiceView,
    url: Seq<char>,
    stage: StageView,
    events: Seq<EventView>,
) -> nat
    decreases events.len(),
{
    if events.len() == 0 {
        0
    } else {
        let step = populate_step(service, url, stage, events.first());
        let asked: nat = if step.1 is Fetch {
            1
        } else {
            0
        };
        asked + requests_asked(service, url, step.0, events.drop_first())
    }
}

/// How many requests a storing may still ask for at a stage: the direct one
/// until it is sent, and after it the one through the proxy, if the service
/// has a proxy.
pub open spec fn requests_left(service: AppServiceView, stage: StageView) -> nat {
    let through_proxy: nat = if service.bypass_info is Some {
        1
    } else {
        0
    };
    match stage {
        StageView::Start => 1 + through_proxy,
        StageView::CreatingFolder => 1 + through_proxy,
        StageView::DirectFetchInFlight => through_proxy,
        _ => 0,
    }
}

/// Whatever is reported, and in whatever order, a storing asks for no more
/// requests than its stage leaves it.
pub proof fn lemma_requests_bounded_from(
    service: AppServiceView,
    url: Seq<char>,
    stage: StageView,
    events: Seq<EventView>,
)
    ensures
        requests_asked(service, url, stage, events) <= requests_left(service, stage),
    decreases events.len(),
{
    if events.len() > 0 {
        let step = populate_step(service, url, stage, events.first());
        lemma_requests_bounded_from(service, url, step.0, events.drop_first());
    }
}

/// Whatever is reported, a storing asks for at most two requests, the
/// direct one and the one through the proxy, and for at most one where the
/// service has no proxy.
pub proof fn lemma_at_most_one_retry(service: AppServiceView, url: Seq<char>, events: Seq<EventView>)
    ensures
        requests_asked(service, url, StageView::Start, events) <= 2,
        service.bypass_info is None ==> requests_asked(service, url, StageView::Start, events)
            <= 1,
{
    lemma_requests_bounded_from(service, url, StageView::Start, events);
}

} // verus!
