//! The cache service: its settings, where it keeps each image, and the
//! decisions it takes while an image is retrieved or stored.

use vstd::prelude::*;
use vstd::string::*;
use crate::cache_key::{cache_key, is_key, key_of, lemma_hex_of_injective, sha3_256};
use crate::layout::{
    folder_of, join_path, lemma_payload_path_injective, media_type_path_of, payload_path_of,
    staging_of,
};
use crate::error::CacheError;
use crate::protocol::{
    after_fetch, is_media_type, populate_step, request_for, retrieve_step, within_retrieval,
    Action, Event, FetchRequest, Progress, Stage,
};
use crate::text::same_text;

verus! {

/// The three places of one cache entry. They are derived from the URL each
/// time they are needed, and never kept.
#[derive(Debug, Clone, PartialEq, Eq)]
pub struct CachedImagePaths {
    data_folder: String,
    data_path: String,
    mime_type_path: String,
}

/// The mathematical content of a [`CachedImagePaths`].
pub struct CachedImagePathsView {
    pub data_folder: Seq<char>,
    pub data_path: Seq<char>,
    pub mime_type_path: Seq<char>,
}

impl View for CachedImagePaths {
    type V = CachedImagePathsView;

    closed spec fn view(&self) -> CachedImagePathsView {
        CachedImagePathsView {
            data_folder: self.data_folder@,
            data_path: self.data_path@,
            mime_type_path: self.mime_type_path@,
        }
    }
}

impl CachedImagePaths {
    /// The directory that holds the entry.
    pub fn data_folder(&self) -> (path: &str)
        ensures
            path@ == self@.data_folder,
    {
        self.data_folder.as_str()
    }

    /// The file that holds the payload.
    pub fn data_path(&self) -> (path: &str)
        ensures
            path@ == self@.data_path,
    {
        self.data_path.as_str()
    }

    /// The file that holds the media type.
    pub fn mime_type_path(&self) -> (path: &str)
        ensures
            path@ == self@.mime_type_path,
    {
        self.mime_type_path.as_str()
    }
}

/// A proxy through which a fetch is sent again after the origin has
/// challenged a direct one, and the account to use with it.
#[derive(Debug, Clone, PartialEq, Eq)]
pub struct CloudFlareBypassProxy {
    pub proxy_url: String,
    pub proxy_login: String,
    pub proxy_password: String,
}

/// The mathematical content of a [`CloudFlareBypassProxy`].
pub struct CloudFlareBypassProxyView {
    pub proxy_url: Seq<char>,
    pub proxy_login: Seq<char>,
    pub proxy_password: Seq<char>,
}

impl View for CloudFlareBypassProxy {
    type V = CloudFlareBypassProxyView;

    open spec fn view(&self) -> CloudFlareBypassProxyView {
        CloudFlareBypassProxyView {
            proxy_url: self.proxy_url@,
            proxy_login: self.proxy_login@,
            proxy_password: self.proxy_password@,
        }
    }
}

/// The places of the entry of `key` in a cache rooted at `root`.
pub open spec fn paths_for_key(root: Seq<char>, key: Seq<char>) -> CachedImagePathsView {
    CachedImagePathsView {
        data_folder: folder_of(root, key),
        data_path: payload_path_of(root, key),
        mime_type_path: media_type_path_of(root, key),
    }
}

impl CachedImagePaths {
    /// Derives the places of the entry of `key` in a cache rooted at
    /// `images_dir`. The key must have the two digits that name its
    /// directory.
    pub fn for_key(images_dir: &str, key: &str) -> (paths: CachedImagePaths)
        requires
            key@.len() >= 2,
        ensures
            paths@ == paths_for_key(images_dir@, key@),
    {
        let mut mime_type_file_name = String::from_str(key);
        mime_type_file_name.append(".mime-type");
        // The first two digits of the name make the directory, so that no
        // directory grows without bound.
        let data_folder = join_path(images_dir, key.substring_char(0, 2));
        let data_path = join_path(data_folder.as_str(), key);
        let mime_type_path = join_path(data_folder.as_str(), mime_type_file_name.as_str());
        CachedImagePaths { data_folder, data_path, mime_type_path }
    }

    /// A copy of these paths.
    pub fn duplicate(&self) -> (copy: CachedImagePaths)
        ensures
            copy@ == self@,
    {
        CachedImagePaths {
            data_folder: self.data_folder.clone(),
            data_path: self.data_path.clone(),
            mime_type_path: self.mime_type_path.clone(),
        }
    }

    /// The file in which the payload is gathered before it takes its place.
    pub fn staged_data_path(&self) -> (path: String)
        ensures
            path@ == staging_of(self@.data_path),
    {
        let mut path = self.data_path.clone();
        path.append(".part");
        path
    }

    /// The file in which the media type is written before it takes its
    /// place.
    pub fn staged_mime_type_path(&self) -> (path: String)
        ensures
            path@ == staging_of(self@.mime_type_path),
    {
        let mut path = self.mime_type_path.clone();
        path.append(".part");
        path
    }
}

impl CloudFlareBypassProxy {
    /// A copy of these settings.
    pub fn duplicate(&self) -> (copy: CloudFlareBypassProxy)
        ensures
            copy@ == self@,
    {
        CloudFlareBypassProxy {
            proxy_url: self.proxy_url.clone(),
            proxy_login: self.proxy_login.clone(),
            proxy_password: self.proxy_password.clone(),
        }
    }
}

/// The view of an optional proxy.
pub open spec fn proxy_view(proxy: Option<CloudFlareBypassProxy>) -> Option<
    CloudFlareBypassProxyView,
> {
    match proxy {
        Some(proxy) => Some(proxy@),
        None => None,
    }
}

/// The cache service and its settings, fixed when it is made.
pub struct AppService {
    access_token: String,
    images_dir: String,
    disable_https_validation: bool,
    bypass_info: Option<CloudFlareBypassProxy>,
}

/// The mathematical content of an [`AppService`].
pub struct AppServiceView {
    pub access_token: Seq<char>,
    pub images_dir: Seq<char>,
    pub disable_https_validation: bool,
    pub bypass_info: Option<CloudFlareBypassProxyView>,
}

impl View for AppService {
    type V = AppServiceView;

    closed spec fn view(&self) -> AppServiceView {
        AppServiceView {
            access_token: self.access_token@,
            images_dir: self.images_dir@,
            disable_https_validation: self.disable_https_validation,
            bypass_info: proxy_view(self.bypass_info),
        }
    }
}

/// The places of the entry of `url` in a cache rooted at `root`.
pub open spec fn paths_of(root: Seq<char>, url: Seq<char>) -> CachedImagePathsView {
    paths_for_key(root, key_of(url))
}

impl AppService {
    /// Makes a service that admits `access_token`, keeps its images under
    /// `images_dir`, checks certificates unless `disable_https_validation`,
    /// and retries a challenged fetch through `bypass_info` if there is one.
    pub fn new(
        access_token: String,
        images_dir: String,
        disable_https_validation: bool,
        bypass_info: Option<CloudFlareBypassProxy>,
    ) -> (service: AppService)
        ensures
            service@ == (AppServiceView {
                access_token: access_token@,
                images_dir: images_dir@,
                disable_https_validation,
                bypass_info: proxy_view(bypass_info),
            }),
    {
        AppService { access_token, images_dir, disable_https_validation, bypass_info }
    }

    /// Tells whether the service has a proxy to answer a challenge through.
    pub fn has_bypass(&self) -> (configured: bool)
        ensures
            configured == (self@.bypass_info is Some),
    {
        self.bypass_info.is_some()
    }

    /// Tells whether `request_access_token` is the service's access token,
    /// character for character.
    pub fn validate_access_token(&self, request_access_token: &str) -> (valid: bool)
        ensures
            valid == (request_access_token@ == self@.access_token),
    {
        same_text(self.access_token.as_str(), request_access_token)
    }

    /// Derives the places of the entry of `image_url`. The URL is taken as it
    /// is written: two spellings of one address are two entries.
    pub fn get_file_name_path(&self, image_url: &str) -> (paths: CachedImagePaths)
        ensures
            paths@ == paths_of(self@.images_dir, image_url@),
            is_key(key_of(image_url@)),
    {
        let image_content_file_name = cache_key(image_url);
        CachedImagePaths::for_key(self.images_dir.as_str(), image_content_file_name.as_str())
    }
}

impl AppService {
    /// One step of retrieving the image of `image_url`: given where the
    /// retrieval stands and what the caller reports, where it stands next
    /// and what the caller is to do. A retrieval begins at `Progress::Start`
    /// with `Event::Begin` and ends with `Action::Deliver` or `Action::Fail`.
    pub fn get_image(&self, image_url: &str, progress: Progress, event: Event) -> (next: (
        Progress,
        Action,
    ))
        ensures
            next.0@ == retrieve_step(self@, image_url@, progress@, event@).0,
            next.1@ == retrieve_step(self@, image_url@, progress@, event@).1,
    {
        let cached_image_paths = self.get_file_name_path(image_url);
        match progress {
            Progress::Start => match event {
                Event::Begin => (
                    Progress::Probing,
                    Action::ProbePayload { path: cached_image_paths.data_path },
                ),
                _ => (Progress::Finished, Action::Fail(CacheError::OutOfOrder)),
            },
            Progress::Probing => match event {
                Event::Probed { exists } => if exists {
                    (
                        Progress::Reading { hit: true },
                        Action::ReadEntry {
                            data_path: cached_image_paths.data_path,
                            mime_type_path: cached_image_paths.mime_type_path,
                        },
                    )
                } else {
                    self.populate_within(image_url, cached_image_paths, Stage::Start, Event::Begin)
                },
                Event::Failed(failure) => (
                    Progress::Finished,
                    Action::Fail(CacheError::from_failure(failure)),
                ),
                _ => (Progress::Finished, Action::Fail(CacheError::OutOfOrder)),
            },
            Progress::Populating(stage) => self.populate_within(
                image_url,
                cached_image_paths,
                stage,
                event,
            ),
            Progress::Reading { hit } => match event {
                Event::EntryRead(entry) => (
                    Progress::Finished,
                    Action::Deliver(
                        crate::dtos::CachedImage {
                            data: entry.data,
                            mime_type: entry.mime_type,
                            extracted_from_cache: hit,
                        },
                    ),
                ),
                Event::MediaTypeUnreadable { detail } => (
                    Progress::Finished,
                    Action::Fail(CacheError::Inconsistent(detail)),
                ),
                Event::Failed(failure) => (
                    Progress::Finished,
                    Action::Fail(CacheError::from_failure(failure)),
                ),
                _ => (Progress::Finished, Action::Fail(CacheError::OutOfOrder)),
            },
            Progress::Finished => (Progress::Finished, Action::Fail(CacheError::OutOfOrder)),
        }
    }

    /// One step of storing the image of `image_url` without handing it back:
    /// given where the storing stands and what the caller reports, where it
    /// stands next and what the caller is to do. It begins at `Stage::Start`
    /// with `Event::Begin` and ends with `Action::Stored` or `Action::Fail`.
    pub fn save_image(&self, image_url: &str, stage: Stage, event: Event) -> (next: (
        Stage,
        Action,
    ))
        ensures
            next.0@ == populate_step(self@, image_url@, stage@, event@).0,
            next.1@ == populate_step(self@, image_url@, stage@, event@).1,
    {
        let cached_image_paths = self.get_file_name_path(image_url);
        self.download_and_save(image_url, cached_image_paths, stage, event)
    }

    /// The request by which the image of `image_url` is fetched: directly,
    /// or, with `deploy_workarounds`, through the proxy.
    pub fn try_get_image(&self, image_url: &str, deploy_workarounds: bool) -> (request:
        FetchRequest)
        requires
            deploy_workarounds ==> self@.bypass_info is Some,
        ensures
            request@ == request_for(self@, image_url@, deploy_workarounds),
    {
        let proxy = if deploy_workarounds {
            match &self.bypass_info {
                Some(bypass) => Some(bypass.duplicate()),
                None => None,
            }
        } else {
            None
        };
        FetchRequest {
            url: String::from_str(image_url),
            user_agent: String::from_str("curl/7.86.0"),
            accept: String::from_str("*/*"),
            accept_invalid_certs: self.disable_https_validation || deploy_workarounds,
            proxy,
        }
    }

    /// A step of storing, as part of a retrieval.
    fn populate_within(
        &self,
        image_url: &str,
        cached_image_paths: CachedImagePaths,
        stage: Stage,
        event: Event,
    ) -> (next: (Progress, Action))
        requires
            cached_image_paths@ == paths_of(self@.images_dir, image_url@),
        ensures
            next.0@ == within_retrieval(
                self@,
                image_url@,
                populate_step(self@, image_url@, stage@, event@),
            ).0,
            next.1@ == within_retrieval(
                self@,
                image_url@,
                populate_step(self@, image_url@, stage@, event@),
            ).1,
    {
        let (stage, action) = self.download_and_save(
            image_url,
            cached_image_paths.duplicate(),
            stage,
            event,
        );
        match stage {
            Stage::Stored => (
                Progress::Reading { hit: false },
                Action::ReadEntry {
                    data_path: cached_image_paths.data_path,
                    mime_type_path: cached_image_paths.mime_type_path,
                },
            ),
            Stage::Failed => (Progress::Finished, action),
            _ => (Progress::Populating(stage), action),
        }
    }

    /// One step of fetching the image of `image_url` and writing it to
    /// `cached_image_paths`.
    fn download_and_save(
        &self,
        image_url: &str,
        cached_image_paths: CachedImagePaths,
        stage: Stage,
        event: Event,
    ) -> (next: (Stage, Action))
        requires
            cached_image_paths@ == paths_of(self@.images_dir, image_url@),
        ensures
            next.0@ == populate_step(self@, image_url@, stage@, event@).0,
            next.1@ == populate_step(self@, image_url@, stage@, event@).1,
    {
        match stage {
            Stage::Start => (
                match event {
                    // Make sure the directory for the file exists.
                    Event::Begin => (
                        Stage::CreatingFolder,
                        Action::EnsureFolder { path: cached_image_paths.data_folder },
                    ),
                    _ => (Stage::Failed, Action::Fail(CacheError::OutOfOrder)),
                }
            ),
            Stage::CreatingFolder => (
                match event {
                    Event::FolderReady => (
                        Stage::DirectFetchInFlight,
                        Action::Fetch(self.try_get_image(image_url, false)),
                    ),
                    Event::Failed(failure) => (
                        Stage::Failed,
                        Action::Fail(CacheError::from_failure(failure)),
                    ),
                    _ => (Stage::Failed, Action::Fail(CacheError::OutOfOrder)),
                }
            ),
            Stage::DirectFetchInFlight => (
                match event {
                    // A challenge is answered through the proxy, if there is
                    // one; any other failure is final.
                    Event::Fetched { content_type } => self.classify(
                        image_url,
                        cached_image_paths,
                        content_type,
                        self.has_bypass(),
                    ),
                    Event::Failed(failure) => (
                        Stage::Failed,
                        Action::Fail(CacheError::from_failure(failure)),
                    ),
                    _ => (Stage::Failed, Action::Fail(CacheError::OutOfOrder)),
                }
            ),
            Stage::BypassFetchInFlight => (
                match event {
                    Event::Fetched { content_type } => self.classify(
                        image_url,
                        cached_image_paths,
                        content_type,
                        false,
                    ),
                    Event::Failed(failure) => (
                        Stage::Failed,
                        Action::Fail(CacheError::from_failure(failure)),
                    ),
                    _ => (Stage::Failed, Action::Fail(CacheError::OutOfOrder)),
                }
            ),
            Stage::WritingPayload { media_type } => (
                match event {
                    // The payload is whole: now the media type.
                    Event::PayloadStored => (
                        Stage::WritingMediaType,
                        Action::StoreMediaType {
                            path: cached_image_paths.staged_mime_type_path(),
                            value: media_type,
                        },
                    ),
                    Event::Failed(failure) => (
                        Stage::Failed,
                        Action::Fail(CacheError::from_failure(failure)),
                    ),
                    _ => (Stage::Failed, Action::Fail(CacheError::OutOfOrder)),
                }
            ),
            Stage::WritingMediaType => (
                match event {
                    Event::MediaTypeStored => {
                        let from = cached_image_paths.staged_mime_type_path();
                        (
                            Stage::PublishingMediaType,
                            Action::Publish { from, to: cached_image_paths.mime_type_path },
                        )
                    },
                    Event::Failed(failure) => (
                        Stage::Failed,
                        Action::Fail(CacheError::from_failure(failure)),
                    ),
                    _ => (Stage::Failed, Action::Fail(CacheError::OutOfOrder)),
                }
            ),
            Stage::PublishingMediaType => (
                match event {
                    // The payload comes last: the entry is found by it.
                    Event::Published => {
                        let from = cached_image_paths.staged_data_path();
                        (
                            Stage::PublishingPayload,
                            Action::Publish { from, to: cached_image_paths.data_path },
                        )
                    },
                    Event::Failed(failure) => (
                        Stage::Failed,
                        Action::Fail(CacheError::from_failure(failure)),
                    ),
                    _ => (Stage::Failed, Action::Fail(CacheError::OutOfOrder)),
                }
            ),
            Stage::PublishingPayload => (
                match event {
                    Event::Published => (Stage::Stored, Action::Stored),
                    Event::Failed(failure) => (
                        Stage::Failed,
                        Action::Fail(CacheError::from_failure(failure)),
                    ),
                    _ => (Stage::Failed, Action::Fail(CacheError::OutOfOrder)),
                }
            ),
            Stage::Stored => (Stage::Failed, Action::Fail(CacheError::OutOfOrder)),
            Stage::Failed => (Stage::Failed, Action::Fail(CacheError::OutOfOrder)),
        }
    }

    /// Decides what follows the head of an answer, by its content type.
    fn classify(
        &self,
        image_url: &str,
        cached_image_paths: CachedImagePaths,
        content_type: Option<Vec<u8>>,
        may_escalate: bool,
    ) -> (next: (Stage, Action))
        requires
            cached_image_paths@ == paths_of(self@.images_dir, image_url@),
            may_escalate ==> self@.bypass_info is Some,
        ensures
            next.0@ == after_fetch(
                self@,
                image_url@,
                crate::protocol::bytes_view(content_type),
                may_escalate,
            ).0,
            next.1@ == after_fetch(
                self@,
                image_url@,
                crate::protocol::bytes_view(content_type),
                may_escalate,
            ).1,
    {
        match content_type {
            None => (Stage::Failed, Action::Fail(CacheError::MissingContentType)),
            Some(mime_type) => {
                // Hosts often answer a robot with a page in place of the
                // image, so anything but an image or a video is a challenge.
                if is_media_type(mime_type.as_slice()) {
                    (
                        Stage::WritingPayload { media_type: mime_type },
                        Action::StorePayload { path: cached_image_paths.staged_data_path() },
                    )
                } else if may_escalate {
                    (Stage::BypassFetchInFlight, Action::Fetch(self.try_get_image(image_url, true)))
                } else {
                    (Stage::Failed, Action::Fail(CacheError::Challenge(mime_type)))
                }
            },
        }
    }
}

/// Under one root, two URLs whose keys are well formed, as every computed
/// key is, share a payload file exactly when their digests are the same.
pub proof fn lemma_same_path_iff_same_digest(root: Seq<char>, u1: Seq<char>, u2: Seq<char>)
    requires
        is_key(key_of(u1)),
        is_key(key_of(u2)),
    ensures
        paths_of(root, u1).data_path == paths_of(root, u2).data_path <==> sha3_256(
            vstd::utf8::encode_utf8(u1),
        ) == sha3_256(vstd::utf8::encode_utf8(u2)),
{
    if paths_of(root, u1).data_path == paths_of(root, u2).data_path {
        lemma_payload_path_injective(root, key_of(u1), key_of(u2));
        lemma_hex_of_injective(
            sha3_256(vstd::utf8::encode_utf8(u1)),
            sha3_256(vstd::utf8::encode_utf8(u2)),
        );
    }
}

} // verus!
