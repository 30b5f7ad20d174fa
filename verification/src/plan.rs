//! Which media of a record are fetched, from where and to which file.
//!
//! The images of the gallery are taken in their order up to the first one
//! without a reference: that one and all after it are left out. Every image
//! is stored as `png`, fetched without the session's credential. The video is
//! fetched with the credential and stored under the extension of its declared
//! content type. A video without a reference makes the run fail once the
//! images are stored.

use vstd::prelude::*;
use vstd::string::*;
use crate::layout::{blob_address, blob_url, image_extension, media_file, media_path};
use crate::media::MediaType;
use crate::thread::{MediaReference, RecordEmbed, RecordEmbedMedia, RecordEmbedVideo};

verus! {

/// One content to fetch and the file to store it in.
#[derive(Debug, Clone, PartialEq, Eq)]
pub struct Download {
    pub url: String,
    /// Whether the request carries the session's credential.
    pub authenticated: bool,
    pub path: String,
}

/// A download as plain texts.
pub struct DownloadView {
    pub url: Seq<char>,
    pub authenticated: bool,
    pub path: Seq<char>,
}

impl View for Download {
    type V = DownloadView;

    open spec fn view(&self) -> DownloadView {
        DownloadView { url: self.url@, authenticated: self.authenticated, path: self.path@ }
    }
}

/// The downloads of `list` as plain texts.
pub open spec fn downloads_view(list: Seq<Download>) -> Seq<DownloadView> {
    list.map_values(|d: Download| d@)
}

/// What a record's media come to: the downloads in the order in which they
/// are made, and whether the run fails after them for want of the video's
/// reference.
#[derive(Debug, Clone)]
pub struct MediaPlan {
    pub downloads: Vec<Download>,
    pub video_missing: bool,
}

/// How many images from position `i` on have a reference, up to the first
/// that has none.
pub open spec fn present_run(images: Seq<RecordEmbedMedia>, i: int) -> nat
    decreases images.len() - i,
{
    if 0 <= i < images.len() && images[i].image is Some {
        1 + present_run(images, i + 1)
    } else {
        0
    }
}

/// The download of a gallery image with the reference `reference`.
pub open spec fn image_download(
    did: Seq<char>,
    record_key: Seq<char>,
    reference: MediaReference,
) -> DownloadView {
    DownloadView {
        url: blob_address(did, reference.content_id@),
        authenticated: false,
        path: media_path(record_key, reference.content_id@, image_extension()),
    }
}

/// The download of a video with the reference `reference`.
pub open spec fn video_download(
    did: Seq<char>,
    record_key: Seq<char>,
    reference: MediaReference,
) -> DownloadView {
    DownloadView {
        url: blob_address(did, reference.content_id@),
        authenticated: true,
        path: media_path(
            record_key,
            reference.content_id@,
            MediaType::of_mime(reference.mime_type@).spec_extension(),
        ),
    }
}

/// The downloads of the gallery: one for each image before the first without
/// a reference, in the gallery's order.
pub open spec fn image_downloads(
    did: Seq<char>,
    record_key: Seq<char>,
    images: Seq<RecordEmbedMedia>,
) -> Seq<DownloadView> {
    Seq::new(
        present_run(images, 0),
        |j: int| image_download(did, record_key, images[j].image.unwrap()),
    )
}

/// The download of the video, where there is one with a reference.
pub open spec fn video_downloads(
    did: Seq<char>,
    record_key: Seq<char>,
    video: Option<RecordEmbedVideo>,
) -> Seq<DownloadView> {
    match video {
        Some(RecordEmbedVideo { reference: Some(reference) }) => seq![
            video_download(did, record_key, reference),
        ],
        _ => Seq::empty(),
    }
}

/// All downloads of a record's embed: the gallery's, then the video's.
pub open spec fn planned_downloads(
    did: Seq<char>,
    record_key: Seq<char>,
    embed: RecordEmbed,
) -> Seq<DownloadView> {
    image_downloads(did, record_key, embed.images@) + video_downloads(
        did,
        record_key,
        embed.video,
    )
}

/// Whether the embed has a video without a reference.
pub open spec fn video_reference_missing(embed: RecordEmbed) -> bool {
    embed.video is Some && embed.video.unwrap().reference is None
}

/// Plans the downloads of a record's embed for the actor `did` and the post
/// `record_key`.
pub fn plan_media(did: &str, record_key: &str, embed: &RecordEmbed) -> (plan: MediaPlan)
    ensures
        downloads_view(plan.downloads@) == planned_downloads(did@, record_key@, *embed),
        plan.video_missing == video_reference_missing(*embed),
{
    let mut downloads: Vec<Download> = Vec::new();
    let mut video_missing = false;
    let n: usize = embed.images.len();
    let mut i: usize = 0;
    while i < n && embed.images[i].image.is_some()
        invariant
            n == embed.images@.len(),
            i <= n,
            present_run(embed.images@, 0) == i + present_run(embed.images@, i as int),
            downloads_view(downloads@) =~= Seq::new(
                i as nat,
                |j: int| image_download(did@, record_key@, embed.images@[j].image.unwrap()),
            ),
        decreases n - i,
    {
        let content_id: &str = embed.images[i].image.as_ref().unwrap().content_id.as_str();
        let download = Download {
            url: blob_url(did, content_id),
            authenticated: false,
            path: media_file(record_key, content_id, "png"),
        };
        let ghost before = downloads@;
        downloads.push(download);
        assert(downloads_view(downloads@) =~= downloads_view(before).push(download@));
        i += 1;
    }
    assert(downloads_view(downloads@) =~= image_downloads(did@, record_key@, embed.images@));
    match &embed.video {
        Some(video) => match &video.reference {
            Some(reference) => {
                let kind = MediaType::from(reference.mime_type.as_str());
                let content_id: &str = reference.content_id.as_str();
                let download = Download {
                    url: blob_url(did, content_id),
                    authenticated: true,
                    path: media_file(record_key, content_id, kind.extension()),
                };
                let ghost before = downloads@;
                downloads.push(download);
                assert(downloads_view(downloads@) =~= downloads_view(before) + seq![download@]);
            },
            None => {
                video_missing = true;
            },
        },
        None => {},
    }
    MediaPlan { downloads, video_missing }
}

/// An image without a reference ends the gallery: no image at its place or
/// after it is fetched, and every image before the first such one is.
pub proof fn missing_reference_ends_gallery(
    did: Seq<char>,
    record_key: Seq<char>,
    images: Seq<RecordEmbedMedia>,
    i: int,
)
    requires
        0 <= i < images.len(),
        images[i].image is None,
        forall|j: int| 0 <= j < i ==> images[j].image is Some,
    ensures
        image_downloads(did, record_key, images).len() == i,
        forall|j: int|
            0 <= j < i ==> image_downloads(did, record_key, images)[j] == image_download(
                did,
                record_key,
                #[trigger] images[j].image.unwrap(),
            ),
{
    present_run_stops(images, 0, i);
}

/// A run of present references that reaches from `from` to `to` and no
/// further has the length `to - from`.
pub proof fn present_run_stops(images: Seq<RecordEmbedMedia>, from: int, to: int)
    requires
        0 <= from <= to <= images.len(),
        forall|j: int| from <= j < to ==> images[j].image is Some,
        to == images.len() || images[to].image is None,
    ensures
        present_run(images, from) == to - from,
    decreases to - from,
{
    if from < to {
        present_run_stops(images, from + 1, to);
    }
}

/// A gallery in which every image has a reference is fetched whole.
pub proof fn complete_gallery_is_fetched(
    did: Seq<char>,
    record_key: Seq<char>,
    images: Seq<RecordEmbedMedia>,
)
    requires
        forall|j: int| 0 <= j < images.len() ==> images[j].image is Some,
    ensures
        image_downloads(did, record_key, images).len() == images.len(),
{
    present_run_stops(images, 0, images.len() as int);
}

} // verus!
