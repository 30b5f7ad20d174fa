use bsky_archiver::errors::Errors;
use bsky_archiver::layout::{
    blob_url, media_file, mirror_url, post_directory, raw_file, resolve_url, root_directory,
    session_url, thread_url,
};
use bsky_archiver::media::MediaType;
use bsky_archiver::post_information::PostInformation;

#[test]
fn known_content_types_are_classified() {
    assert_eq!(MediaType::from("video/mp4"), MediaType::Mp4);
    assert_eq!(MediaType::from("video/mov"), MediaType::Mov);
    assert_eq!(MediaType::from("video/webm"), MediaType::Webm);
    assert_eq!(MediaType::from("video/mpeg"), MediaType::Mpeg);
}

#[test]
fn other_content_types_are_invalid() {
    assert_eq!(MediaType::from("video/x-custom"), MediaType::Invalid);
    assert_eq!(MediaType::from(""), MediaType::Invalid);
    assert_eq!(MediaType::from("VIDEO/MP4"), MediaType::Invalid);
    assert_eq!(MediaType::from("video/mp4 "), MediaType::Invalid);
    assert_eq!(MediaType::from("image/png"), MediaType::Invalid);
}

#[test]
fn extension_of_each_kind() {
    assert_eq!(MediaType::Mp4.extension(), "mp4");
    assert_eq!(MediaType::Mov.extension(), "mov");
    assert_eq!(MediaType::Webm.extension(), "webm");
    assert_eq!(MediaType::Mpeg.extension(), "mpeg");
    assert_eq!(MediaType::Invalid.extension(), "Invalid media type");
}

#[test]
fn webm_video_is_stored_as_webm() {
    assert_eq!(MediaType::from("video/webm").extension(), "webm");
}

#[test]
fn unknown_video_is_stored_under_the_marker() {
    let extension = MediaType::from("video/x-custom").extension();
    assert_eq!(extension, "Invalid media type");
    assert!(!["mp4", "mov", "webm", "mpeg"].contains(&extension));
}

#[test]
fn addresses_of_the_service() {
    assert_eq!(session_url(), "https://bsky.social/xrpc/com.atproto.server.createSession");
    assert_eq!(
        resolve_url("alice.bsky.social"),
        "https://bsky.social/xrpc/com.atproto.identity.resolveHandle?handle=alice.bsky.social"
    );
    assert_eq!(
        thread_url("did:plc:abc", "3kabc123"),
        "https://bsky.social/xrpc/app.bsky.feed.getPostThread?uri=at://did:plc:abc/app.bsky.feed.post/3kabc123"
    );
    assert_eq!(
        blob_url("did:plc:abc", "bafkrei1"),
        "https://bsky.social/xrpc/com.atproto.sync.getBlob?did=did:plc:abc&cid=bafkrei1"
    );
    assert_eq!(
        mirror_url("https://bsky.app/profile/alice.bsky.social/post/3kabc123"),
        "https://web.archive.org/save/https://bsky.app/profile/alice.bsky.social/post/3kabc123"
    );
}

#[test]
fn places_of_the_archive() {
    assert_eq!(root_directory(), "./posts");
    assert_eq!(post_directory("3kabc123"), "./posts/3kabc123");
    assert_eq!(raw_file("3kabc123"), "./posts/3kabc123/raw.json");
    assert_eq!(media_file("3kabc123", "bafkrei1", "png"), "./posts/3kabc123/bafkrei1.png");
    assert_eq!(
        media_file("3k", "cid", "Invalid media type"),
        "./posts/3k/cid.Invalid media type"
    );
}

#[test]
fn failures_have_messages() {
    assert_eq!(Errors::InputFormat.message(), "Could not find a post in the address");
    assert_eq!(Errors::Transport.message(), "Unable to send request");
    assert_eq!(Errors::Authentication.message(), "Unable to open a session");
    assert_eq!(Errors::Resolution.message(), "Unable to resolve the handle");
    assert_eq!(Errors::Deserialization.message(), "Could not deserialize bytes");
    assert_eq!(Errors::Filesystem.message(), "Unable to create file due to error");
    assert_eq!(Errors::AlreadyArchived.message(), "The post is archived already");
    assert_eq!(Errors::MediaReferenceMissing.message(), "The video has no media reference");
    assert_eq!(Errors::UnexpectedEvent.message(), "Unexpected outcome of an action");
}

#[test]
fn address_without_post_has_its_own_exit_status() {
    assert_eq!(Errors::InputFormat.exit_status(), 100);
    for error in [
        Errors::Transport,
        Errors::Authentication,
        Errors::Resolution,
        Errors::Deserialization,
        Errors::Filesystem,
        Errors::AlreadyArchived,
        Errors::MediaReferenceMissing,
        Errors::UnexpectedEvent,
    ] {
        assert_eq!(error.exit_status(), 1);
    }
}

#[test]
fn new_information_has_no_address() {
    let info = PostInformation::new("alice".to_string(), "secret".to_string());
    assert_eq!(info.username, "alice");
    assert_eq!(info.password, "secret");
    assert_eq!(info.url, "");
}

#[test]
fn default_information_is_empty() {
    let info = PostInformation::default();
    assert_eq!(info.username, "");
    assert_eq!(info.password, "");
    assert_eq!(info.url, "");
}
