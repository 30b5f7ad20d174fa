use bsky_archiver::plan::{plan_media, Download};
use bsky_archiver::thread::{MediaReference, RecordEmbed, RecordEmbedMedia, RecordEmbedVideo};

fn reference(content_id: &str, mime_type: &str) -> MediaReference {
    MediaReference {
        content_id: content_id.to_string(),
        mime_type: mime_type.to_string(),
        size_bytes: 1024,
    }
}

fn image(content_id: Option<&str>) -> RecordEmbedMedia {
    RecordEmbedMedia {
        alt: String::new(),
        image: content_id.map(|c| reference(c, "image/jpeg")),
    }
}

fn image_download(content_id: &str) -> Download {
    Download {
        url: format!(
            "https://bsky.social/xrpc/com.atproto.sync.getBlob?did=did:plc:abc&cid={}",
            content_id
        ),
        authenticated: false,
        path: format!("./posts/3kabc123/{}.png", content_id),
    }
}

#[test]
fn image_without_reference_ends_the_gallery() {
    let embed = RecordEmbed {
        images: vec![image(Some("first")), image(None), image(Some("third"))],
        video: None,
    };
    let plan = plan_media("did:plc:abc", "3kabc123", &embed);
    assert_eq!(plan.downloads, vec![image_download("first")]);
    assert!(!plan.video_missing);
}

#[test]
fn first_image_without_reference_leaves_nothing() {
    let embed = RecordEmbed { images: vec![image(None), image(Some("second"))], video: None };
    let plan = plan_media("did:plc:abc", "3kabc123", &embed);
    assert!(plan.downloads.is_empty());
    assert!(!plan.video_missing);
}

#[test]
fn complete_gallery_is_planned_in_order() {
    let embed = RecordEmbed {
        images: vec![image(Some("a")), image(Some("b")), image(Some("c"))],
        video: None,
    };
    let plan = plan_media("did:plc:abc", "3kabc123", &embed);
    assert_eq!(
        plan.downloads,
        vec![image_download("a"), image_download("b"), image_download("c")]
    );
}

#[test]
fn empty_embed_plans_nothing() {
    let embed = RecordEmbed { images: vec![], video: None };
    let plan = plan_media("did:plc:abc", "3kabc123", &embed);
    assert!(plan.downloads.is_empty());
    assert!(!plan.video_missing);
}

#[test]
fn images_are_png_whatever_their_content_type() {
    let embed = RecordEmbed {
        images: vec![RecordEmbedMedia {
            alt: "a cat".to_string(),
            image: Some(reference("cat", "image/webp")),
        }],
        video: None,
    };
    let plan = plan_media("did:plc:abc", "3kabc123", &embed);
    assert_eq!(plan.downloads[0].path, "./posts/3kabc123/cat.png");
}

#[test]
fn video_is_fetched_with_the_credential() {
    let embed = RecordEmbed {
        images: vec![],
        video: Some(RecordEmbedVideo { reference: Some(reference("clip", "video/webm")) }),
    };
    let plan = plan_media("did:plc:abc", "3kabc123", &embed);
    assert_eq!(
        plan.downloads,
        vec![Download {
            url: "https://bsky.social/xrpc/com.atproto.sync.getBlob?did=did:plc:abc&cid=clip"
                .to_string(),
            authenticated: true,
            path: "./posts/3kabc123/clip.webm".to_string(),
        }]
    );
    assert!(!plan.video_missing);
}

#[test]
fn video_of_each_known_kind() {
    for (mime, extension) in
        [("video/mp4", "mp4"), ("video/mov", "mov"), ("video/webm", "webm"), ("video/mpeg", "mpeg")]
    {
        let embed = RecordEmbed {
            images: vec![],
            video: Some(RecordEmbedVideo { reference: Some(reference("clip", mime)) }),
        };
        let plan = plan_media("did:plc:abc", "3k", &embed);
        assert_eq!(plan.downloads[0].path, format!("./posts/3k/clip.{}", extension));
    }
}

#[test]
fn unknown_video_keeps_the_marker_in_its_name() {
    let embed = RecordEmbed {
        images: vec![],
        video: Some(RecordEmbedVideo { reference: Some(reference("clip", "video/x-custom")) }),
    };
    let plan = plan_media("did:plc:abc", "3kabc123", &embed);
    assert_eq!(plan.downloads[0].path, "./posts/3kabc123/clip.Invalid media type");
}

#[test]
fn video_without_reference_is_reported() {
    let embed = RecordEmbed {
        images: vec![image(Some("a"))],
        video: Some(RecordEmbedVideo { reference: None }),
    };
    let plan = plan_media("did:plc:abc", "3kabc123", &embed);
    assert_eq!(plan.downloads, vec![image_download("a")]);
    assert!(plan.video_missing);
}

#[test]
fn images_come_before_the_video() {
    let embed = RecordEmbed {
        images: vec![image(Some("a")), image(None)],
        video: Some(RecordEmbedVideo { reference: Some(reference("clip", "video/mp4")) }),
    };
    let plan = plan_media("did:plc:abc", "3kabc123", &embed);
    assert_eq!(plan.downloads.len(), 2);
    assert_eq!(plan.downloads[0], image_download("a"));
    assert_eq!(plan.downloads[1].path, "./posts/3kabc123/clip.mp4");
    assert!(plan.downloads[1].authenticated);
}
