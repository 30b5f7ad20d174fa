use bsky_archiver::reference::{extract_post_reference, PostReference};

fn reference(handle: &str, record_key: &str) -> Option<PostReference> {
    Some(PostReference { handle: handle.to_string(), record_key: record_key.to_string() })
}

#[test]
fn extracts_handle_and_record_key() {
    let found = extract_post_reference("https://bsky.app/profile/alice.bsky.social/post/3kabc123");
    assert_eq!(found, reference("alice.bsky.social", "3kabc123"));
}

#[test]
fn address_without_reference_names_no_post() {
    assert_eq!(extract_post_reference(""), None);
    assert_eq!(extract_post_reference("https://example.com/"), None);
    assert_eq!(extract_post_reference("https://bsky.app/profile/alice.bsky.social"), None);
    assert_eq!(extract_post_reference("https://bsky.app/profile/alice/posts/3k"), None);
}

#[test]
fn empty_handle_or_record_key_is_no_reference() {
    assert_eq!(extract_post_reference("profile//post/3kabc123"), None);
    assert_eq!(extract_post_reference("profile/alice/post/"), None);
    assert_eq!(extract_post_reference("profile/alice/post/?x"), None);
}

#[test]
fn handle_ends_only_at_the_marker() {
    assert_eq!(extract_post_reference("profile/al!ce/post/3k"), None);
    assert_eq!(extract_post_reference("profile/alice:1/post/3k"), None);
    assert_eq!(extract_post_reference("profile/alice/x/post/3k"), None);
}

#[test]
fn record_key_is_the_longest_run() {
    let found = extract_post_reference("https://bsky.app/profile/alice/post/3k~a:b.c_d-e?ref=1");
    assert_eq!(found, reference("alice", "3k~a:b.c_d-e"));
    let found = extract_post_reference("profile/a-b_c.D9/post/Z/rest");
    assert_eq!(found, reference("a-b_c.D9", "Z"));
}

#[test]
fn leftmost_reference_counts() {
    let found = extract_post_reference("profile/a/post/1 profile/b/post/2");
    assert_eq!(found, reference("a", "1"));
    let found = extract_post_reference("profile/a/pos/profile/bob/post/xyz");
    assert_eq!(found, reference("bob", "xyz"));
    let found = extract_post_reference("profile/profile/alice/post/7");
    assert_eq!(found, reference("alice", "7"));
    let found = extract_post_reference("xprofile/profile/post/7");
    assert_eq!(found, reference("profile", "7"));
}

#[test]
fn positions_count_characters_not_bytes() {
    let found = extract_post_reference("h\u{e9}\u{4e16}://profile/alice/post/3k\u{e9}");
    assert_eq!(found, reference("alice", "3k"));
}

#[test]
fn addresses_that_differ_in_a_segment_give_different_references() {
    let a = extract_post_reference("https://bsky.app/profile/alice/post/3k1");
    let b = extract_post_reference("https://bsky.app/profile/alice/post/3k2");
    let c = extract_post_reference("https://bsky.app/profile/alicf/post/3k1");
    assert!(a.is_some() && b.is_some() && c.is_some());
    assert_ne!(a, b);
    assert_ne!(a, c);
    assert_ne!(b, c);
}
