//! The addresses that a run requests and the places where it stores what it
//! got: each as a text, stated over the texts it is made of.

use vstd::prelude::*;
use vstd::string::*;

verus! {

/// The address at which a session is opened.
pub open spec fn session_address() -> Seq<char> {
    "https://bsky.social/xrpc/com.atproto.server.createSession"@
}

/// The address that resolves `handle` to an actor.
pub open spec fn resolve_address(handle: Seq<char>) -> Seq<char> {
    "https://bsky.social/xrpc/com.atproto.identity.resolveHandle?handle="@ + handle
}

/// The address of the thread of the post `record_key` of the actor `did`.
pub open spec fn thread_address(did: Seq<char>, record_key: Seq<char>) -> Seq<char> {
    "https://bsky.social/xrpc/app.bsky.feed.getPostThread?uri=at://"@ + did
        + "/app.bsky.feed.post/"@ + record_key
}

/// The address of the content `content_id` of the actor `did`.
pub open spec fn blob_address(did: Seq<char>, content_id: Seq<char>) -> Seq<char> {
    "https://bsky.social/xrpc/com.atproto.sync.getBlob?did="@ + did + "&cid="@ + content_id
}

/// The address that asks the public web archive to keep a copy of `url`.
pub open spec fn mirror_address(url: Seq<char>) -> Seq<char> {
    "https://web.archive.org/save/"@ + url
}

/// The directory under which every post is stored.
pub open spec fn root_dir() -> Seq<char> {
    "./posts"@
}

/// The directory of the post `record_key`.
pub open spec fn post_dir(record_key: Seq<char>) -> Seq<char> {
    "./posts/"@ + record_key
}

/// The file that holds the thread of the post as it was received.
pub open spec fn raw_path(record_key: Seq<char>) -> Seq<char> {
    post_dir(record_key) + "/raw.json"@
}

/// The file that holds the content `content_id` of the post.
pub open spec fn media_path(
    record_key: Seq<char>,
    content_id: Seq<char>,
    extension: Seq<char>,
) -> Seq<char> {
    post_dir(record_key) + "/"@ + content_id + "."@ + extension
}

/// The extension under which every image of a gallery is stored.
pub open spec fn image_extension() -> Seq<char> {
    "png"@
}

pub fn session_url() -> (text: String)
    ensures
        text@ == session_address(),
{
    String::from_str("https://bsky.social/xrpc/com.atproto.server.createSession")
}

pub fn resolve_url(handle: &str) -> (text: String)
    ensures
        text@ == resolve_address(handle@),
{
    let mut text = String::from_str(
        "https://bsky.social/xrpc/com.atproto.identity.resolveHandle?handle=",
    );
    text.append(handle);
    text
}

pub fn thread_url(did: &str, record_key: &str) -> (text: String)
    ensures
        text@ == thread_address(did@, record_key@),
{
    let mut text = String::from_str(
        "https://bsky.social/xrpc/app.bsky.feed.getPostThread?uri=at://",
    );
    text.append(did);
    text.append("/app.bsky.feed.post/");
    text.append(record_key);
    text
}

pub fn blob_url(did: &str, content_id: &str) -> (text: String)
    ensures
        text@ == blob_address(did@, content_id@),
{
    let mut text = String::from_str("https://bsky.social/xrpc/com.atproto.sync.getBlob?did=");
    text.append(did);
    text.append("&cid=");
    text.append(content_id);
    text
}

pub fn mirror_url(url: &str) -> (text: String)
    ensures
        text@ == mirror_address(url@),
{
    let mut text = String::from_str("https://web.archive.org/save/");
    text.append(url);
    text
}

pub fn root_directory() -> (text: String)
    ensures
        text@ == root_dir(),
{
    String::from_str("./posts")
}

pub fn post_directory(record_key: &str) -> (text: String)
    ensures
        text@ == post_dir(record_key@),
{
    let mut text = String::from_str("./posts/");
    text.append(record_key);
    text
}

pub fn raw_file(record_key: &str) -> (text: String)
    ensures
        text@ == raw_path(record_key@),
{
    let mut text = post_directory(record_key);
    text.append("/raw.json");
    text
}

pub fn media_file(record_key: &str, content_id: &str, extension: &str) -> (text: String)
    ensures
        text@ == media_path(record_key@, content_id@, extension@),
{
    let mut text = post_directory(record_key);
    text.append("/");
    text.append(content_id);
    text.append(".");
    text.append(extension);
    text
}

} // verus!
