//! What the service answers, as far as an archive run reads it: the session,
//! the actor, and the thread of a post with the media that its record embeds.
//!
//! A record and the view of a post each carry an embed of their own shape.
//! Only the record's embed says where the media lie; the view's is kept for
//! what it tells a reader and is never followed.

use vstd::prelude::*;

verus! {

/// The credential of a session, sent as a bearer token with later requests.
#[derive(Debug, Clone)]
pub struct SessionCredential {
    pub access_token: String,
}

/// The stable identifier of an actor.
#[derive(Debug, Clone)]
pub struct ActorIdentifier {
    pub did: String,
}

/// The pointer to a stored content. It says where the content lies only
/// together with the actor that owns it.
#[derive(Debug, Clone)]
pub struct MediaReference {
    pub content_id: String,
    pub mime_type: String,
    pub size_bytes: u64,
}

/// One image of a record's gallery. Its reference may be absent.
#[derive(Debug, Clone)]
pub struct RecordEmbedMedia {
    pub alt: String,
    pub image: Option<MediaReference>,
}

/// The video of a record. Its reference may be absent.
#[derive(Debug, Clone)]
pub struct RecordEmbedVideo {
    pub reference: Option<MediaReference>,
}

/// The media that a record embeds: any number of images, in their order, and
/// at most one video beside them.
#[derive(Debug, Clone)]
pub struct RecordEmbed {
    pub images: Vec<RecordEmbedMedia>,
    pub video: Option<RecordEmbedVideo>,
}

/// What the author wrote.
#[derive(Debug, Clone)]
pub struct Record {
    pub created_at: String,
    pub text: String,
    pub langs: Vec<String>,
    pub embed: Option<RecordEmbed>,
}

/// The embed of a post's view: how the service shows the media.
#[derive(Debug, Clone)]
pub enum Embed {
    /// The addresses of the images as the service serves them.
    Gallery { fullsize: Vec<String> },
    /// The address of the playlist of the video.
    Video { playlist: String },
    Neither,
}

/// A post as the service shows it.
#[derive(Debug, Clone)]
pub struct PostView {
    pub record: Option<Record>,
    pub embed: Option<Embed>,
    pub reply_count: u64,
    pub repost_count: u64,
    pub like_count: u64,
    pub quote_count: u64,
    pub indexed_at: String,
    pub labels: Vec<String>,
}

/// The thread that the service answers for a post. The post may be absent.
#[derive(Debug, Clone)]
pub struct ThreadView {
    pub post: Option<PostView>,
}

impl ThreadView {
    /// The record of the thread's post, where the thread has a post and the
    /// post a record.
    pub open spec fn spec_record(self) -> Option<Record> {
        match self.post {
            Some(post) => post.record,
            None => None,
        }
    }

    /// The record of the thread's post, if there is one.
    pub fn record(&self) -> (record: Option<&Record>)
        ensures
            match self.spec_record() {
                Some(r) => record == Some(&r),
                None => record is None,
            },
    {
        match &self.post {
            Some(post) => post.record.as_ref(),
            None => None,
        }
    }
}

} // verus!
