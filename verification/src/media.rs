//! The kinds of video that a post can embed, and how a file of each is named.

use vstd::prelude::*;
use vstd::string::*;

verus! {

/// The kind of a video, as far as its declared content type tells.
#[derive(Debug, Clone, Copy, PartialEq, Eq, Structural)]
pub enum MediaType {
    Mp4,
    Mov,
    Webm,
    Mpeg,
    /// A content type that is none of the above.
    Invalid,
}

impl MediaType {
    /// The kind that the content type `mime` declares.
    pub open spec fn of_mime(mime: Seq<char>) -> MediaType {
        if mime == "video/mp4"@ {
            MediaType::Mp4
        } else if mime == "video/mov"@ {
            MediaType::Mov
        } else if mime == "video/webm"@ {
            MediaType::Webm
        } else if mime == "video/mpeg"@ {
            MediaType::Mpeg
        } else {
            MediaType::Invalid
        }
    }

    /// The extension of a file of this kind. An unknown kind has a marker
    /// that no player takes for a video.
    pub open spec fn spec_extension(self) -> Seq<char> {
        match self {
            MediaType::Mp4 => "mp4"@,
            MediaType::Mov => "mov"@,
            MediaType::Webm => "webm"@,
            MediaType::Mpeg => "mpeg"@,
            MediaType::Invalid => "Invalid media type"@,
        }
    }

    /// Classifies a declared content type. Whatever is not one of the four
    /// known types is `Invalid`.
    pub fn from(value: &str) -> (kind: MediaType)
        ensures
            kind == Self::of_mime(value@),
    {
        let mime = String::from_str(value);
        if mime == String::from_str("video/mp4") {
            MediaType::Mp4
        } else if mime == String::from_str("video/mov") {
            MediaType::Mov
        } else if mime == String::from_str("video/webm") {
            MediaType::Webm
        } else if mime == String::from_str("video/mpeg") {
            MediaType::Mpeg
        } else {
            MediaType::Invalid
        }
    }

    /// The extension under which a video of this kind is stored.
    pub fn extension(self) -> (text: &'static str)
        ensures
            text@ == self.spec_extension(),
    {
        match self {
            MediaType::Mp4 => "mp4",
            MediaType::Mov => "mov",
            MediaType::Webm => "webm",
            MediaType::Mpeg => "mpeg",
            MediaType::Invalid => "Invalid media type",
        }
    }
}

/// Each of the four known content types has a kind of its own, and the
/// extension of that kind is the part of the content type after `video/`.
pub proof fn extension_follows_content_type()
    ensures
        MediaType::of_mime("video/mp4"@) == MediaType::Mp4,
        MediaType::of_mime("video/mov"@) == MediaType::Mov,
        MediaType::of_mime("video/webm"@) == MediaType::Webm,
        MediaType::of_mime("video/mpeg"@) == MediaType::Mpeg,
        MediaType::of_mime("video/mp4"@).spec_extension() == "mp4"@,
        MediaType::of_mime("video/mov"@).spec_extension() == "mov"@,
        MediaType::of_mime("video/webm"@).spec_extension() == "webm"@,
        MediaType::of_mime("video/mpeg"@).spec_extension() == "mpeg"@,
{
    reveal_strlit("video/mp4");
    reveal_strlit("video/mov");
    reveal_strlit("video/webm");
    reveal_strlit("video/mpeg");
    assert("video/mov"@[6] == 'm');
    assert("video/mp4"@[7] == 'p');
    assert("video/webm"@[6] == 'w');
    assert("video/mpeg"@[8] == 'e');
}

/// A content type that is none of the four known ones gets the marker, and
/// the marker is the extension of no known kind.
pub proof fn unknown_content_type_is_marked(mime: Seq<char>)
    requires
        mime != "video/mp4"@,
        mime != "video/mov"@,
        mime != "video/webm"@,
        mime != "video/mpeg"@,
    ensures
        MediaType::of_mime(mime) == MediaType::Invalid,
        MediaType::of_mime(mime).spec_extension() == "Invalid media type"@,
        MediaType::of_mime(mime).spec_extension() != "mp4"@,
        MediaType::of_mime(mime).spec_extension() != "mov"@,
        MediaType::of_mime(mime).spec_extension() != "webm"@,
        MediaType::of_mime(mime).spec_extension() != "mpeg"@,
{
    reveal_strlit("mp4");
    reveal_strlit("mov");
    reveal_strlit("webm");
    reveal_strlit("mpeg");
    reveal_strlit("Invalid media type");
    assert("Invalid media type"@.len() == 18);
    assert("mp4"@.len() == 3);
    assert("mov"@.len() == 3);
    assert("webm"@.len() == 4);
    assert("mpeg"@.len() == 4);
}

} // verus!
