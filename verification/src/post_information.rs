//! What the front end collects before an archive run starts.

use vstd::prelude::*;
use vstd::string::*;

verus! {

/// The account's identifier and secret, and the address of the post to archive.
#[derive(Debug, Clone)]
pub struct PostInformation {
    pub username: String,
    pub password: String,
    pub url: String,
}

impl PostInformation {
    /// Holds the credentials, with no address entered yet.
    pub fn new(username: String, password: String) -> (info: Self)
        ensures
            info.username == username,
            info.password == password,
            info.url@ == Seq::<char>::empty(),
    {
        Self { username, password, url: String::new() }
    }
}

impl Default for PostInformation {
    fn default() -> (info: Self)
        ensures
            info.username@ == Seq::<char>::empty(),
            info.password@ == Seq::<char>::empty(),
            info.url@ == Seq::<char>::empty(),
    {
        Self { username: String::new(), password: String::new(), url: String::new() }
    }
}

/// One archive request: the collected input, and whether the root directory
/// of the archive was found when the request was made.
#[derive(Debug, Clone)]
pub struct Post {
    pub info: PostInformation,
    pub posts_dir_exists: bool,
}

} // verus!
