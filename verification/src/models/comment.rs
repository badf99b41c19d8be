//! Comments.

use crate::decimal::decimal;
use crate::models::{DeezerObject, User};
use crate::path::{entity_path, make_numbered_path};
use crate::request::{lookup_request, Request};
use vstd::prelude::*;

verus! {

/// A comment, as the comment endpoint reports it.
#[derive(Debug)]
pub struct Comment {
    /// The id.
    pub id: u64,
    /// The text of the comment.
    pub text: String,
    /// When the comment was posted, in seconds since the epoch.
    pub date: u64,
    /// What the comment is attached to.
    pub object: CommentParent,
    /// The user who wrote the comment.
    pub author: CommentAuthor,
}

impl DeezerObject for Comment {
    open spec fn api_url(id: u64) -> Seq<char> {
        entity_path("comment"@, decimal(id as nat))
    }

    fn get_api_url(id: u64) -> (url: String) {
        make_numbered_path("comment", id)
    }
}

/// The author of a comment: a subset of `User`.
#[derive(Debug, Clone)]
pub struct CommentAuthor {
    /// The id.
    pub id: u64,
    /// The name.
    pub name: String,
    /// The address of the page on the web site.
    pub link: String,
    /// The address of the picture.
    pub picture: String,
    /// The address of the picture, small.
    pub picture_small: String,
    /// The address of the picture, medium-sized.
    pub picture_medium: String,
    /// The address of the picture, big.
    pub picture_big: String,
    /// The address of the picture, extra large.
    pub picture_xl: String,
}

impl CommentAuthor {
    /// Plans the lookup of the user that this record stands for: the `User`
    /// with the same id.
    pub fn get_full(&self) -> (request: Request)
        ensures
            request@ == lookup_request(User::api_url(self.id)),
    {
        User::get(self.id)
    }
}

/// What a comment is attached to: the id of an artist, album or playlist, and which of these it is.
#[derive(Debug)]
pub struct CommentParent {
    /// The id of what the comment is attached to.
    pub id: String,
    /// Which kind it is: `artist`, `album` or `playlist`.
    pub object_type: String,
}

} // verus!
