//! The comments of an album.

use crate::decimal::{decimal, u64_to_string};
use crate::models::{Album, CommentAuthor, DeezerConnection};
use crate::path::{connection_path, make_connection_path};
use vstd::prelude::*;

verus! {

impl DeezerConnection<AlbumCommentConnection> for Album {
    open spec fn connection_url(identifier: Seq<char>) -> Seq<char> {
        connection_path("album"@, identifier, "comments"@)
    }

    open spec fn identifier(&self) -> Seq<char> {
        decimal(self.id as nat)
    }

    fn get_connection_url(identifier: &str) -> (url: String) {
        make_connection_path("album", identifier, "comments")
    }

    fn get_url(&self) -> (url: String) {
        let number = u64_to_string(self.id);
        make_connection_path("album", number.as_str(), "comments")
    }
}

/// A comment on an album, an item of the album's `comments` relationship.
#[derive(Debug, Clone)]
pub struct AlbumCommentConnection {
    /// The id.
    pub id: u64,
    /// The text of the comment.
    pub text: String,
    /// When the comment was posted, in seconds since the epoch.
    pub date: u64,
    /// The user who wrote the comment.
    pub author: CommentAuthor,
}

} // verus!
