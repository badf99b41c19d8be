//! The Deezer web API without the wire: this crate plans the requests and
//! rules on the replies, and leaves the sending to the caller.
//!
//! A [`DeezerClient`] turns what the caller wants (an album by id, the
//! comments of an album, a search) into a [`request::Request`]: an absolute
//! address, the query parameters, and whether "not found" means "absent".
//! The caller carries the request out with an HTTP stack of its choice and
//! reports what came back as a [`request::Reply`]; `resolve_entity`,
//! `resolve_payload` and `resolve_array` in [`request`] turn the reply into
//! the result. Every function here is a function of its arguments alone, and
//! its contract says which.

pub mod client;
pub mod clients;
pub mod decimal;
pub mod error;
pub mod models;
pub mod params;
pub mod path;
pub mod request;
pub mod search;

pub use self::client::DeezerClient;
pub use self::clients::albums::{AlbumClient, AlbumIdentifier, AlbumsClient};
pub use self::error::DeezerError;
pub use self::search::{SearchClient, SearchOrder, SearchQuery, SearchResource, Searchable};
