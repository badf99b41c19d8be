//! Albums: by id, by UPC, their relationships, and album search.

use crate::client::DeezerClient;
use crate::decimal::{
    decimal, is_digit, lemma_decimal_digits, lemma_decimal_injective, u64_to_string,
};
use crate::models::album::comments::AlbumCommentConnection;
use crate::models::album::fans::AlbumFanConnection;
use crate::models::album::tracks::AlbumTrackConnection;
use crate::models::album::Album;
use crate::models::search::albums::SearchedAlbum;
use crate::models::DeezerConnection;
use crate::path::{entity_path, make_entity_path};
use crate::request::{lookup_request, plain_request, Request};
use crate::search::{SearchClient, SearchOrder, SearchResource};
use vstd::prelude::*;

verus! {

/// What names an album: its numeric id, or its UPC.
#[derive(Debug, Clone)]
pub enum AlbumIdentifier {
    Id(u64),
    Upc(String),
}

impl AlbumIdentifier {
    /// The path segment that names the album: the bare decimal number for an
    /// id, `upc:` and the code for a UPC.
    pub open spec fn segment(self) -> Seq<char> {
        match self {
            AlbumIdentifier::Id(id) => decimal(id as nat),
            AlbumIdentifier::Upc(upc) => "upc:"@ + upc@,
        }
    }

    /// Writes the path segment that names the album.
    pub fn serialize(&self) -> (segment: String)
        ensures
            segment@ == self.segment(),
    {
        match self {
            AlbumIdentifier::Id(id) => u64_to_string(*id),
            AlbumIdentifier::Upc(upc) => {
                let mut segment = String::from_str("upc:");
                segment.append(upc.as_str());
                segment
            },
        }
    }

    /// The identifier that names an album by its numeric id.
    pub fn from(id: u64) -> (identifier: AlbumIdentifier)
        ensures
            identifier == AlbumIdentifier::Id(id),
    {
        AlbumIdentifier::Id(id)
    }
}

/// The segment of a numeric id is the bare decimal number: digits only.
pub proof fn lemma_id_segment(id: u64)
    ensures
        AlbumIdentifier::Id(id).segment() == decimal(id as nat),
        forall|i: int|
            0 <= i < AlbumIdentifier::Id(id).segment().len() ==> is_digit(
                #[trigger] AlbumIdentifier::Id(id).segment()[i],
            ),
{
    lemma_decimal_digits(id as nat);
}

/// The segment of a UPC is the prefix `upc:` and the code, unchanged.
pub proof fn lemma_upc_segment(upc: String)
    ensures
        AlbumIdentifier::Upc(upc).segment().len() == 4 + upc@.len(),
        AlbumIdentifier::Upc(upc).segment().subrange(0, 4) == "upc:"@,
        AlbumIdentifier::Upc(upc).segment().subrange(4, 4 + upc@.len() as int) == upc@,
        AlbumIdentifier::Upc(upc).segment()[0] == 'u',
{
    reveal_strlit("upc:");
    let segment = AlbumIdentifier::Upc(upc).segment();
    assert(segment.subrange(0, 4) =~= "upc:"@);
    assert(segment.subrange(4, 4 + upc@.len() as int) =~= upc@);
}

/// The segment tells what was bound: two identifiers with the same segment
/// are both ids, and the same number, or both UPCs, and the same code.
pub proof fn lemma_segment_injective(a: AlbumIdentifier, b: AlbumIdentifier)
    requires
        a.segment() == b.segment(),
    ensures
        match (a, b) {
            (AlbumIdentifier::Id(x), AlbumIdentifier::Id(y)) => x == y,
            (AlbumIdentifier::Upc(s), AlbumIdentifier::Upc(t)) => s@ == t@,
            _ => false,
        },
{
    match (a, b) {
        (AlbumIdentifier::Id(x), AlbumIdentifier::Id(y)) => {
            lemma_decimal_injective(x as nat, y as nat);
        },
        (AlbumIdentifier::Upc(s), AlbumIdentifier::Upc(t)) => {
            lemma_upc_segment(s);
            lemma_upc_segment(t);
        },
        (AlbumIdentifier::Id(x), AlbumIdentifier::Upc(t)) => {
            lemma_id_segment(x);
            lemma_upc_segment(t);
            assert(is_digit(a.segment()[0]));
        },
        (AlbumIdentifier::Upc(s), AlbumIdentifier::Id(y)) => {
            lemma_id_segment(y);
            lemma_upc_segment(s);
            assert(is_digit(b.segment()[0]));
        },
    }
}

/// The part of the client that deals with albums.
pub struct AlbumsClient {
    client: DeezerClient,
}

impl AlbumsClient {
    pub fn new(client: DeezerClient) -> (albums: AlbumsClient) {
        AlbumsClient { client }
    }

    /// Binds the album with the given id.
    pub fn id(self, id: u64) -> (album: AlbumClient)
        ensures
            album.identifier() == AlbumIdentifier::Id(id),
    {
        AlbumClient { identifier: AlbumIdentifier::from(id), client: self.client }
    }

    /// Binds the album with the given UPC.
    pub fn upc(self, upc: &str) -> (album: AlbumClient)
        ensures
            album.identifier() matches AlbumIdentifier::Upc(code) && code@ == upc@,
    {
        AlbumClient { identifier: AlbumIdentifier::Upc(String::from_str(upc)), client: self.client }
    }

    /// Begins a search for albums: not strict, ordered by ranking.
    pub fn search(self, query: &str) -> (search: SearchClient<SearchedAlbum>)
        ensures
            search.query.query@ == query@,
            !search.query.strict,
            search.query.order == SearchOrder::Ranking,
            search.resource == SearchResource::Albums,
    {
        SearchClient::new(self.client, query)
    }
}

/// One album, named by an identifier. Binding performs no request; each
/// accessor plans one.
pub struct AlbumClient {
    client: DeezerClient,
    identifier: AlbumIdentifier,
}

impl AlbumClient {
    /// What names the album.
    pub closed spec fn identifier(self) -> AlbumIdentifier {
        self.identifier
    }

    /// Plans the lookup of the album.
    pub fn get(&self) -> (request: Request)
        ensures
            request@ == lookup_request(entity_path("album"@, self.identifier().segment())),
    {
        let segment = self.identifier.serialize();
        let url = make_entity_path("album", segment.as_str());
        self.client.get_entity_from_url(url)
    }

    /// Plans the fetch of the album's comments.
    pub fn comments(&self) -> (request: Request)
        ensures
            request@ == plain_request(
                <Album as DeezerConnection<AlbumCommentConnection>>::connection_url(
                    self.identifier().segment(),
                ),
            ),
    {
        let segment = self.identifier.serialize();
        self.client.get_connection::<Album, AlbumCommentConnection>(segment.as_str())
    }

    /// Plans the fetch of the album's fans.
    pub fn fans(&self) -> (request: Request)
        ensures
            request@ == plain_request(
                <Album as DeezerConnection<AlbumFanConnection>>::connection_url(
                    self.identifier().segment(),
                ),
            ),
    {
        let segment = self.identifier.serialize();
        self.client.get_connection::<Album, AlbumFanConnection>(segment.as_str())
    }

    /// Plans the fetch of the album's tracks.
    pub fn tracks(&self) -> (request: Request)
        ensures
            request@ == plain_request(
                <Album as DeezerConnection<AlbumTrackConnection>>::connection_url(
                    self.identifier().segment(),
                ),
            ),
    {
        let segment = self.identifier.serialize();
        self.client.get_connection::<Album, AlbumTrackConnection>(segment.as_str())
    }
}

} // verus!
