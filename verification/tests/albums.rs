use deezer::request::OnMissing;
use deezer::{AlbumIdentifier, DeezerClient};

#[test]
fn a_numeric_id_serializes_as_the_bare_number() {
    assert_eq!(AlbumIdentifier::Id(302127).serialize(), "302127");
    assert_eq!(AlbumIdentifier::Id(0).serialize(), "0");
    assert_eq!(AlbumIdentifier::Id(u64::MAX).serialize(), "18446744073709551615");
}

#[test]
fn a_upc_serializes_with_its_prefix() {
    assert_eq!(
        AlbumIdentifier::Upc("724384960650".to_string()).serialize(),
        "upc:724384960650"
    );
    assert_eq!(AlbumIdentifier::Upc(String::new()).serialize(), "upc:");
}

#[test]
fn from_binds_a_numeric_id() {
    assert!(matches!(AlbumIdentifier::from(302127), AlbumIdentifier::Id(302127)));
}

#[test]
fn an_id_and_a_upc_of_the_same_digits_serialize_differently() {
    let id = AlbumIdentifier::Id(724384960650).serialize();
    let upc = AlbumIdentifier::Upc("724384960650".to_string()).serialize();
    assert_ne!(id, upc);
}

#[test]
fn album_by_id_is_looked_up_under_its_number() {
    let request = DeezerClient::new().albums().id(302127).get();
    assert_eq!(request.url, "https://api.deezer.com/album/302127");
    assert!(request.params.is_none());
    assert_eq!(request.on_missing, OnMissing::Absent);
}

#[test]
fn album_by_upc_is_looked_up_under_its_prefixed_code() {
    let request = DeezerClient::new().albums().upc("724384960650").get();
    assert_eq!(request.url, "https://api.deezer.com/album/upc:724384960650");
    assert!(request.params.is_none());
    assert_eq!(request.on_missing, OnMissing::Absent);
}

#[test]
fn album_comments_hang_off_the_bound_identifier() {
    let by_id = DeezerClient::new().albums().id(302127).comments();
    assert_eq!(by_id.url, "https://api.deezer.com/album/302127/comments");
    assert!(by_id.params.is_none());
    assert_eq!(by_id.on_missing, OnMissing::Fail);
    let by_upc = DeezerClient::new().albums().upc("724384960650").comments();
    assert_eq!(by_upc.url, "https://api.deezer.com/album/upc:724384960650/comments");
}

#[test]
fn album_fans_hang_off_the_bound_identifier() {
    let by_id = DeezerClient::new().albums().id(302127).fans();
    assert_eq!(by_id.url, "https://api.deezer.com/album/302127/fans");
    assert!(by_id.params.is_none());
    assert_eq!(by_id.on_missing, OnMissing::Fail);
    let by_upc = DeezerClient::new().albums().upc("724384960650").fans();
    assert_eq!(by_upc.url, "https://api.deezer.com/album/upc:724384960650/fans");
}

#[test]
fn album_tracks_hang_off_the_bound_identifier() {
    let by_id = DeezerClient::new().albums().id(302127).tracks();
    assert_eq!(by_id.url, "https://api.deezer.com/album/302127/tracks");
    assert!(by_id.params.is_none());
    assert_eq!(by_id.on_missing, OnMissing::Fail);
    let by_upc = DeezerClient::new().albums().upc("724384960650").tracks();
    assert_eq!(by_upc.url, "https://api.deezer.com/album/upc:724384960650/tracks");
}

#[test]
fn one_bound_album_plans_the_same_request_each_time() {
    let album = DeezerClient::new().albums().id(302127);
    let first = album.get();
    let second = album.get();
    assert_eq!(first.url, second.url);
    assert_eq!(first.on_missing, second.on_missing);
    assert_eq!(first.params.is_none(), second.params.is_none());
}
