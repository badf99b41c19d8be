use deezer::client::make_page_params;
use deezer::models::{
    Album, AlbumCommentConnection, AlbumFanConnection, AlbumTrackConnection, Artist, ArtistAlbum,
    Comment, DeezerConnection, DeezerEnumerable, DeezerObject, Editorial, Genre, Playlist, Radio,
    Track, User,
};
use deezer::params::QueryParams;
use deezer::request::{OnMissing, Request};
use deezer::DeezerClient;

fn owned(pairs: &[(&str, &str)]) -> Vec<(String, String)> {
    pairs.iter().map(|(k, v)| (k.to_string(), v.to_string())).collect()
}

fn assert_lookup(request: Request, url: &str) {
    assert_eq!(request.url, url);
    assert!(request.params.is_none());
    assert_eq!(request.on_missing, OnMissing::Absent);
}

fn assert_plain(request: Request, url: &str) {
    assert_eq!(request.url, url);
    assert!(request.params.is_none());
    assert_eq!(request.on_missing, OnMissing::Fail);
}

fn assert_query(request: Request, url: &str, pairs: &[(&str, &str)]) {
    assert_eq!(request.url, url);
    assert_eq!(request.on_missing, OnMissing::Fail);
    let params = request.params.expect("parameters are attached");
    assert_eq!(params.pairs(), &owned(pairs));
}

#[test]
fn every_kind_is_looked_up_under_its_name_and_id() {
    let client = DeezerClient::new();
    assert_lookup(client.album(302127), "https://api.deezer.com/album/302127");
    assert_lookup(client.artist(27), "https://api.deezer.com/artist/27");
    assert_lookup(client.comment(4179157801), "https://api.deezer.com/comment/4179157801");
    assert_lookup(client.editorial(0), "https://api.deezer.com/editorial/0");
    assert_lookup(client.genre(0), "https://api.deezer.com/genre/0");
    assert_lookup(client.playlist(908622995), "https://api.deezer.com/playlist/908622995");
    assert_lookup(client.radio(6), "https://api.deezer.com/radio/6");
    assert_lookup(client.track(3135556), "https://api.deezer.com/track/3135556");
    assert_lookup(client.user(2529), "https://api.deezer.com/user/2529");
}

#[test]
fn lists_are_fetched_under_the_kinds_name() {
    let client = DeezerClient::new();
    assert_plain(client.editorials(), "https://api.deezer.com/editorial");
    assert_plain(client.genres(), "https://api.deezer.com/genre");
    assert_plain(client.radios(), "https://api.deezer.com/radio");
}

#[test]
fn scalars_are_fetched_under_their_fixed_paths() {
    let client = DeezerClient::new();
    assert_plain(client.api_info(), "https://api.deezer.com/infos");
    assert_plain(client.charts(), "https://api.deezer.com/chart");
    assert_plain(client.user_options(), "https://api.deezer.com/options");
}

#[test]
fn api_urls_are_kind_slash_id() {
    assert_eq!(Album::get_api_url(302127), "album/302127");
    assert_eq!(Artist::get_api_url(27), "artist/27");
    assert_eq!(Comment::get_api_url(1), "comment/1");
    assert_eq!(Editorial::get_api_url(0), "editorial/0");
    assert_eq!(Genre::get_api_url(0), "genre/0");
    assert_eq!(Playlist::get_api_url(908622995), "playlist/908622995");
    assert_eq!(Radio::get_api_url(6), "radio/6");
    assert_eq!(Track::get_api_url(3135556), "track/3135556");
    assert_eq!(User::get_api_url(u64::MAX), "user/18446744073709551615");
    assert_eq!(ArtistAlbum::get_api_url(27), "artist/27/albums");
}

#[test]
fn list_urls_are_the_kinds_name() {
    assert_eq!(Editorial::get_all_api_url(), "editorial");
    assert_eq!(Genre::get_all_api_url(), "genre");
    assert_eq!(Radio::get_all_api_url(), "radio");
}

#[test]
fn connection_urls_are_kind_identifier_relation() {
    assert_eq!(
        <Album as DeezerConnection<AlbumCommentConnection>>::get_connection_url("302127"),
        "album/302127/comments"
    );
    assert_eq!(
        <Album as DeezerConnection<AlbumFanConnection>>::get_connection_url("upc:724384960650"),
        "album/upc:724384960650/fans"
    );
    assert_eq!(
        <Album as DeezerConnection<AlbumTrackConnection>>::get_connection_url("302127"),
        "album/302127/tracks"
    );
    assert_eq!(
        <Artist as DeezerConnection<ArtistAlbum>>::get_connection_url("27"),
        "artist/27/albums"
    );
}

#[test]
fn trait_lookups_plan_the_same_requests_as_the_client() {
    assert_lookup(Album::get(302127), "https://api.deezer.com/album/302127");
    assert_lookup(Track::get(3135556), "https://api.deezer.com/track/3135556");
    assert_plain(Genre::get_all(), "https://api.deezer.com/genre");
    assert_plain(Editorial::get_all(), "https://api.deezer.com/editorial");
}

#[test]
fn generic_lookups_and_lists() {
    let client = DeezerClient::new();
    assert_lookup(client.get_entity::<User>(5), "https://api.deezer.com/user/5");
    assert_lookup(
        client.get_entity_from_url("album/upc:1".to_string()),
        "https://api.deezer.com/album/upc:1",
    );
    assert_plain(client.get_all::<Radio>(), "https://api.deezer.com/radio");
    assert_plain(client.get("infos"), "https://api.deezer.com/infos");
    assert_plain(
        client.get_connection::<Artist, ArtistAlbum>("27"),
        "https://api.deezer.com/artist/27/albums",
    );
}

#[test]
fn a_page_without_limit_and_offset_has_neither_parameter() {
    let params = make_page_params(None, None);
    assert!(params.is_empty());
    assert!(!params.contains_key("limit"));
    assert!(!params.contains_key("offset"));
    let request = DeezerClient::new()._get_connection::<Artist, ArtistAlbum>("27", None, None);
    assert_query(request, "https://api.deezer.com/artist/27/albums", &[]);
}

#[test]
fn a_page_with_limit_five_has_exactly_limit_five() {
    let params = make_page_params(Some(5), None);
    assert_eq!(params.pairs(), &owned(&[("limit", "5")]));
    assert!(!params.contains_key("offset"));
    let request = DeezerClient::new()._get_connection::<Artist, ArtistAlbum>("27", Some(5), None);
    assert_query(request, "https://api.deezer.com/artist/27/albums", &[("limit", "5")]);
}

#[test]
fn a_page_with_offset_only_has_exactly_the_offset() {
    let params = make_page_params(None, Some(40));
    assert_eq!(params.pairs(), &owned(&[("offset", "40")]));
    assert!(!params.contains_key("limit"));
}

#[test]
fn a_page_with_both_has_limit_then_offset() {
    let request = DeezerClient::new()._get_connection::<Album, AlbumTrackConnection>(
        "302127",
        Some(25),
        Some(50),
    );
    assert_query(
        request,
        "https://api.deezer.com/album/302127/tracks",
        &[("limit", "25"), ("offset", "50")],
    );
}

#[test]
fn page_numbers_are_written_in_full() {
    let params = make_page_params(Some(0), Some(u32::MAX));
    assert_eq!(params.pairs(), &owned(&[("limit", "0"), ("offset", "4294967295")]));
}

#[test]
fn a_subresource_page_uses_the_lookup_address() {
    let client = DeezerClient::new();
    assert_query(
        client.get_subresource::<ArtistAlbum>(27, Some(5), None),
        "https://api.deezer.com/artist/27/albums",
        &[("limit", "5")],
    );
    assert_query(
        client.get_subresource::<ArtistAlbum>(27, None, None),
        "https://api.deezer.com/artist/27/albums",
        &[],
    );
}

#[test]
fn parameters_are_attached_as_given() {
    let client = DeezerClient::new();
    let mut params = QueryParams::new();
    params.insert("q".to_string(), "eminem".to_string());
    assert_query(
        client.get_array_params("search/album", params),
        "https://api.deezer.com/search/album",
        &[("q", "eminem")],
    );
    let mut params = QueryParams::new();
    params.insert("limit".to_string(), "1".to_string());
    assert_query(
        client.get_with_params("chart", params),
        "https://api.deezer.com/chart",
        &[("limit", "1")],
    );
    let mut params = QueryParams::new();
    params.insert("a".to_string(), "b".to_string());
    assert_query(
        client.get_with_optional_params("x", Some(params)),
        "https://api.deezer.com/x",
        &[("a", "b")],
    );
    assert_plain(client.get_with_optional_params("x", None), "https://api.deezer.com/x");
}

#[test]
fn the_same_lookup_is_planned_the_same_way_twice() {
    let client = DeezerClient::new();
    let first = client.album(302127);
    let second = client.clone().album(302127);
    assert_eq!(first.url, second.url);
    assert_eq!(first.on_missing, second.on_missing);
    assert!(first.params.is_none() && second.params.is_none());
}

#[test]
fn a_default_client_plans_like_a_new_one() {
    let a = DeezerClient::default().artist(27);
    let b = DeezerClient::new().artist(27);
    assert_eq!(a.url, b.url);
}
