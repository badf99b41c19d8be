use deezer::error::DeezerError;
use deezer::models::DeezerArray;
use deezer::params::QueryParams;
use deezer::request::{
    make_absolute_url, resolve_array, resolve_entity, resolve_payload, Disposition, OnMissing,
    Reply, Request, BASE_URL, NOT_FOUND,
};

#[test]
fn the_origin_is_the_public_api() {
    assert_eq!(BASE_URL, "https://api.deezer.com");
    assert_eq!(NOT_FOUND, 404);
}

#[test]
fn absolute_url_joins_origin_and_path_with_one_slash() {
    assert_eq!(make_absolute_url("album/302127"), "https://api.deezer.com/album/302127");
    assert_eq!(make_absolute_url("infos"), "https://api.deezer.com/infos");
    assert_eq!(make_absolute_url(""), "https://api.deezer.com/");
}

#[test]
fn request_new_keeps_parameters_and_policy() {
    let mut params = QueryParams::new();
    params.insert("limit".to_string(), "5".to_string());
    let request = Request::new("artist/27/albums", Some(params), OnMissing::Fail);
    assert_eq!(request.url, "https://api.deezer.com/artist/27/albums");
    assert_eq!(request.on_missing, OnMissing::Fail);
    let kept = request.params.expect("parameters were given");
    assert_eq!(kept.pairs(), &vec![("limit".to_string(), "5".to_string())]);

    let bare = Request::new("genre", None, OnMissing::Absent);
    assert_eq!(bare.url, "https://api.deezer.com/genre");
    assert!(bare.params.is_none());
    assert_eq!(bare.on_missing, OnMissing::Absent);
}

#[test]
fn a_lookup_takes_not_found_for_absence() {
    let request = Request::new("album/0", None, OnMissing::Absent);
    assert_eq!(request.disposition(404), Disposition::Absent);
}

#[test]
fn a_listing_takes_not_found_for_failure() {
    let request = Request::new("album/0/fans", None, OnMissing::Fail);
    assert_eq!(request.disposition(404), Disposition::Fail(DeezerError::Status(404)));
}

#[test]
fn the_success_range_is_two_hundred_to_two_ninety_nine() {
    for policy in [OnMissing::Absent, OnMissing::Fail] {
        let request = Request::new("chart", None, policy);
        assert_eq!(request.disposition(199), Disposition::Fail(DeezerError::Status(199)));
        assert_eq!(request.disposition(200), Disposition::Decode);
        assert_eq!(request.disposition(204), Disposition::Decode);
        assert_eq!(request.disposition(299), Disposition::Decode);
        assert_eq!(request.disposition(300), Disposition::Fail(DeezerError::Status(300)));
        assert_eq!(request.disposition(304), Disposition::Fail(DeezerError::Status(304)));
        assert_eq!(request.disposition(403), Disposition::Fail(DeezerError::Status(403)));
        assert_eq!(request.disposition(500), Disposition::Fail(DeezerError::Status(500)));
        assert_eq!(request.disposition(0), Disposition::Fail(DeezerError::Status(0)));
        assert_eq!(
            request.disposition(u16::MAX),
            Disposition::Fail(DeezerError::Status(u16::MAX))
        );
    }
}

#[test]
fn every_status_has_the_disposition_that_the_rules_give() {
    for status in 0..=u16::MAX {
        let expected_listing = if (200..=299).contains(&status) {
            Disposition::Decode
        } else {
            Disposition::Fail(DeezerError::Status(status))
        };
        let expected_lookup = if status == 404 { Disposition::Absent } else { expected_listing };
        let listing = Request::new("x", None, OnMissing::Fail);
        let lookup = Request::new("x", None, OnMissing::Absent);
        assert_eq!(listing.disposition(status), expected_listing);
        assert_eq!(lookup.disposition(status), expected_lookup);
    }
}

#[test]
fn resolve_entity_yields_none_for_not_found() {
    let absent: Result<Option<u64>, DeezerError> =
        resolve_entity(Reply::Answered { status: 404, body: None });
    assert_eq!(absent, Ok(None));
    let with_body: Result<Option<u64>, DeezerError> =
        resolve_entity(Reply::Answered { status: 404, body: Some(7) });
    assert_eq!(with_body, Ok(None));
}

#[test]
fn resolve_entity_yields_the_value_for_success() {
    let found = resolve_entity(Reply::Answered { status: 200, body: Some(302127u64) });
    assert_eq!(found, Ok(Some(302127)));
}

#[test]
fn resolve_entity_fails_by_kind() {
    let unreachable: Result<Option<u64>, DeezerError> = resolve_entity(Reply::Unreachable);
    assert_eq!(unreachable, Err(DeezerError::Transport));
    let status: Result<Option<u64>, DeezerError> =
        resolve_entity(Reply::Answered { status: 500, body: None });
    assert_eq!(status, Err(DeezerError::Status(500)));
    let redirect: Result<Option<u64>, DeezerError> =
        resolve_entity(Reply::Answered { status: 302, body: Some(1) });
    assert_eq!(redirect, Err(DeezerError::Status(302)));
    let undecodable: Result<Option<u64>, DeezerError> =
        resolve_entity(Reply::Answered { status: 200, body: None });
    assert_eq!(undecodable, Err(DeezerError::Decode));
}

#[test]
fn resolve_payload_takes_not_found_for_failure() {
    let missing: Result<u64, DeezerError> =
        resolve_payload(Reply::Answered { status: 404, body: None });
    assert_eq!(missing, Err(DeezerError::Status(404)));
}

#[test]
fn resolve_payload_by_case() {
    assert_eq!(resolve_payload(Reply::Answered { status: 200, body: Some(5u8) }), Ok(5));
    assert_eq!(resolve_payload(Reply::Answered { status: 299, body: Some(5u8) }), Ok(5));
    assert_eq!(
        resolve_payload(Reply::Answered { status: 200, body: None::<u8> }),
        Err(DeezerError::Decode)
    );
    assert_eq!(
        resolve_payload(Reply::Answered { status: 503, body: Some(5u8) }),
        Err(DeezerError::Status(503))
    );
    assert_eq!(resolve_payload(Reply::<u8>::Unreachable), Err(DeezerError::Transport));
}

#[test]
fn an_empty_envelope_is_an_empty_sequence_and_no_error() {
    let envelope: DeezerArray<u64> = DeezerArray { data: Vec::new() };
    let items = resolve_array(Reply::Answered { status: 200, body: Some(envelope) });
    assert_eq!(items, Ok(Vec::new()));
}

#[test]
fn an_envelope_is_unwrapped_in_the_servers_order() {
    let envelope = DeezerArray { data: vec![30u64, 10, 20, 10] };
    let items = resolve_array(Reply::Answered { status: 200, body: Some(envelope) });
    assert_eq!(items, Ok(vec![30, 10, 20, 10]));
}

#[test]
fn resolve_array_fails_by_kind() {
    let missing: Result<Vec<u64>, DeezerError> =
        resolve_array(Reply::Answered { status: 404, body: None });
    assert_eq!(missing, Err(DeezerError::Status(404)));
    let undecodable: Result<Vec<u64>, DeezerError> =
        resolve_array(Reply::Answered { status: 200, body: None });
    assert_eq!(undecodable, Err(DeezerError::Decode));
    let unreachable: Result<Vec<u64>, DeezerError> = resolve_array(Reply::Unreachable);
    assert_eq!(unreachable, Err(DeezerError::Transport));
}

#[test]
fn the_same_reply_resolves_to_the_same_result_twice() {
    let first = resolve_entity(Reply::Answered { status: 200, body: Some("abc".to_string()) });
    let second = resolve_entity(Reply::Answered { status: 200, body: Some("abc".to_string()) });
    assert_eq!(first, second);
    assert_eq!(first, Ok(Some("abc".to_string())));
}

#[test]
fn errors_describe_themselves() {
    assert_eq!(DeezerError::Transport.describe(), "transport failure");
    assert_eq!(DeezerError::Status(404).describe(), "unsuccessful status 404");
    assert_eq!(DeezerError::Status(0).describe(), "unsuccessful status 0");
    assert_eq!(DeezerError::Status(65535).describe(), "unsuccessful status 65535");
    assert_eq!(DeezerError::Decode.describe(), "undecodable body");
}
