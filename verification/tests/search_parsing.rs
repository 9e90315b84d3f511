use chordmate::catalog::{parse_search_response, ApiError, SpotifyTrack};

#[test]
fn partial_parse_drops_item_without_id() {
    // Three items, the second lacks `id`: exactly the first and third come
    // out, in their original relative order.
    let body = r#"{"tracks":{"items":[
        {"id":"t1","name":"One","artists":[{"name":"A"}]},
        {"name":"Two","artists":[{"name":"B"}]},
        {"id":"t3","name":"Three","artists":[{"name":"C"}]}
    ]}}"#;
    let tracks = parse_search_response(200, body.to_string()).unwrap();
    assert_eq!(tracks.len(), 2);
    assert_eq!(tracks[0].id, "t1");
    assert_eq!(tracks[0].name, "One");
    assert_eq!(tracks[1].id, "t3");
    assert_eq!(tracks[1].name, "Three");
}

#[test]
fn item_without_name_is_dropped() {
    let body = r#"{"tracks":{"items":[{"id":"t1","artists":[]}]}}"#;
    let tracks = parse_search_response(200, body.to_string()).unwrap();
    assert!(tracks.is_empty());
}

#[test]
fn full_item_maps_every_field() {
    let body = r#"{"tracks":{"items":[{
        "id":"t1",
        "name":"One",
        "artists":[{"name":"A"},{"id":"no-name"},{"name":"B"}],
        "preview_url":"https://p/1",
        "album":{"images":[{"url":"https://img/1"},{"url":"https://img/2"}]}
    }]}}"#;
    let tracks = parse_search_response(200, body.to_string()).unwrap();
    assert_eq!(
        tracks,
        vec![SpotifyTrack {
            id: "t1".to_string(),
            name: "One".to_string(),
            // The entry without a name is dropped from the list, not the item.
            artists: vec!["A".to_string(), "B".to_string()],
            preview_url: Some("https://p/1".to_string()),
            // The first image wins.
            album_art: Some("https://img/1".to_string()),
        }]
    );
}

#[test]
fn optional_fields_default_to_none_or_empty() {
    let body = r#"{"tracks":{"items":[{"id":"t1","name":"One"}]}}"#;
    let tracks = parse_search_response(200, body.to_string()).unwrap();
    assert_eq!(tracks.len(), 1);
    assert!(tracks[0].artists.is_empty());
    assert_eq!(tracks[0].preview_url, None);
    assert_eq!(tracks[0].album_art, None);
}

#[test]
fn empty_image_list_yields_no_album_art() {
    let body = r#"{"tracks":{"items":[{"id":"t1","name":"One","album":{"images":[]}}]}}"#;
    let tracks = parse_search_response(200, body.to_string()).unwrap();
    assert_eq!(tracks[0].album_art, None);
}

#[test]
fn empty_item_list_yields_empty_result() {
    let body = r#"{"tracks":{"items":[]}}"#;
    let tracks = parse_search_response(200, body.to_string()).unwrap();
    assert!(tracks.is_empty());
}

#[test]
fn non_success_status_keeps_status_and_body() {
    let r = parse_search_response(429, "slow down".to_string());
    assert_eq!(
        r.unwrap_err(),
        ApiError::HttpStatus { status: 429, body: "slow down".to_string() }
    );
}

#[test]
fn body_outside_the_search_schema_is_malformed() {
    let not_json = parse_search_response(200, "<html>".to_string());
    assert_eq!(not_json.unwrap_err(), ApiError::MalformedResponse);

    let no_tracks = parse_search_response(200, r#"{"albums":{}}"#.to_string());
    assert_eq!(no_tracks.unwrap_err(), ApiError::MalformedResponse);

    let no_items = parse_search_response(200, r#"{"tracks":{}}"#.to_string());
    assert_eq!(no_items.unwrap_err(), ApiError::MalformedResponse);

    let items_not_array = parse_search_response(200, r#"{"tracks":{"items":{}}}"#.to_string());
    assert_eq!(items_not_array.unwrap_err(), ApiError::MalformedResponse);
}
