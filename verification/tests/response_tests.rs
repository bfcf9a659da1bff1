use julian::response::response_to_records;
use julian::{NormalizeError, Season};

fn envelope(items: &str) -> String {
    format!("{{\"data\":{{\"Page\":{{\"media\":[{}]}}}}}}", items)
}

const FULL_ITEM: &str = "{\"id\":1,\"averageScore\":80,\"popularity\":100,\
\"favourites\":50,\"status\":\"FINISHED\",\"season\":\"FALL\",\"seasonYear\":2020,\
\"startDate\":{\"year\":2020,\"month\":10,\"day\":1},\"genres\":[\"Action\"],\
\"title\":{\"english\":\"X\",\"romaji\":\"Y\"}}";

#[test]
fn full_response_round_trip() {
    let records = response_to_records(&envelope(FULL_ITEM)).unwrap();
    assert_eq!(records.len(), 1);
    let row = records[0].to_row();
    let expected: Vec<String> = vec![
        "X".to_string(),
        "1".to_string(),
        "20201001".to_string(),
        "FINISHED".to_string(),
        "80".to_string(),
        "100".to_string(),
        "50".to_string(),
        "Fall".to_string(),
        "2020".to_string(),
        "Genres: [ Action ]".to_string(),
    ];
    assert_eq!(row, expected);
}

#[test]
fn sparse_item_uses_fallbacks() {
    let sparse = "{\"id\":7,\"averageScore\":1,\"popularity\":2,\"favourites\":3,\
\"genres\":[]}";
    let records = response_to_records(&envelope(sparse)).unwrap();
    assert_eq!(records.len(), 1);
    let m = &records[0];
    assert_eq!(m.title, "TITLE MISSING");
    assert_eq!(m.status, "Unknown Status");
    assert_eq!(m.season, Season::Unknown);
    assert_eq!(m.season_year, 0);
    assert_eq!(m.start_date.as_fuzzy(), "None");
    assert_eq!(m.to_row()[9], "Genres: [  ]");
}

#[test]
fn null_and_wrong_typed_fields_fall_back() {
    let item = "{\"id\":7,\"averageScore\":1,\"popularity\":2,\"favourites\":3,\
\"title\":{\"english\":null,\"romaji\":\"Bar\"},\"status\":null,\"season\":null,\
\"startDate\":{\"year\":\"soon\"},\"genres\":[\"A\",\"B\"]}";
    let records = response_to_records(&envelope(item)).unwrap();
    let m = &records[0];
    assert_eq!(m.title, "Bar");
    assert_eq!(m.status, "Unknown Status");
    assert_eq!(m.season, Season::Unknown);
    assert_eq!(m.start_date.get_year(), 0);
    assert_eq!(m.to_row()[9], "Genres: [ A, B ]");
}

#[test]
fn response_order_is_kept() {
    let second = "{\"id\":2,\"averageScore\":1,\"popularity\":2,\"favourites\":3,\
\"genres\":[],\"title\":{\"romaji\":\"Z\"}}";
    let text = envelope(&format!("{},{}", FULL_ITEM, second));
    let records = response_to_records(&text).unwrap();
    assert_eq!(records.len(), 2);
    assert_eq!(records[0].id, 1);
    assert_eq!(records[1].id, 2);
    assert_eq!(records[1].title, "Z");
}

#[test]
fn invalid_json_is_fatal() {
    assert!(matches!(
        response_to_records("not json"),
        Err(NormalizeError::BadResponse)
    ));
}

#[test]
fn missing_envelope_is_fatal() {
    assert!(matches!(
        response_to_records("{}"),
        Err(NormalizeError::BadResponse)
    ));
    assert!(matches!(
        response_to_records("{\"data\":{\"Page\":{}}}"),
        Err(NormalizeError::BadResponse)
    ));
}

#[test]
fn non_list_media_is_fatal() {
    assert!(matches!(
        response_to_records("{\"data\":{\"Page\":{\"media\":5}}}"),
        Err(NormalizeError::BadResponse)
    ));
}

#[test]
fn missing_id_in_response_yields_no_records() {
    let bad = "{\"averageScore\":1,\"popularity\":2,\"favourites\":3,\"genres\":[]}";
    let text = envelope(&format!("{},{}", FULL_ITEM, bad));
    assert!(matches!(
        response_to_records(&text),
        Err(NormalizeError::MissingId)
    ));
}

#[test]
fn non_string_genre_in_response_is_fatal() {
    let bad = "{\"id\":4,\"averageScore\":1,\"popularity\":2,\"favourites\":3,\
\"genres\":[\"A\",7]}";
    assert!(matches!(
        response_to_records(&envelope(bad)),
        Err(NormalizeError::BadGenre)
    ));
}

#[test]
fn unrecognized_season_in_response_is_fatal() {
    let bad = "{\"id\":4,\"averageScore\":1,\"popularity\":2,\"favourites\":3,\
\"genres\":[],\"season\":\"AUTUMN\"}";
    assert!(matches!(
        response_to_records(&envelope(bad)),
        Err(NormalizeError::UnknownSeason)
    ));
}
