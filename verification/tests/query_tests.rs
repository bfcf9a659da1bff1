use julian::query::query_document;
use julian::{MediaRequest, PageSize, Sort};

#[test]
fn sort_tokens() {
    assert_eq!(Sort::Score.token(), "SCORE_DESC");
    assert_eq!(Sort::Popularity.token(), "POPULARITY_DESC");
    assert_eq!(Sort::Favorites.token(), "FAVOURITES_DESC");
    assert_eq!(Sort::Episodes.token(), "EPISODES_DESC");
}

#[test]
fn page_size_values() {
    assert_eq!(PageSize::Small.value(), 10);
    assert_eq!(PageSize::Medium.value(), 25);
    assert_eq!(PageSize::Large.value(), 50);
}

#[test]
fn request_fields() {
    let req = MediaRequest::new(Sort::Popularity, 3, PageSize::Large);
    assert_eq!(req.sort, Sort::Popularity);
    assert_eq!(req.page, 3);
    assert_eq!(req.page_size, PageSize::Large);
}

#[test]
fn request_body_exact() {
    let req = MediaRequest::new(Sort::Popularity, 3, PageSize::Large);
    let expected = format!(
        "{{\"query\":\"{}\",\"variables\":{{\"page\":3,\"perPage\":50,\"sort\":[\"POPULARITY_DESC\"]}}}}",
        query_document()
    );
    assert_eq!(req.body(), expected);
}

#[test]
fn request_body_is_valid_json() {
    let req = MediaRequest::new(Sort::Score, 12, PageSize::Medium);
    let v: serde_json::Value = serde_json::from_str(&req.body()).unwrap();
    assert_eq!(v["variables"]["page"], serde_json::Value::from(12));
    assert_eq!(v["variables"]["perPage"], serde_json::Value::from(25));
    assert_eq!(
        v["variables"]["sort"][0],
        serde_json::Value::from("SCORE_DESC")
    );
    let q = v["query"].as_str().unwrap();
    assert!(q.contains("media(sort: $sort, type: ANIME)"));
    assert!(q.contains("startDate"));
    assert!(q.contains("genres"));
}
