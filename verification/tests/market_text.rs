use polymarket_btc::market::{
    event_url, select_tokens, subscribe_message, subscribe_payload, token_pair_from_ids, window_slug,
    TokenIdsError,
};

#[test]
fn slug_of_a_window() {
    assert_eq!(window_slug(1772920200), "btc-updown-5m-1772920200");
}

#[test]
fn url_of_a_window() {
    assert_eq!(
        event_url("1772920200"),
        "https://gamma-api.polymarket.com/events?slug=btc-updown-5m-1772920200"
    );
}

#[test]
fn tokens_from_the_clob_field() {
    let pair = select_tokens("[\"1049087827\", \"4738287692\"]").unwrap();
    assert_eq!(pair.up, "1049087827");
    assert_eq!(pair.down, "4738287692");
}

#[test]
fn tokens_beyond_the_second_are_ignored() {
    let pair = select_tokens("[\"a\",\"b\",\"c\"]").unwrap();
    assert_eq!(pair.up, "a");
    assert_eq!(pair.down, "b");
}

#[test]
fn malformed_token_field() {
    assert_eq!(select_tokens("not json").err(), Some(TokenIdsError::Malformed));
    assert_eq!(select_tokens("[1, 2]").err(), Some(TokenIdsError::Malformed));
    assert_eq!(select_tokens("").err(), Some(TokenIdsError::Malformed));
}

#[test]
fn too_few_tokens() {
    assert_eq!(select_tokens("[\"only\"]").err(), Some(TokenIdsError::MissingTokens));
    assert_eq!(select_tokens("[]").err(), Some(TokenIdsError::MissingTokens));
    assert_eq!(token_pair_from_ids(&vec!["x".to_string()]).err(), Some(TokenIdsError::MissingTokens));
}

#[test]
fn token_pair_takes_first_two_ids() {
    let ids = vec!["u".to_string(), "d".to_string()];
    let pair = token_pair_from_ids(&ids).unwrap();
    assert_eq!(pair.up, "u");
    assert_eq!(pair.down, "d");
}

#[test]
fn subscription_text() {
    assert_eq!(
        subscribe_message("111", "222"),
        "{\"assets_ids\":[\"111\",\"222\"],\"custom_feature_enabled\":true,\"type\":\"market\"}"
    );
}

#[test]
fn subscription_escapes_tokens() {
    assert_eq!(
        subscribe_message("a\"b", "c\\d"),
        "{\"assets_ids\":[\"a\\\"b\",\"c\\\\d\"],\"custom_feature_enabled\":true,\"type\":\"market\"}"
    );
}

#[test]
fn subscription_matches_serde_json_object() {
    let mut map = serde_json::Map::new();
    map.insert(
        "assets_ids".to_string(),
        serde_json::Value::Array(vec![
            serde_json::Value::String("104908".to_string()),
            serde_json::Value::String("473828".to_string()),
        ]),
    );
    map.insert("type".to_string(), serde_json::Value::String("market".to_string()));
    map.insert("custom_feature_enabled".to_string(), serde_json::Value::Bool(true));
    let expected = serde_json::Value::Object(map).to_string();
    assert_eq!(subscribe_message("104908", "473828"), expected);
}

#[test]
fn payload_from_quoted_tokens() {
    assert_eq!(
        subscribe_payload("\"x\"", "\"y\""),
        "{\"assets_ids\":[\"x\",\"y\"],\"custom_feature_enabled\":true,\"type\":\"market\"}"
    );
}
