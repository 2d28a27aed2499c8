use mememeow_core::meme_server::{
    is_blank_keyword, meme_items, MemeItem, MemeServerClient, MemeServerConfig, SearchRequest,
    ITEM_ID_LENGTH, RESULTS_PER_SEARCH,
};

#[test]
fn default_configuration() {
    let config = MemeServerConfig::default();
    assert_eq!(config.api_url, "https://api.example.com/memes");
    assert_eq!(config.timeout_seconds, 10);
    assert_eq!(MemeServerClient::new(None).timeout_seconds(), 10);
}

#[test]
fn request_goes_to_the_active_endpoint() {
    let client = MemeServerClient::new(None);
    let request = client.search_request(
        "cat",
        Some("https://mememeow.morami.icu".to_string()),
        Some(vec!["one".to_string(), "two".to_string()]),
    );
    assert_eq!(
        request,
        SearchRequest {
            url: "https://mememeow.morami.icu/search".to_string(),
            query: "cat".to_string(),
            n_results: 10,
            resource_pack_uuids: vec!["one".to_string(), "two".to_string()],
        }
    );
    assert_eq!(RESULTS_PER_SEARCH, 10);
}

#[test]
fn request_falls_back_to_the_configured_address() {
    let config = MemeServerConfig { api_url: "https://api.zvv.quest/search".to_string(), timeout_seconds: 7 };
    let mut client = MemeServerClient::new(Some(config));
    assert_eq!(client.timeout_seconds(), 7);
    let request = client.search_request(" 猫 ", None, None);
    assert_eq!(request.url, "https://api.zvv.quest/search/search");
    assert_eq!(request.query, " 猫 ");
    assert!(request.resource_pack_uuids.is_empty());
    client.update_api_url("http://localhost:8000".to_string());
    assert_eq!(client.search_request("x", None, None).url, "http://localhost:8000/search");
    assert_eq!(client.timeout_seconds(), 7);
}

#[test]
fn items_keep_the_order_of_the_answer() {
    let urls = vec!["https://img/1.png".to_string(), "https://img/2.png".to_string(), "https://img/1.png".to_string()];
    let items = meme_items(urls.clone());
    assert_eq!(items.len(), 3);
    for (item, url) in items.iter().zip(urls.iter()) {
        assert_eq!(&item.url, url);
        assert_eq!(item.description, None);
        assert_eq!(item.id.chars().count(), 36);
        assert_eq!(item.id.len(), ITEM_ID_LENGTH);
    }
}

#[test]
fn item_identifiers_are_random_uuids() {
    let items = meme_items(vec!["a".to_string(), "b".to_string(), "c".to_string()]);
    for item in &items {
        let id = uuid::Uuid::parse_str(&item.id).expect("an identifier in the hyphenated form");
        assert_eq!(id.get_version_num(), 4);
        assert_eq!(id.to_string(), item.id);
        assert_ne!(item.id, item.url);
    }
    assert_ne!(items[0].id, items[1].id);
    assert_ne!(items[1].id, items[2].id);
    assert_ne!(items[0].id, items[2].id);
}

#[test]
fn no_url_gives_no_item() {
    assert_eq!(meme_items(Vec::new()), Vec::<MemeItem>::new());
}

#[test]
fn blank_keywords() {
    assert!(is_blank_keyword(""));
    assert!(is_blank_keyword("   "));
    assert!(is_blank_keyword("\t\n\u{3000}"));
    assert!(!is_blank_keyword(" a "));
    assert!(!is_blank_keyword("猫"));
}

#[test]
fn items_are_copied_whole() {
    let item = MemeItem { id: "1".to_string(), url: "u".to_string(), description: Some("d".to_string()) };
    assert_eq!(item.clone(), item);
    let bare = MemeItem { id: "2".to_string(), url: "v".to_string(), description: None };
    assert_eq!(bare.clone(), bare);
}
