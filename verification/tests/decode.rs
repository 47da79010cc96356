use humble_keys::api::{decode_tpk, orders_from_text, order_batch_query, Order};
use humble_keys::json::{parse_u16, DecodeError, JsonValue};
use humble_keys::month::month_page_from_text;
use humble_keys::month::resolve_choice_data;
use humble_keys::pipeline::gamekeys_from_text;
use humble_keys::steamdb::{search_result_from_text, SearchBody, SteamDB};

fn s(x: &str) -> String {
    x.to_string()
}

#[test]
fn parse_u16_accepts_exactly_small_digit_strings() {
    assert_eq!(parse_u16("0"), Some(0));
    assert_eq!(parse_u16("007"), Some(7));
    assert_eq!(parse_u16("65535"), Some(65535));
    assert_eq!(parse_u16("65536"), None);
    assert_eq!(parse_u16("99999999999999999999"), None);
    assert_eq!(parse_u16(""), None);
    assert_eq!(parse_u16("1.5"), None);
    assert_eq!(parse_u16("-2"), None);
    assert_eq!(parse_u16("+2"), None);
    assert_eq!(parse_u16("12a"), None);
}

#[test]
fn tpk_decoding_reports_each_structural_error() {
    let missing_name = JsonValue::Obj(vec![
        (s("key_type"), JsonValue::Str(s("steam"))),
        (s("is_expired"), JsonValue::Bool(false)),
    ]);
    assert_eq!(decode_tpk(&missing_name), Err(DecodeError::MissingField));

    let wrong_kind = JsonValue::Obj(vec![
        (s("human_name"), JsonValue::Number(s("3"))),
        (s("key_type"), JsonValue::Str(s("steam"))),
        (s("is_expired"), JsonValue::Bool(false)),
    ]);
    assert_eq!(decode_tpk(&wrong_kind), Err(DecodeError::WrongType));

    let not_an_object = JsonValue::Arr(vec![]);
    assert_eq!(decode_tpk(&not_an_object), Err(DecodeError::WrongType));

    let with_null_redeemed = JsonValue::Obj(vec![
        (s("human_name"), JsonValue::Str(s("a"))),
        (s("key_type"), JsonValue::Str(s("steam"))),
        (s("is_expired"), JsonValue::Bool(false)),
        (s("redeemed_key_val"), JsonValue::Null),
    ]);
    let t = decode_tpk(&with_null_redeemed).unwrap();
    assert_eq!(t.redeemed_key_val, None);
    assert!(t.is_valid());
}

#[test]
fn order_decoding_reads_product_counter_and_dictionary() {
    let text = "{\"o1\": {\
        \"product\": {\"category\": \"subscriptioncontent\", \"human_name\": \"May Bundle\", \"choice_url\": \"may-2024\"},\
        \"choices_remaining\": 3,\
        \"tpkd_dict\": {\"all_tpks\": [{\"human_name\": \"k1\", \"key_type\": \"steam\", \"is_expired\": false}]}\
    }}";
    let orders = orders_from_text(text).unwrap();
    assert_eq!(orders.len(), 1);
    let order = &orders[0];
    assert_eq!(order.product.category, s("subscriptioncontent"));
    assert_eq!(order.product.human_name, s("May Bundle"));
    assert_eq!(order.product.choice_url, Some(s("may-2024")));
    assert_eq!(order.choices_remaining, 3);
    assert!(order.is_choice_bearing());
    assert_eq!(order.tpkd_dict.len(), 1);
    assert_eq!(order.tpkd_dict[0].0, s("all_tpks"));
    assert_eq!(order.tpkd_dict[0].1[0].human_name, s("k1"));
}

#[test]
fn order_with_bad_counter_is_a_number_error() {
    let text = "{\"o1\": {\
        \"product\": {\"category\": \"storefront\", \"human_name\": \"X\"},\
        \"choices_remaining\": 1.5,\
        \"tpkd_dict\": {}\
    }}";
    assert_eq!(orders_from_text(text), Err(DecodeError::BadNumber));
}

#[test]
fn choice_bearing_requires_all_three_conditions() {
    let base = |category: &str, remaining: u16, url: Option<&str>| Order {
        product: humble_keys::api::OrderProduct {
            category: s(category),
            human_name: s("X"),
            choice_url: url.map(|u| u.to_string()),
        },
        choices_remaining: remaining,
        tpkd_dict: vec![],
    };
    assert!(base("subscriptioncontent", 1, Some("m")).is_choice_bearing());
    assert!(!base("storefront", 1, Some("m")).is_choice_bearing());
    assert!(!base("subscriptioncontent", 0, Some("m")).is_choice_bearing());
    assert!(!base("subscriptioncontent", 1, None).is_choice_bearing());
}

#[test]
fn orders_text_round_trip_and_syntax_error() {
    let text = "{\"o1\": {\
        \"product\": {\"category\": \"storefront\", \"human_name\": \"X\"},\
        \"choices_remaining\": 0,\
        \"tpkd_dict\": {\"all_tpks\": []}\
    }}";
    let orders = orders_from_text(text).unwrap();
    assert_eq!(orders.len(), 1);
    assert_eq!(orders[0].product.human_name, s("X"));
    assert_eq!(orders_from_text("nope"), Err(DecodeError::Syntax));
}

#[test]
fn batch_query_lists_every_identifier_then_the_flag() {
    let q = order_batch_query(&vec![s("a"), s("b")]);
    assert_eq!(
        q,
        vec![
            (s("gamekeys"), s("a")),
            (s("gamekeys"), s("b")),
            (s("all_tpkds"), s("true")),
        ]
    );
}

#[test]
fn gamekeys_page_text_yields_the_identifier_list() {
    let keys = gamekeys_from_text("{\"gamekeys\": [\"a\", \"b\", \"c\"]}").unwrap();
    assert_eq!(keys, vec![s("a"), s("b"), s("c")]);
    assert_eq!(
        gamekeys_from_text("{\"gamekeys\": [1]}"),
        Err(DecodeError::WrongType)
    );
    assert_eq!(gamekeys_from_text("{}"), Err(DecodeError::MissingField));
    assert_eq!(gamekeys_from_text("no"), Err(DecodeError::Syntax));
}

#[test]
fn month_page_text_resolves_through_the_wrapper() {
    let text = "{\"contentChoiceOptions\": {\"contentChoiceData\": \
        {\"initial-get-all-games\": {\"c1\": {\"tpkds\": [\
            {\"human_name\": \"k1\", \"key_type\": \"steam\", \"is_expired\": false}\
        ]}}}}}";
    let page = month_page_from_text(text).unwrap();
    let keys = resolve_choice_data(page.content_choice_options.content_choice_data);
    assert_eq!(keys.len(), 1);
    assert_eq!(keys[0].human_name, s("k1"));

    let missing = "{\"somethingElse\": 1}";
    assert_eq!(month_page_from_text(missing), Err(DecodeError::MissingField));
}

#[test]
fn malformed_entry_under_a_games_tag_is_fatal() {
    let text = "{\"contentChoiceOptions\": {\"contentChoiceData\": \
        {\"c1\": {\"tpkds\": [{\"key_type\": \"steam\"}]}}}}";
    assert_eq!(month_page_from_text(text), Err(DecodeError::MissingField));
}

#[test]
fn search_response_first_hit_becomes_the_match() {
    let text = "{\"results\": [{\"hits\": [\
        {\"price_us\": 9.99, \"userScore\": 95.2, \"objectID\": \"620\"}\
    ]}]}";
    let m = search_result_from_text(text).unwrap().unwrap();
    assert_eq!(m.url, s("https://steamdb.info/app/620/"));
    assert_eq!(m.user_score, Some(s("95.2")));
    assert_eq!(m.price_us, s("9.99"));
}

#[test]
fn search_response_without_hits_is_no_match_not_an_error() {
    assert_eq!(search_result_from_text("{\"results\": []}"), Ok(None));
    assert_eq!(
        search_result_from_text("{\"results\": [{\"hits\": []}]}"),
        Ok(None)
    );
    assert_eq!(search_result_from_text("{}"), Err(DecodeError::MissingField));
}

#[test]
fn service_credentials_are_read_from_the_bootstrap_script() {
    let page = "var x = 1; t=algoliasearch(\"APPID99\",\"searchkey\"); rest();";
    let db = SteamDB::from_page(page).unwrap();
    assert_eq!(db.id, s("APPID99"));
    assert_eq!(db.api_key, s("searchkey"));
    assert_eq!(
        db.url,
        s("https://APPID99-dsn.algolia.net/1/indexes/*/queries")
    );
    assert!(SteamDB::from_page("nothing here").is_none());
}

#[test]
fn search_body_carries_the_form_encoded_query() {
    let b = SearchBody::new("half life");
    assert_eq!(b.requests.len(), 1);
    assert_eq!(b.requests[0].index_name, s("steamdb"));
    assert_eq!(
        b.requests[0].params,
        s("hitsPerPage=40&page=0&query=half+life&maxValuesPerFacet=200&attributesToRetrieve=%5B%22price_us%22%2C%22userScore%22%5D")
    );
}
