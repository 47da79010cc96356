use humble_keys::api::AllTpks;
use humble_keys::json::{DecodeError, JsonValue};
use humble_keys::month::{
    decode_choice_data, resolve_choice_data, MonthPageOptionsDataEnum,
};
use humble_keys::month::month_page_from_text;
use humble_keys::pipeline::{
    chunk_gamekeys, membership_url, merge_records, normalize_choice, normalize_choice_page,
    normalize_direct, KeyRecord,
};
use humble_keys::steamdb::{enriched, needs_lookup, SearchResult};

fn s(x: &str) -> String {
    x.to_string()
}

fn tpk(name: &str, platform: &str, redeemed: Option<&str>, expired: bool) -> AllTpks {
    AllTpks {
        redeemed_key_val: redeemed.map(|r| r.to_string()),
        human_name: s(name),
        is_expired: expired,
        key_type: s(platform),
    }
}

fn jtpk(name: &str, platform: &str, redeemed: Option<&str>, expired: bool) -> JsonValue {
    let mut members = vec![
        (s("human_name"), JsonValue::Str(s(name))),
        (s("key_type"), JsonValue::Str(s(platform))),
        (s("is_expired"), JsonValue::Bool(expired)),
    ];
    if let Some(r) = redeemed {
        members.push((s("redeemed_key_val"), JsonValue::Str(s(r))));
    }
    JsonValue::Obj(members)
}

fn resolved_names(d: MonthPageOptionsDataEnum) -> Vec<String> {
    resolve_choice_data(d)
        .into_iter()
        .map(|t| t.human_name)
        .collect()
}

#[test]
fn validity_rule_all_combinations() {
    assert!(tpk("a", "steam", None, false).is_valid());
    assert!(!tpk("a", "steam", Some("AAA-BBB"), false).is_valid());
    assert!(!tpk("a", "steam", None, true).is_valid());
    assert!(!tpk("a", "steam", Some("AAA-BBB"), true).is_valid());
}

#[test]
fn shape_a_fixture_yields_its_keys_in_order() {
    let fixture = JsonValue::Obj(vec![(
        s("initial-get-all-games"),
        JsonValue::Obj(vec![(
            s("c1"),
            JsonValue::Obj(vec![(
                s("tpkds"),
                JsonValue::Arr(vec![jtpk("k1", "steam", None, false), jtpk("k2", "gog", None, false)]),
            )]),
        )]),
    )]);
    let d = decode_choice_data(&fixture).unwrap();
    assert!(matches!(d, MonthPageOptionsDataEnum::Initial { .. }));
    assert_eq!(resolved_names(d), vec![s("k1"), s("k2")]);
}

#[test]
fn shape_b_mixed_inner_shapes_yield_all_keys() {
    let fixture = JsonValue::Obj(vec![
        (
            s("c1"),
            JsonValue::Obj(vec![(
                s("tpkds"),
                JsonValue::Arr(vec![jtpk("k1", "steam", None, false)]),
            )]),
        ),
        (
            s("c2"),
            JsonValue::Obj(vec![(
                s("nested_choice_tpkds"),
                JsonValue::Obj(vec![
                    (s("x"), JsonValue::Arr(vec![jtpk("k2", "steam", None, false)])),
                    (s("y"), JsonValue::Arr(vec![jtpk("k3", "gog", None, false)])),
                ]),
            )]),
        ),
    ]);
    let d = decode_choice_data(&fixture).unwrap();
    assert!(matches!(d, MonthPageOptionsDataEnum::GameData { .. }));
    let mut names = resolved_names(d);
    names.sort();
    assert_eq!(names, vec![s("k1"), s("k2"), s("k3")]);
}

#[test]
fn unrecognized_shapes_yield_empty_without_error() {
    let empty = JsonValue::Obj(vec![]);
    let d = decode_choice_data(&empty).unwrap();
    assert!(matches!(d, MonthPageOptionsDataEnum::Unknown {}));
    assert_eq!(resolved_names(d), Vec::<String>::new());

    let stray = JsonValue::Obj(vec![(s("foo"), JsonValue::Number(s("1")))]);
    let d = decode_choice_data(&stray).unwrap();
    assert!(matches!(d, MonthPageOptionsDataEnum::Unknown {}));
    assert_eq!(resolved_names(d), Vec::<String>::new());
}

#[test]
fn empty_nested_mapping_contributes_no_keys() {
    let fixture = JsonValue::Obj(vec![(
        s("c1"),
        JsonValue::Obj(vec![(s("nested_choice_tpkds"), JsonValue::Obj(vec![]))]),
    )]);
    let d = decode_choice_data(&fixture).unwrap();
    assert!(matches!(d, MonthPageOptionsDataEnum::GameData { .. }));
    assert_eq!(resolved_names(d), Vec::<String>::new());
}

#[test]
fn initial_shape_is_found_under_its_short_name_too() {
    let fixture = JsonValue::Obj(vec![(
        s("initial"),
        JsonValue::Obj(vec![(
            s("c1"),
            JsonValue::Obj(vec![(
                s("tpkds"),
                JsonValue::Arr(vec![jtpk("k1", "steam", None, false)]),
            )]),
        )]),
    )]);
    let d = decode_choice_data(&fixture).unwrap();
    assert!(matches!(d, MonthPageOptionsDataEnum::Initial { .. }));
    assert_eq!(resolved_names(d), vec![s("k1")]);
}

#[test]
fn initial_shape_takes_precedence_over_game_data() {
    // The wrapper member decodes as the initial shape even though the
    // object as a whole would also pass the game-data trial.
    let fixture = JsonValue::Obj(vec![(
        s("initial-get-all-games"),
        JsonValue::Obj(vec![(
            s("c1"),
            JsonValue::Obj(vec![(
                s("tpkds"),
                JsonValue::Arr(vec![jtpk("inner", "steam", None, false)]),
            )]),
        )]),
    )]);
    let d = decode_choice_data(&fixture).unwrap();
    assert!(matches!(d, MonthPageOptionsDataEnum::Initial { .. }));
    assert_eq!(resolved_names(d), vec![s("inner")]);
}

#[test]
fn games_tag_with_wrong_payload_kind_is_fatal() {
    let fixture = JsonValue::Obj(vec![(
        s("c1"),
        JsonValue::Obj(vec![(s("tpkds"), JsonValue::Str(s("oops")))]),
    )]);
    assert_eq!(decode_choice_data(&fixture), Err(DecodeError::WrongType));
}

#[test]
fn direct_order_keeps_only_the_valid_key() {
    let dict = vec![(
        s("all_tpks"),
        vec![
            tpk("valid", "steam", None, false),
            tpk("redeemed", "steam", Some("AAA-BBB"), false),
            tpk("expired", "steam", None, true),
        ],
    )];
    let records = normalize_direct(dict).unwrap();
    assert_eq!(records.len(), 1);
    assert_eq!(records[0].key, s("valid"));
    assert_eq!(records[0].choice_url, None);
    assert_eq!(records[0].platform, s("steam"));
}

#[test]
fn direct_order_without_key_list_yields_nothing() {
    let dict = vec![(s("other"), vec![tpk("valid", "steam", None, false)])];
    assert!(normalize_direct(dict).is_none());
}

#[test]
fn choice_records_carry_the_template_applied_to_the_endpoint() {
    let entries = vec![
        tpk("a", "steam", None, false),
        tpk("b", "gog", Some("AAA-BBB"), false),
        tpk("c", "gog", None, false),
    ];
    let ctx = membership_url(&s("may-2024"));
    assert_eq!(ctx, s("https://www.humblebundle.com/membership/may-2024"));
    let records = normalize_choice(entries, ctx.clone());
    assert_eq!(records.len(), 2);
    for r in &records {
        assert_eq!(r.choice_url, Some(ctx.clone()));
    }
    assert_eq!(records[0].key, s("a"));
    assert_eq!(records[1].key, s("c"));
}

#[test]
fn choice_page_is_normalized_end_to_end() {
    let text = "{\"contentChoiceOptions\": {\"contentChoiceData\": \
        {\"initial-get-all-games\": {\"c1\": {\"tpkds\": [\
            {\"human_name\": \"k1\", \"key_type\": \"steam\", \"is_expired\": false},\
            {\"human_name\": \"k2\", \"key_type\": \"steam\", \"is_expired\": true}\
        ]}}}}}";
    let page = month_page_from_text(text).unwrap();
    let records = normalize_choice_page(page, &s("may-2024"));
    assert_eq!(records.len(), 1);
    assert_eq!(records[0].key, s("k1"));
    assert_eq!(
        records[0].choice_url,
        Some(s("https://www.humblebundle.com/membership/may-2024"))
    );
}

#[test]
fn forty_five_identifiers_make_two_batches() {
    let ids: Vec<String> = (0..45).map(|i| format!("id{i}")).collect();
    let batches = chunk_gamekeys(ids.clone());
    assert_eq!(batches.len(), 2);
    assert_eq!(batches[0].len(), 40);
    assert_eq!(batches[1].len(), 5);
    let rejoined: Vec<String> = batches.into_iter().flatten().collect();
    assert_eq!(rejoined, ids);
}

#[test]
fn merged_count_ignores_batch_completion_order() {
    let a = vec![rec("a1"), rec("a2")];
    let b = vec![rec("b1")];
    let c: Vec<KeyRecord> = vec![];
    let merged_one = merge_records(vec![a.clone(), b.clone(), c.clone()]);
    let merged_two = merge_records(vec![c, b, a]);
    assert_eq!(merged_one.len(), 3);
    assert_eq!(merged_two.len(), 3);
}

fn rec(name: &str) -> KeyRecord {
    KeyRecord {
        key: s(name),
        choice_url: None,
        platform: s("steam"),
        url: None,
        user_score: None,
        price_us: None,
    }
}

#[test]
fn enrichment_sets_all_three_fields_on_a_match() {
    let r = rec("Portal 2");
    assert!(needs_lookup(&r));
    let m = SearchResult {
        url: s("https://steamdb.info/app/620/"),
        user_score: Some(s("95.2")),
        price_us: s("9.99"),
    };
    let e = enriched(r, Some(m));
    assert_eq!(e.key, s("Portal 2"));
    assert_eq!(e.url, Some(s("https://steamdb.info/app/620/")));
    assert_eq!(e.user_score, Some(s("95.2")));
    assert_eq!(e.price_us, Some(s("9.99")));
}

#[test]
fn enrichment_skips_other_platforms_and_keeps_no_match_unset() {
    let mut other = rec("Frog Game");
    other.platform = s("gog");
    assert!(!needs_lookup(&other));
    let copy = other.clone();
    assert_eq!(enriched(other, None), copy);

    let steam_no_match = rec("Obscure Game");
    let e = enriched(steam_no_match, None);
    assert_eq!(e.url, None);
    assert_eq!(e.user_score, None);
    assert_eq!(e.price_us, None);
}

#[test]
fn resolving_twice_yields_the_same_keys() {
    let build = || {
        JsonValue::Obj(vec![(
            s("c1"),
            JsonValue::Obj(vec![(
                s("nested_choice_tpkds"),
                JsonValue::Obj(vec![
                    (s("x"), JsonValue::Arr(vec![jtpk("k2", "steam", None, false)])),
                    (s("y"), JsonValue::Arr(vec![jtpk("k3", "gog", None, false)])),
                ]),
            )]),
        )])
    };
    let mut first = resolved_names(decode_choice_data(&build()).unwrap());
    let mut second = resolved_names(decode_choice_data(&build()).unwrap());
    first.sort();
    second.sort();
    assert_eq!(first, second);
}
