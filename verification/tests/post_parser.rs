use bili_crawler::json::{parse_json_text, Json, JsonNumber};
use bili_crawler::post_parser::{parse_dynamic_item, DynamicType};

fn j(text: &str) -> Json {
    parse_json_text(text).unwrap()
}

#[test]
fn new_layout_forward_post() {
    let item = j(r#"{
        "id_str": "1000000000000000001",
        "type": "DYNAMIC_TYPE_FORWARD",
        "basic": {"comment_id_str": "555", "comment_type": 17},
        "modules": [
            {"module_type": "MODULE_TYPE_AUTHOR",
             "module_author": {"mid": 42, "name": "alice", "face": "f.png", "pub_ts": 1700000000, "pub_time": "2023"}},
            {"module_type": "MODULE_TYPE_DYNAMIC",
             "module_dynamic": {"dyn_forward": {"item": {"id_str": "77"}}}},
            {"module_type": "MODULE_TYPE_DESC", "module_desc": {"text": "look"}},
            {"module_type": "MODULE_TYPE_STAT", "module_stat": {"comment": {"comment_id": "999", "comment_type": 11}}}
        ]
    }"#);
    let p = parse_dynamic_item(&item);
    assert_eq!(p.id, 1000000000000000001);
    assert_eq!(p.dynamic_type, DynamicType::Forward);
    assert_eq!(p.original_post_id, Some(77));
    assert_eq!(p.content.as_deref(), Some("look"));
    let a = p.author.unwrap();
    assert_eq!((a.mid, a.name.as_str(), a.face.as_str()), (42, "alice", "f.png"));
    assert_eq!(p.publish_time, Some(1700000000));
    assert_eq!(p.publish_time_text.as_deref(), Some("2023"));
    assert_eq!(p.comment_area.comment_id.as_deref(), Some("999"));
    assert_eq!(p.comment_area.comment_type, Some(11));
    assert!(p.video_info.is_none() && p.image_urls.is_none() && p.reserve_info.is_none());
}

#[test]
fn new_layout_video_keeps_stats() {
    let item = j(r#"{
        "id_str": "5", "type": "DYNAMIC_TYPE_AV",
        "modules": [
            {"module_type": "MODULE_TYPE_DYNAMIC",
             "module_dynamic": {"dyn_archive": {"title": "T", "desc": "D", "cover": "C", "jump_url": "J",
                "duration_text": "01:00", "aid": "9", "bvid": "BV1", "stat": {"play": 3, "ratio": 0.5}}}}
        ]
    }"#);
    let p = parse_dynamic_item(&item);
    assert_eq!(p.dynamic_type, DynamicType::Video);
    let v = p.video_info.unwrap();
    assert_eq!(v.title, "T");
    assert_eq!(v.description, "D");
    assert_eq!(v.duration, "01:00");
    assert_eq!(v.avid, "9");
    assert_eq!(v.bvid, "BV1");
    match v.stats.get("play") {
        Some(Json::Number(JsonNumber::PosInt(3))) => {}
        other => panic!("unexpected {:?}", other),
    }
    assert!(p.author.is_none());
    assert!(p.content.is_none());
}

#[test]
fn new_layout_draw_collects_sources_and_falls_back_to_opus_summary() {
    let item = j(r#"{
        "id_str": "6", "type": "DYNAMIC_TYPE_DRAW",
        "modules": [
            {"module_type": "MODULE_TYPE_DYNAMIC",
             "module_dynamic": {"dyn_draw": {"items": [{"src": "a"}, {"url": "skip"}, {"src": "b"}]},
                                "major": {"opus": {"summary": {"text": "sum"}}}}}
        ]
    }"#);
    let p = parse_dynamic_item(&item);
    assert_eq!(p.dynamic_type, DynamicType::Image);
    assert_eq!(p.image_urls, Some(vec!["a".to_string(), "b".to_string()]));
    assert_eq!(p.content.as_deref(), Some("sum"));
}

#[test]
fn unknown_type_has_no_body() {
    let item = j(r#"{"id_str": "x", "type": "DYNAMIC_TYPE_LIVE", "modules": []}"#);
    let p = parse_dynamic_item(&item);
    assert_eq!(p.id, 0);
    assert_eq!(p.dynamic_type, DynamicType::Other);
    assert!(p.content.is_none() && p.original_post_id.is_none());
}

#[test]
fn missing_fields_give_defaults() {
    let p = parse_dynamic_item(&Json::Null);
    assert_eq!(p.id, 0);
    assert_eq!(p.dynamic_type, DynamicType::Other);
    assert!(p.author.is_none());
    assert!(p.comment_area.comment_id.is_none());
    assert!(p.comment_area.comment_type.is_none());
}

#[test]
fn old_layout_forward_prefers_orig() {
    let item = j(r#"{
        "id_str": "8", "type": "DYNAMIC_TYPE_FORWARD",
        "orig": {"id_str": "123"},
        "basic": {"comment_id_str": "8", "comment_type": 17},
        "modules": {
            "module_author": {"user": {"mid": 7, "name": "bob", "face": "x"}, "pub_text": "yesterday"},
            "module_dynamic": {"desc": {"text": "fw"}, "dyn_forward": {"item": {"id_str": "456"}}},
            "module_stat": {"comment": {}}
        }
    }"#);
    let p = parse_dynamic_item(&item);
    assert_eq!(p.dynamic_type, DynamicType::Forward);
    assert_eq!(p.original_post_id, Some(123));
    assert_eq!(p.content.as_deref(), Some("fw"));
    let a = p.author.unwrap();
    assert_eq!((a.mid, a.name.as_str()), (7, "bob"));
    assert_eq!(p.publish_time, None);
    assert_eq!(p.publish_time_text.as_deref(), Some("yesterday"));
    assert_eq!(p.comment_area.comment_id.as_deref(), Some("8"));
    assert_eq!(p.comment_area.comment_type, Some(17));
}

#[test]
fn old_layout_forward_falls_back_to_dyn_forward() {
    let item = j(r#"{
        "type": "DYNAMIC_TYPE_FORWARD",
        "modules": {"module_dynamic": {"dyn_forward": {"item": {"id_str": "456"}}}}
    }"#);
    let p = parse_dynamic_item(&item);
    assert_eq!(p.original_post_id, Some(456));
}

#[test]
fn old_layout_draw_without_images_is_text() {
    let item = j(r#"{
        "type": "DYNAMIC_TYPE_DRAW",
        "modules": {"module_dynamic": {"desc": {"text": "plain"}, "major": {}}}
    }"#);
    let p = parse_dynamic_item(&item);
    assert_eq!(p.dynamic_type, DynamicType::Text);
    assert!(p.image_urls.is_none());
    assert_eq!(p.content.as_deref(), Some("plain"));
}

#[test]
fn old_layout_draw_uses_src_or_url() {
    let item = j(r#"{
        "type": "DYNAMIC_TYPE_DRAW",
        "modules": {"module_dynamic": {"major": {"opus": {"pics": [{"url": "u1"}, {"src": "s2", "url": "u2"}, {}]}}}}
    }"#);
    let p = parse_dynamic_item(&item);
    assert_eq!(p.dynamic_type, DynamicType::Image);
    assert_eq!(p.image_urls, Some(vec!["u1".to_string(), "s2".to_string()]));
}

#[test]
fn old_layout_opus_with_and_without_pictures() {
    let with = j(r#"{
        "type": "DYNAMIC_TYPE_OPUS",
        "modules": {"module_dynamic": {"major": {"opus": {"pics": [{"src": "p"}], "summary": {"text": "s"}}}}}
    }"#);
    let p = parse_dynamic_item(&with);
    assert_eq!(p.dynamic_type, DynamicType::Image);
    assert_eq!(p.image_urls, Some(vec!["p".to_string()]));
    assert_eq!(p.content.as_deref(), Some("s"));
    let without = j(r#"{
        "type": "DYNAMIC_TYPE_OPUS",
        "modules": {"module_dynamic": {"major": {"opus": {"pics": [], "summary": {"text": "s"}}}}}
    }"#);
    let p = parse_dynamic_item(&without);
    assert_eq!(p.dynamic_type, DynamicType::Text);
    assert!(p.image_urls.is_none());
}

#[test]
fn old_layout_video_reads_major_archive() {
    let item = j(r#"{
        "type": "DYNAMIC_TYPE_AV",
        "modules": {"module_dynamic": {"desc": {"text": "watch"}, "major": {"archive": {"title": "V", "aid": "1"}}}}
    }"#);
    let p = parse_dynamic_item(&item);
    assert_eq!(p.dynamic_type, DynamicType::Video);
    assert_eq!(p.content.as_deref(), Some("watch"));
    let v = p.video_info.unwrap();
    assert_eq!(v.title, "V");
    assert_eq!(v.cover, "");
    assert!(matches!(v.stats, Json::Null));
}

#[test]
fn reserve_is_read_only_for_reserve_additions() {
    let item = j(r#"{
        "type": "DYNAMIC_TYPE_WORD",
        "modules": [
            {"module_type": "MODULE_TYPE_DYNAMIC", "module_dynamic": {"additional": {"type": "ADDITIONAL_TYPE_RESERVE",
                "reserve": {"title": "live", "desc1": {"text": "tomorrow"}, "reserve_total": 12, "jump_url": "u"}}}},
            {"module_type": "MODULE_TYPE_DESC", "module_desc": {"text": "w"}}
        ]
    }"#);
    let p = parse_dynamic_item(&item);
    assert_eq!(p.dynamic_type, DynamicType::Text);
    assert_eq!(p.content.as_deref(), Some("w"));
    let r = p.reserve_info.unwrap();
    assert_eq!((r.title.as_str(), r.publish_time_text.as_str(), r.total, r.jump_url.as_str()), ("live", "tomorrow", 12, "u"));

    let other = j(r#"{"modules": [{"module_type": "MODULE_TYPE_DYNAMIC",
        "module_dynamic": {"additional": {"type": "ADDITIONAL_TYPE_VOTE", "reserve": {"title": "x"}}}}]}"#);
    assert!(parse_dynamic_item(&other).reserve_info.is_none());
}

#[test]
fn first_matching_module_wins() {
    let item = j(r#"{"modules": [
        {"module_type": "MODULE_TYPE_AUTHOR", "module_author": {"mid": 1}},
        {"module_type": "MODULE_TYPE_AUTHOR", "module_author": {"mid": 2}}
    ]}"#);
    assert_eq!(parse_dynamic_item(&item).author.unwrap().mid, 1);
}

#[test]
fn id_of_decimal_text_is_that_number() {
    let item = j(r#"{"id_str": "18446744073709551615"}"#);
    assert_eq!(parse_dynamic_item(&item).id, u64::MAX);
    let too_big = j(r#"{"id_str": "18446744073709551616"}"#);
    assert_eq!(parse_dynamic_item(&too_big).id, 0);
}

#[test]
fn kind_decides_fields_on_examples() {
    for text in [
        r#"{"type": "DYNAMIC_TYPE_FORWARD", "modules": [{"module_type": "MODULE_TYPE_DYNAMIC", "module_dynamic": {"dyn_forward": {"item": {"id_str": "3"}}}}]}"#,
        r#"{"type": "DYNAMIC_TYPE_AV", "modules": {"module_dynamic": {"major": {"archive": {}}}}}"#,
        r#"{"type": "DYNAMIC_TYPE_OPUS", "modules": {"module_dynamic": {"major": {"opus": {"pics": [{"src": "a"}]}}}}}"#,
    ] {
        let p = parse_dynamic_item(&j(text));
        if p.original_post_id.is_some() {
            assert_eq!(p.dynamic_type, DynamicType::Forward);
        }
        if p.video_info.is_some() {
            assert_eq!(p.dynamic_type, DynamicType::Video);
        }
        if p.image_urls.is_some() {
            assert_eq!(p.dynamic_type, DynamicType::Image);
        }
    }
}

#[test]
fn comment_area_falls_back_to_basic_when_stat_has_no_id() {
    let item = j(r#"{
        "basic": {"comment_id_str": "31", "comment_type": 1},
        "modules": [{"module_type": "MODULE_TYPE_STAT", "module_stat": {"comment": {"comment_id": 5}}}]
    }"#);
    let p = parse_dynamic_item(&item);
    assert_eq!(p.comment_area.comment_id.as_deref(), Some("31"));
    assert_eq!(p.comment_area.comment_type, Some(1));
}
