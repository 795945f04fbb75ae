use bili_crawler::json::Json;
use bili_crawler::post_parser::extract_u64_from_str;
use bili_crawler::scripts::{reply_query, post_detail_script, post_list_script, reply_page_script, POST_DETAIL_SCRIPT_HEAD, POST_DETAIL_SCRIPT_TAIL, POST_LIST_SCRIPT_HEAD, POST_LIST_SCRIPT_TAIL, REPLY_PAGE_SCRIPT_HEAD};
use bili_crawler::text::{mission_info, parse_u64, same_text, u64_to_decimal};

#[test]
fn parse_u64_follows_str_parse() {
    for s in ["", "+", "-", "-0", "0", "+0", "12", "+12", "007", "1a", " 1", "18446744073709551615", "18446744073709551616", "٣"] {
        assert_eq!(parse_u64(s), s.parse::<u64>().ok(), "input {:?}", s);
    }
}

#[test]
fn decimal_text_roundtrip() {
    for n in [0u64, 1, 9, 10, 99, 100, 1234567890, u64::MAX] {
        let t = u64_to_decimal(n);
        assert_eq!(t, n.to_string());
        assert_eq!(parse_u64(&t), Some(n));
    }
}

#[test]
fn mission_info_matches_serde_json() {
    for offset in ["", "abc", "a\"b", "back\\slash", "tab\there\nnl\r\u{8}\u{c}", "\u{1}\u{1f}\u{7f}", "中文"] {
        let mut m = serde_json::Map::new();
        m.insert("mid".to_string(), serde_json::Value::from(12345u64));
        m.insert("offset".to_string(), serde_json::Value::from(offset));
        let expected = serde_json::to_string(&serde_json::Value::Object(m)).unwrap();
        assert_eq!(mission_info(12345, offset), expected);
    }
    assert_eq!(mission_info(7, "a\"b"), "{\"mid\":7,\"offset\":\"a\\\"b\"}");
}

#[test]
fn scripts_fill_their_slot() {
    let s = post_list_script(3, "x");
    assert_eq!(s, format!("{}{}{}", POST_LIST_SCRIPT_HEAD, "{\"mid\":3,\"offset\":\"x\"}", POST_LIST_SCRIPT_TAIL));
    assert!(s.contains("const { mid, offset } = {\"mid\":3,\"offset\":\"x\"}"));
    let d = post_detail_script(987654321);
    assert_eq!(d, format!("{}987654321{}", POST_DETAIL_SCRIPT_HEAD, POST_DETAIL_SCRIPT_TAIL));
    assert!(d.contains("const id = '987654321'"));
    let r = reply_page_script("oid=1&type=11&pn=2");
    assert!(r.starts_with(REPLY_PAGE_SCRIPT_HEAD));
    assert!(r.contains("https://api.bilibili.com/x/v2/reply?oid=1&type=11&pn=2'"));
}

#[test]
fn extract_u64_reads_only_strings() {
    assert_eq!(extract_u64_from_str(&Json::Str("15".to_string())), Some(15));
    assert_eq!(extract_u64_from_str(&Json::Str("x".to_string())), None);
    assert_eq!(extract_u64_from_str(&Json::Null), None);
}

#[test]
fn same_text_compares_text() {
    assert!(same_text("a", "a"));
    assert!(!same_text("a", "b"));
}

#[test]
fn reply_query_lists_thread_and_page() {
    assert_eq!(reply_query(12, 17, 3), "oid=12&type=17&pn=3");
    assert_eq!(reply_query(u64::MAX, 0, 1), format!("oid={}&type=0&pn=1", u64::MAX));
}
