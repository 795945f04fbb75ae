use bili_crawler::db::runtime_db::{PendingPost, ReplyProgress};
use bili_crawler::fetch_posts::{
    forwarded_originals, original_to_fetch, post_list_cutoff, Cutoff, DetailAction, DetailOutcome, DetailPhase, ListPhase, PostDetailCrawl, PostIdAction,
    PostIdCrawl, PostListOutcome,
};
use bili_crawler::fetch_reply::{
    get_fetch_mode, names_thread, reply_record_of, reply_task_of, reply_tasks, start_reply_crawl, FetchMode, PageEnd, ReplyAction,
    ReplyPageOutcome, ReplyPhase, ReplyStart, TaskError,
};
use bili_crawler::json::{parse_json_text, Json, JsonNumber};
use bili_crawler::post_parser::parse_dynamic_item;
use bili_crawler::response::MalformedResponse;

fn j(text: &str) -> Json {
    parse_json_text(text).unwrap()
}

fn post(id: &str, ts: u64) -> String {
    format!(
        r#"{{"id_str": "{}", "modules": [{{"module_type": "MODULE_TYPE_AUTHOR", "module_author": {{"pub_ts": {}}}}}]}}"#,
        id, ts
    )
}

#[test]
fn fetch_mode_follows_refresh_flag() {
    assert_eq!(get_fetch_mode(false, false), FetchMode::Resume);
    assert_eq!(get_fetch_mode(true, false), FetchMode::Resume);
    assert_eq!(get_fetch_mode(false, true), FetchMode::Refresh);
    assert_eq!(get_fetch_mode(true, true), FetchMode::Refresh);
}

#[test]
fn post_list_queues_until_an_old_post() {
    let mut c = PostIdCrawl::new(99, 100, String::new());
    match c.next_action() {
        PostIdAction::Request(script) => assert!(script.contains("{\"mid\":99,\"offset\":\"\"}")),
        _ => panic!("expected a request"),
    }
    let page = j(&format!(
        r#"{{"code": 0, "data": {{"has_more": true, "offset": "next", "items": [{}, {}, {}]}}}}"#,
        post("1", 300),
        post("2", 100),
        post("3", 99)
    ));
    match c.on_response(&page).unwrap() {
        PostListOutcome::Page { queue, stopped_at } => {
            assert_eq!(queue, vec![1, 2]);
            assert_eq!(stopped_at, Some(3));
        }
        _ => panic!("expected a page"),
    }
    assert_eq!(c.phase, ListPhase::Done);
    assert!(matches!(c.next_action(), PostIdAction::Finished));
}

#[test]
fn post_list_records_fetch_time_after_last_page() {
    let mut c = PostIdCrawl::new(5, 0, String::new());
    let first = j(&format!(r#"{{"code": 0, "data": {{"has_more": true, "offset": "o2", "items": [{}]}}}}"#, post("10", 1)));
    assert!(matches!(c.on_response(&first).unwrap(), PostListOutcome::Page { stopped_at: None, .. }));
    assert!(matches!(c.next_action(), PostIdAction::Pause));
    c.on_pause();
    match c.next_action() {
        PostIdAction::Request(script) => assert!(script.contains("\"offset\":\"o2\"")),
        _ => panic!("expected a request"),
    }
    let last = j(r#"{"code": 0, "data": {"has_more": false, "offset": "", "items": []}}"#);
    c.on_response(&last).unwrap();
    c.on_pause();
    assert!(matches!(c.next_action(), PostIdAction::RecordFetchTime(5)));
    c.on_recorded();
    assert!(matches!(c.next_action(), PostIdAction::Finished));
}

#[test]
fn post_list_pauses_after_five_refusals() {
    let mut c = PostIdCrawl::new(1, 0, "off".to_string());
    let refused = j(r#"{"code": -352}"#);
    for i in 0..5 {
        match c.on_response(&refused).unwrap() {
            PostListOutcome::Rejected { code } => assert_eq!(code, -352),
            _ => panic!("expected a refusal"),
        }
        if i < 4 {
            assert_eq!(c.phase, ListPhase::Request);
        }
    }
    assert_eq!(c.phase, ListPhase::Pause);
    assert_eq!(c.offset, "off");
    c.on_pause();
    assert_eq!(c.phase, ListPhase::Request);
}

#[test]
fn post_list_malformed_answers() {
    let mut c = PostIdCrawl::new(1, 0, String::new());
    assert_eq!(c.on_response(&j(r#"{}"#)).err(), Some(MalformedResponse::CodeNotInteger));
    assert_eq!(c.on_response(&j(r#"{"code": 0, "data": {}}"#)).err(), Some(MalformedResponse::HasMoreNotBool));
    assert_eq!(
        c.on_response(&j(r#"{"code": 0, "data": {"has_more": false}}"#)).err(),
        Some(MalformedResponse::OffsetNotText)
    );
    assert_eq!(
        c.on_response(&j(r#"{"code": 0, "data": {"has_more": false, "offset": ""}}"#)).err(),
        Some(MalformedResponse::ItemsNotArray)
    );
    assert_eq!(c.phase, ListPhase::Request);
}

fn pending(ids: &[u64]) -> Vec<PendingPost> {
    ids.iter().map(|id| PendingPost { post_id: *id, source: "src".to_string() }).collect()
}

#[test]
fn detail_crawl_outcomes() {
    let mut c = PostDetailCrawl::new(pending(&[11, 12]));
    match c.next_action() {
        DetailAction::Request { post_id, source, script } => {
            assert_eq!(post_id, 11);
            assert_eq!(source, "src");
            assert!(script.contains("const id = '11'"));
        }
        _ => panic!("expected a request"),
    }
    assert!(matches!(c.on_response(&j(r#"{"code": 500}"#)).unwrap(), DetailOutcome::Retry { post_id: 11, attempt: 0 }));
    assert!(matches!(c.on_response(&j(r#"{"code": -1024}"#)).unwrap(), DetailOutcome::Missing { post_id: 11 }));
    assert!(matches!(c.next_action(), DetailAction::Pause { failed_post: None }));
    c.on_pause();
    let answer = j(r#"{"code": 0, "data": {"item": {"id_str": "12",
        "modules": [{"module_type": "MODULE_TYPE_AUTHOR", "module_author": {"mid": 3, "name": "carol"}}]}}}"#);
    match c.on_response(&answer).unwrap() {
        DetailOutcome::Fetched { post_id, author_mid, author_name, item } => {
            assert_eq!((post_id, author_mid, author_name.as_str()), (12, 3, "carol"));
            assert_eq!(parse_dynamic_item(&item).id, 12);
        }
        _ => panic!("expected a fetched post"),
    }
    c.on_pause();
    assert_eq!(c.phase, DetailPhase::Done);
    assert!(matches!(c.next_action(), DetailAction::Finished));
}

#[test]
fn detail_crawl_gives_up_after_five_attempts() {
    let mut c = PostDetailCrawl::new(pending(&[4101152]));
    for i in 0..5u64 {
        match c.on_response(&j(r#"{"code": -352}"#)).unwrap() {
            DetailOutcome::Refused { code, attempt } => assert_eq!((code, attempt), (-352, i)),
            _ => panic!("expected a refusal"),
        }
    }
    assert!(matches!(c.next_action(), DetailAction::Pause { failed_post: Some(4101152) }));
    let mut c = PostDetailCrawl::new(pending(&[1]));
    assert!(matches!(c.on_response(&j(r#"{"code": 4101152}"#)).unwrap(), DetailOutcome::Missing { post_id: 1 }));
    let mut c = PostDetailCrawl::new(pending(&[1]));
    assert_eq!(c.on_response(&j(r#"{"code": 0, "data": {"item": {}}}"#)).err(), Some(MalformedResponse::NoAuthor));
    assert!(matches!(PostDetailCrawl::new(Vec::new()).next_action(), DetailAction::Finished));
}

#[test]
fn forwarded_post_is_fetched_only_for_forwards() {
    let fw = parse_dynamic_item(&j(r#"{"type": "DYNAMIC_TYPE_FORWARD", "orig": {"id_str": "9"}, "modules": {}}"#));
    assert_eq!(original_to_fetch(&fw), Some(9));
    let word = parse_dynamic_item(&j(r#"{"type": "DYNAMIC_TYPE_WORD", "modules": {}}"#));
    assert_eq!(original_to_fetch(&word), None);
}

#[test]
fn reply_tasks_from_posts() {
    let p = parse_dynamic_item(&j(r#"{"basic": {"comment_id_str": "77", "comment_type": 17}}"#));
    assert_eq!(reply_task_of(&p), Ok(Some((77, 17))));
    let none = parse_dynamic_item(&j(r#"{}"#));
    assert_eq!(reply_task_of(&none), Ok(None));
    let bad = parse_dynamic_item(&j(r#"{"basic": {"comment_id_str": "x", "comment_type": 17}}"#));
    assert_eq!(reply_task_of(&bad), Err(TaskError::CommentIdNotNumber));
    let untyped = parse_dynamic_item(&j(r#"{"basic": {"comment_id_str": "5"}}"#));
    assert_eq!(reply_task_of(&untyped), Err(TaskError::NoCommentType));
}

fn progress(page_num: u64, last: Option<u64>, blocked: bool) -> ReplyProgress {
    ReplyProgress { oid: 1, page_num, last_fetched_at: last, blocked }
}

#[test]
fn reply_crawl_start() {
    assert!(matches!(start_reply_crawl(0, 1, None, FetchMode::Refresh), ReplyStart::SkipZeroOid));
    assert!(matches!(start_reply_crawl(1, 1, Some(progress(3, None, true)), FetchMode::Resume), ReplyStart::SkipBlocked));
    assert!(matches!(start_reply_crawl(1, 1, Some(progress(3, Some(5), false)), FetchMode::Resume), ReplyStart::SkipCompleted));
    match start_reply_crawl(1, 11, Some(progress(3, None, false)), FetchMode::Resume) {
        ReplyStart::Crawl(c) => assert_eq!(c.page_num, 3),
        _ => panic!("expected a crawl"),
    }
    match start_reply_crawl(1, 11, Some(progress(3, Some(5), true)), FetchMode::Refresh) {
        ReplyStart::Crawl(c) => assert_eq!(c.page_num, 1),
        _ => panic!("expected a crawl"),
    }
    match start_reply_crawl(1, 11, None, FetchMode::Resume) {
        ReplyStart::Crawl(c) => {
            assert_eq!(c.page_num, 1);
            assert!(matches!(c.next_action(), ReplyAction::Request { oid: 1, type_val: 11, page_num: 1 }));
        }
        _ => panic!("expected a crawl"),
    }
}

fn crawl(mode: FetchMode) -> bili_crawler::fetch_reply::ReplyCrawl {
    match start_reply_crawl(1, 11, None, mode) {
        ReplyStart::Crawl(c) => c,
        _ => panic!("expected a crawl"),
    }
}

#[test]
fn reply_page_codes() {
    let mut c = crawl(FetchMode::Resume);
    assert!(matches!(c.on_response(&Json::Null).unwrap(), ReplyPageOutcome::Banned));
    assert_eq!(c.phase, ReplyPhase::Done);

    let mut c = crawl(FetchMode::Resume);
    assert!(matches!(c.on_response(&j(r#"{"code": 12061}"#)).unwrap(), ReplyPageOutcome::NoCommentArea));
    assert!(!c.has_more);
    c.on_pause();
    assert_eq!(c.phase, ReplyPhase::Done);

    let mut c = crawl(FetchMode::Resume);
    assert!(matches!(c.on_response(&j(r#"{"code": -400}"#)).unwrap(), ReplyPageOutcome::Blocked { record_blocked: true }));
    let mut c = crawl(FetchMode::Refresh);
    assert!(matches!(c.on_response(&j(r#"{"code": -400}"#)).unwrap(), ReplyPageOutcome::Blocked { record_blocked: false }));

    let mut c = crawl(FetchMode::Resume);
    assert!(matches!(c.on_response(&j(r#"{"code": -404}"#)).unwrap(), ReplyPageOutcome::NoReplies));
    let mut c = crawl(FetchMode::Resume);
    assert!(matches!(c.on_response(&j(r#"{"code": 412}"#)).unwrap(), ReplyPageOutcome::Banned));

    let mut c = crawl(FetchMode::Resume);
    for _ in 0..5 {
        assert!(matches!(c.on_response(&j(r#"{"code": -352}"#)).unwrap(), ReplyPageOutcome::Retry { code: -352 }));
        assert_eq!(c.phase, ReplyPhase::Request);
    }
    assert!(matches!(c.on_response(&j(r#"{"code": -352}"#)).unwrap(), ReplyPageOutcome::PageSkipped { code: -352 }));
    assert!(c.has_more);
    c.on_pause();
    assert_eq!((c.page_num, c.error_retry_count, c.phase), (2, 0, ReplyPhase::Request));

    let mut c = crawl(FetchMode::Resume);
    assert_eq!(c.on_response(&j(r#"{"code": "x"}"#)).err(), Some(MalformedResponse::CodeNotInteger));
    assert_eq!(c.phase, ReplyPhase::Request);

    let mut c = crawl(FetchMode::Resume);
    assert!(matches!(c.on_response(&j(r#"{"code": 0, "data": {"replies": null}}"#)).unwrap(), ReplyPageOutcome::Completed));
    assert!(!c.has_more);
}

#[test]
fn reply_page_records_and_refresh_threshold() {
    let page = j(r#"{"code": 0, "data": {"replies": [
        {"rpid_str": "100", "oid_str": "1", "type": 11, "ctime": 1700, "mid_str": "8", "parent_str": "0",
         "member": {"uname": "dan"}, "content": {"message": "hi"}, "like": 4, "reply_control": {"x": 1}},
        {"rpid_str": "oops"}
    ]}}"#);
    let mut c = crawl(FetchMode::Refresh);
    match c.on_response(&page).unwrap() {
        ReplyPageOutcome::Replies { records } => {
            assert_eq!(records.len(), 2);
            let r = &records[0];
            assert_eq!((r.rpid, r.oid, r.oid_type, r.ctime, r.uid, r.parent, r.like), (100, 1, 11, 1700, 8, 0, 4));
            assert_eq!((r.nickname.as_str(), r.content.as_str()), ("dan", "hi"));
            assert!(matches!(r.reply_control.get("x"), Some(Json::Number(JsonNumber::PosInt(1)))));
            assert_eq!(records[1].rpid, 0);
            assert_eq!(records[1].nickname, "");
        }
        _ => panic!("expected replies"),
    }
    assert_eq!(c.phase, ReplyPhase::AwaitSave);
    assert_eq!(c.on_saved(5, 3), PageEnd::Continue);
    c.on_pause();
    assert_eq!(c.page_num, 2);
    c.on_response(&page).unwrap();
    assert_eq!(c.on_saved(5, 4), PageEnd::CaughtUp);
    c.on_pause();
    assert_eq!(c.phase, ReplyPhase::Done);

    let mut c = crawl(FetchMode::Resume);
    c.on_response(&page).unwrap();
    assert_eq!(c.on_saved(5, 5), PageEnd::Continue);
    let mut c = crawl(FetchMode::Refresh);
    c.on_response(&page).unwrap();
    assert_eq!(c.on_saved(0, 0), PageEnd::Continue);
}

#[test]
fn reply_record_defaults() {
    let r = reply_record_of(&Json::Null);
    assert_eq!((r.rpid, r.oid, r.uid, r.like), (0, 0, 0, 0));
    assert!(matches!(r.reply_control, Json::Null));
}

#[test]
fn reply_tasks_collect_in_order_and_stop_at_bad_ids() {
    let posts = vec![
        j(r#"{"basic": {"comment_id_str": "1", "comment_type": 11}}"#),
        j(r#"{}"#),
        j(r#"{"basic": {"comment_id_str": "2", "comment_type": 17}}"#),
    ];
    assert_eq!(reply_tasks(&posts), Ok(vec![(1, 11), (2, 17)]));
    let bad = vec![j(r#"{"basic": {"comment_id_str": "1", "comment_type": 11}}"#), j(r#"{"basic": {"comment_id_str": "1"}}"#)];
    assert_eq!(reply_tasks(&bad), Err(TaskError::NoCommentType));
}

#[test]
fn forwarded_originals_of_stored_posts() {
    let posts = vec![
        j(r#"{"type": "DYNAMIC_TYPE_FORWARD", "orig": {"id_str": "9"}, "modules": {}}"#),
        j(r#"{"type": "DYNAMIC_TYPE_WORD", "modules": {}}"#),
        j(r#"{"type": "DYNAMIC_TYPE_FORWARD", "modules": {}}"#),
        j(r#"{"type": "DYNAMIC_TYPE_FORWARD", "modules": [{"module_type": "MODULE_TYPE_DYNAMIC",
            "module_dynamic": {"dyn_forward": {"item": {"id_str": "4"}}}}]}"#),
    ];
    assert_eq!(forwarded_originals(&posts), vec![9, 4]);
}

fn walk_queue_of(pages: &[Json], stop_at: u64) -> Vec<u64> {
    let mut c = PostIdCrawl::new(1, stop_at, String::new());
    let mut queued = Vec::new();
    for page in pages {
        match c.on_response(page).unwrap() {
            PostListOutcome::Page { queue, stopped_at } => {
                queued.extend(queue);
                if stopped_at.is_some() {
                    break;
                }
            }
            _ => panic!("expected a page"),
        }
        c.on_pause();
    }
    queued
}

#[test]
fn later_cutoff_queues_a_prefix() {
    let pages = vec![
        j(&format!(r#"{{"code": 0, "data": {{"has_more": true, "offset": "a", "items": [{}, {}]}}}}"#, post("1", 50), post("2", 40))),
        j(&format!(r#"{{"code": 0, "data": {{"has_more": false, "offset": "b", "items": [{}, {}]}}}}"#, post("3", 30), post("4", 60))),
    ];
    let all = walk_queue_of(&pages, 0);
    assert_eq!(all, vec![1, 2, 3, 4]);
    for cut in [10u64, 35, 45, 55, 100] {
        let q = walk_queue_of(&pages, cut);
        assert!(all.starts_with(&q), "cut-off {}", cut);
    }
    assert_eq!(walk_queue_of(&pages, 35), vec![1, 2]);
    assert_eq!(walk_queue_of(&pages, 45), vec![1]);
}

#[test]
fn cutoff_per_mode_and_thread_ids() {
    assert_eq!(post_list_cutoff(FetchMode::Resume), Cutoff::LastFetch);
    assert_eq!(post_list_cutoff(FetchMode::Refresh), Cutoff::Beginning);
    assert!(!names_thread(0));
    assert!(names_thread(7));
}

#[test]
fn answers_are_read_as_json_text() {
    let mut c = PostIdCrawl::new(1, 0, String::new());
    assert_eq!(c.on_answer("not json").err(), Some(MalformedResponse::NotJson));
    assert_eq!(c.phase, ListPhase::Request);
    match c.on_answer(r#"{"code": -352}"#).unwrap() {
        PostListOutcome::Rejected { code } => assert_eq!(code, -352),
        _ => panic!("expected a refusal"),
    }
    let mut d = PostDetailCrawl::new(pending(&[3]));
    assert!(matches!(d.on_answer(r#"{"code": -1024}"#).unwrap(), DetailOutcome::Missing { post_id: 3 }));
    let mut r = crawl(FetchMode::Resume);
    assert!(matches!(r.on_answer("null").unwrap(), ReplyPageOutcome::Banned));
    let mut r = crawl(FetchMode::Resume);
    assert_eq!(r.on_answer("{").err(), Some(MalformedResponse::NotJson));
    assert_eq!(r.phase, ReplyPhase::Request);
}

#[test]
fn parsed_numbers_keep_their_kind() {
    assert!(matches!(parse_json_text("18446744073709551615"), Some(Json::Number(JsonNumber::PosInt(u64::MAX)))));
    assert!(matches!(parse_json_text("-5"), Some(Json::Number(JsonNumber::NegInt(-5)))));
    match parse_json_text("1.5") {
        Some(Json::Number(JsonNumber::FloatBits(bits))) => assert_eq!(f64::from_bits(bits), 1.5),
        other => panic!("unexpected {:?}", other),
    }
    match parse_json_text(r#"{"b": 1, "a": [true, null, "x"]}"#) {
        Some(v) => {
            assert!(matches!(v.get("b"), Some(Json::Number(JsonNumber::PosInt(1)))));
            assert!(matches!(v.at("a"), Json::Array(items) if items.len() == 3));
        }
        None => panic!("expected a document"),
    }
    assert!(parse_json_text("").is_none());
}
