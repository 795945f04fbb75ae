//! The decisions of the reply crawler: which threads to crawl, where to
//! start, and what to do with each page of replies.
use vstd::prelude::*;
use crate::json::{Json, JsonModel, models_of, lemma_models_of, text_or, parse_json_text, json_text_model};
use crate::post_parser::{ParsedDynamicItem, parse_opt, parse_dynamic_item, parse_item_spec};
use crate::response::{response_code, response_code_of, ResponseCode, MalformedResponse};
use crate::text::{parse_u64, parse_u64_spec, decimal, law_decimal_roundtrip};
use crate::db::runtime_db::ReplyProgress;

verus! {

#[derive(Debug, Clone, Copy, PartialEq, Eq, Structural)]
pub enum FetchMode {
    /// Continue from the saved progress (the default).
    Resume,
    /// Start again from the first page.
    Refresh,
}

/// The fetch mode of the command line: `--refresh` starts over; anything
/// else, `--resume` included, resumes.
pub fn get_fetch_mode(_resume: bool, refresh: bool) -> (r: FetchMode)
    ensures
        r == (if refresh { FetchMode::Refresh } else { FetchMode::Resume }),
{
    if refresh {
        FetchMode::Refresh
    } else {
        FetchMode::Resume
    }
}

/// Why a stored post cannot give a reply thread; the crawler stops on
/// each.
#[derive(Debug, Clone, Copy, PartialEq, Eq, Structural)]
pub enum TaskError {
    /// The thread id is not a decimal number.
    CommentIdNotNumber,
    /// The thread has an id but no type.
    NoCommentType,
}

/// The reply thread `(oid, type)` of a parsed post, if it names one.
pub open spec fn reply_task_spec(comment_id: Option<Seq<char>>, comment_type: Option<u64>) -> Result<
    Option<(u64, u64)>,
    TaskError,
> {
    match comment_id {
        None => Ok(None),
        Some(cid) => match parse_u64_spec(cid) {
            None => Err(TaskError::CommentIdNotNumber),
            Some(oid) => match comment_type {
                None => Err(TaskError::NoCommentType),
                Some(t) => Ok(Some((oid, t))),
            },
        },
    }
}

pub fn reply_task_of(parsed: &ParsedDynamicItem) -> (r: Result<Option<(u64, u64)>, TaskError>)
    ensures
        r == reply_task_spec(parsed.comment_area@.comment_id, parsed.comment_area.comment_type),
{
    match &parsed.comment_area.comment_id {
        None => Ok(None),
        Some(cid) => match parse_u64(cid.as_str()) {
            None => Err(TaskError::CommentIdNotNumber),
            Some(oid) => match parsed.comment_area.comment_type {
                None => Err(TaskError::NoCommentType),
                Some(t) => Ok(Some((oid, t))),
            },
        },
    }
}

/// One reply as it is stored.
#[derive(Debug)]
pub struct ReplyRecord {
    pub rpid: u64,
    pub oid: u64,
    pub oid_type: u64,
    pub ctime: u64,
    pub uid: u64,
    pub parent: u64,
    pub nickname: String,
    pub content: String,
    pub like: u64,
    pub reply_control: Json,
}

pub struct ReplyRecordModel {
    pub rpid: u64,
    pub oid: u64,
    pub oid_type: u64,
    pub ctime: u64,
    pub uid: u64,
    pub parent: u64,
    pub nickname: Seq<char>,
    pub content: Seq<char>,
    pub like: u64,
    pub reply_control: JsonModel,
}

impl View for ReplyRecord {
    type V = ReplyRecordModel;

    open spec fn view(&self) -> ReplyRecordModel {
        ReplyRecordModel {
            rpid: self.rpid,
            oid: self.oid,
            oid_type: self.oid_type,
            ctime: self.ctime,
            uid: self.uid,
            parent: self.parent,
            nickname: self.nickname@,
            content: self.content@,
            like: self.like,
            reply_control: self.reply_control@,
        }
    }
}

pub open spec fn or_zero(o: Option<u64>) -> u64 {
    match o {
        Some(n) => n,
        None => 0,
    }
}

/// `j.as_str().unwrap_or("0").parse().unwrap_or(0)`.
pub open spec fn id_text_or_zero(j: JsonModel) -> u64 {
    or_zero(parse_u64_spec(text_or(j, "0"@)))
}

/// A reply of the API as a record: numbers that are missing or unreadable
/// are 0, texts that are missing are empty.
pub open spec fn record_of(item: JsonModel) -> ReplyRecordModel {
    ReplyRecordModel {
        rpid: id_text_or_zero(item.at("rpid_str"@)),
        oid: id_text_or_zero(item.at("oid_str"@)),
        oid_type: or_zero(item.at("type"@).as_u64()),
        ctime: or_zero(item.at("ctime"@).as_u64()),
        uid: or_zero(parse_opt(item.at("mid_str"@).as_str())),
        parent: or_zero(parse_opt(item.at("parent_str"@).as_str())),
        nickname: text_or(item.at("member"@).at("uname"@), Seq::empty()),
        content: text_or(item.at("content"@).at("message"@), Seq::empty()),
        like: or_zero(item.at("like"@).as_u64()),
        reply_control: item.at("reply_control"@),
    }
}

/// A reply whose id texts are the decimal texts of its numbers is stored
/// under those numbers, with its thread type, time and likes as given, and
/// with its author's name and its message.
pub proof fn law_record_reads_reply(
    item: JsonModel,
    rpid: u64,
    oid: u64,
    uid: u64,
    parent: u64,
    numbers: (u64, u64, u64),
    uname: Seq<char>,
    message: Seq<char>,
)
    requires
        item.at("rpid_str"@).as_str() == Some(decimal(rpid as nat)),
        item.at("oid_str"@).as_str() == Some(decimal(oid as nat)),
        item.at("mid_str"@).as_str() == Some(decimal(uid as nat)),
        item.at("parent_str"@).as_str() == Some(decimal(parent as nat)),
        item.at("type"@).as_u64() == Some(numbers.0),
        item.at("ctime"@).as_u64() == Some(numbers.1),
        item.at("like"@).as_u64() == Some(numbers.2),
        item.at("member"@).at("uname"@).as_str() == Some(uname),
        item.at("content"@).at("message"@).as_str() == Some(message),
    ensures
        record_of(item) == (ReplyRecordModel {
            rpid,
            oid,
            oid_type: numbers.0,
            ctime: numbers.1,
            uid,
            parent,
            nickname: uname,
            content: message,
            like: numbers.2,
            reply_control: item.at("reply_control"@),
        }),
{
    law_decimal_roundtrip(rpid);
    law_decimal_roundtrip(oid);
    law_decimal_roundtrip(uid);
    law_decimal_roundtrip(parent);
}

fn id_text_or_zero_of(j: &Json) -> (r: u64)
    ensures
        r == id_text_or_zero(j@),
{
    let t = match j.as_str() {
        Some(s) => s.clone(),
        None => "0".to_owned(),
    };
    match parse_u64(t.as_str()) {
        Some(n) => n,
        None => 0,
    }
}

fn number_text_or_zero_of(j: &Json) -> (r: u64)
    ensures
        r == or_zero(parse_opt(j@.as_str())),
{
    match j.as_str() {
        Some(s) => match parse_u64(s.as_str()) {
            Some(n) => n,
            None => 0,
        },
        None => 0,
    }
}

fn u64_or_zero(j: &Json) -> (r: u64)
    ensures
        r == or_zero(j@.as_u64()),
{
    match j.as_u64() {
        Some(n) => n,
        None => 0,
    }
}

/// Reads one reply of a page.
pub fn reply_record_of(item: &Json) -> (r: ReplyRecord)
    ensures
        r@ == record_of(item@),
{
    ReplyRecord {
        rpid: id_text_or_zero_of(item.at("rpid_str")),
        oid: id_text_or_zero_of(item.at("oid_str")),
        oid_type: u64_or_zero(item.at("type")),
        ctime: u64_or_zero(item.at("ctime")),
        uid: number_text_or_zero_of(item.at("mid_str")),
        parent: number_text_or_zero_of(item.at("parent_str")),
        nickname: item.at("member").at("uname").text_or_empty(),
        content: item.at("content").at("message").text_or_empty(),
        like: u64_or_zero(item.at("like")),
        reply_control: item.at("reply_control").deep_clone(),
    }
}

pub open spec fn records_view(v: Seq<ReplyRecord>) -> Seq<ReplyRecordModel> {
    v.map_values(|r: ReplyRecord| r@)
}

fn records_of(arr: &Vec<Json>) -> (r: Vec<ReplyRecord>)
    ensures
        records_view(r@) == models_of(arr@).map_values(|m: JsonModel| record_of(m)),
{
    proof {
        lemma_models_of(arr@);
    }
    let mut out: Vec<ReplyRecord> = Vec::new();
    let mut i: usize = 0;
    while i < arr.len()
        invariant
            0 <= i <= arr.len(),
            out@.len() == i,
            models_of(arr@).len() == arr@.len(),
            forall|j: int| 0 <= j < arr@.len() ==> #[trigger] models_of(arr@)[j] == arr@[j]@,
            forall|j: int| 0 <= j < i ==> #[trigger] out@[j]@ == record_of(arr@[j]@),
        decreases arr.len() - i,
    {
        let rec = reply_record_of(&arr[i]);
        out.push(rec);
        i = i + 1;
    }
    assert(records_view(out@) =~= models_of(arr@).map_values(|m: JsonModel| record_of(m)));
    out
}

/// How many refused requests for one page are retried before the page is
/// skipped.
pub const MAX_PAGE_RETRIES: u64 = 5;

#[derive(Debug, Clone, Copy, PartialEq, Eq, Structural)]
pub enum ReplyPhase {
    /// Send the request for the current page.
    Request,
    /// The replies of the page are being saved.
    AwaitSave,
    /// The page is settled: wait, then go on to the next one.
    Pause,
    Done,
}

/// The crawl of one reply thread, page by page.
pub struct ReplyCrawl {
    pub oid: u64,
    pub type_val: u64,
    pub mode: FetchMode,
    pub page_num: u64,
    pub has_more: bool,
    /// Refused requests for the current page.
    pub error_retry_count: u64,
    pub phase: ReplyPhase,
}

impl ReplyCrawl {
    pub open spec fn wf(&self) -> bool {
        &&& self.error_retry_count <= MAX_PAGE_RETRIES
        &&& self.phase == ReplyPhase::Request ==> self.has_more
        &&& self.phase == ReplyPhase::AwaitSave ==> self.has_more
    }
}

/// Whether a thread is crawled, and from which page.
pub enum ReplyStart {
    /// A thread id of 0 names no thread.
    SkipZeroOid,
    /// Resuming, and the thread is marked as giving no more replies.
    SkipBlocked,
    /// Resuming, and the thread has been crawled to its end before.
    SkipCompleted,
    Crawl(ReplyCrawl),
}

/// The page where a crawl begins: the saved page when resuming, else 1.
pub open spec fn start_page(progress: Option<ReplyProgress>, mode: FetchMode) -> u64 {
    match mode {
        FetchMode::Resume => match progress {
            Some(p) => p.page_num,
            None => 1,
        },
        FetchMode::Refresh => 1,
    }
}

/// Whether `oid` names a reply thread at all (0 does not); the saved
/// progress is only read for a thread that it names.
pub fn names_thread(oid: u64) -> (r: bool)
    ensures
        r == (oid != 0),
{
    oid != 0
}

/// Decides whether and where the thread `oid` is crawled, given its saved
/// progress.
pub fn start_reply_crawl(oid: u64, type_val: u64, progress: Option<ReplyProgress>, mode: FetchMode) -> (r: ReplyStart)
    ensures
        oid == 0 <==> r is SkipZeroOid,
        r is SkipBlocked <==> oid != 0 && mode == FetchMode::Resume && (progress matches Some(p) && p.blocked),
        r is SkipCompleted <==> oid != 0 && mode == FetchMode::Resume && (progress matches Some(p) && !p.blocked
            && p.last_fetched_at is Some),
        r matches ReplyStart::Crawl(c) ==> c.wf() && c.oid == oid && c.type_val == type_val && c.mode == mode
            && c.page_num == start_page(progress, mode) && c.has_more && c.error_retry_count == 0
            && c.phase == ReplyPhase::Request,
{
    if oid == 0 {
        return ReplyStart::SkipZeroOid;
    }
    if let FetchMode::Resume = mode {
        if let Some(p) = progress {
            if p.blocked {
                return ReplyStart::SkipBlocked;
            }
            if p.last_fetched_at.is_some() {
                return ReplyStart::SkipCompleted;
            }
        }
    }
    let page_num = match mode {
        FetchMode::Resume => match progress {
            Some(p) => p.page_num,
            None => 1,
        },
        FetchMode::Refresh => 1,
    };
    ReplyStart::Crawl(ReplyCrawl {
        oid,
        type_val,
        mode,
        page_num,
        has_more: true,
        error_retry_count: 0,
        phase: ReplyPhase::Request,
    })
}

pub enum ReplyAction {
    /// Fetch page `page_num` of thread `(oid, type_val)` and hand the answer
    /// to `on_response`.
    Request { oid: u64, type_val: u64, page_num: u64 },
    /// Sleep, then call `on_pause`.
    Pause,
    Finished,
}

/// What one answer for a page asks of the caller.
pub enum ReplyPageOutcome {
    /// The answer is empty, or the API refused with 412: the address is
    /// banned and the thread is given up.
    Banned,
    /// Codes 12002 and 12061: the post has no reply thread.
    NoCommentArea,
    /// Code -404: no replies, or only selected ones; report and wait for the
    /// user.
    NoReplies,
    /// Code -400: no further page can be had; when `record_blocked`, save the
    /// page with the thread marked as blocked.
    Blocked { record_blocked: bool },
    /// Another refusal, to be retried after reporting `code` and waiting for
    /// the user.
    Retry { code: i64 },
    /// Another refusal after the retries are used up: the page is skipped.
    PageSkipped { code: i64 },
    /// The page has no replies list: the thread is complete; record the page
    /// as the last one fetched.
    Completed,
    /// Save these replies, then report how many were already stored to
    /// `on_saved`.
    Replies { records: Vec<ReplyRecord> },
}

/// What the saved page asks of the caller.
#[derive(Debug, Clone, Copy, PartialEq, Eq, Structural)]
pub enum PageEnd {
    /// Refreshing, and most of the page was stored already: the earlier crawl
    /// has been reached. Record the page as the last one fetched.
    CaughtUp,
    /// Save the page as reached and go on.
    Continue,
}

/// The codes with which the API says that a post has no reply thread.
pub open spec fn is_no_thread_code(code: i64) -> bool {
    code == 12002 || code == 12061
}

/// Whether a refreshing crawl has caught up with the stored replies: at least
/// 80% of the replies of the page were stored already (`5 * duplicates >=
/// 4 * total`; for counts below 2^31 this agrees with the floating-point
/// test `duplicates as f64 / total as f64 >= 0.8`).
pub open spec fn caught_up(mode: FetchMode, total: u64, duplicates: u64) -> bool {
    mode == FetchMode::Refresh && total > 0 && 5 * duplicates >= 4 * total
}

/// What one answer `resp` to a page request does: the outcome `r` and the
/// new state `new` of a crawl that was `old`.
pub open spec fn reply_answer_post(
    old: ReplyCrawl,
    resp: JsonModel,
    r: Result<ReplyPageOutcome, MalformedResponse>,
    new: ReplyCrawl,
) -> bool {
    &&& (new.oid == old.oid)
    &&& (new.type_val == old.type_val)
    &&& (new.mode == old.mode)
    &&& (new.page_num == old.page_num)
    &&& (r matches Ok(ReplyPageOutcome::Retry { .. }) ==> new.error_retry_count == old.error_retry_count + 1)
    &&& (!(r matches Ok(ReplyPageOutcome::Retry { .. })) ==> new.error_retry_count == old.error_retry_count)
    &&& (r matches Ok(ReplyPageOutcome::Banned) ==> new.has_more == old.has_more)
    &&& (r is Err <==> !resp.is_null() && response_code_of(resp) is None)
    &&& (r is Err ==> new == old)
    &&& (resp.is_null() ==> (r matches Ok(ReplyPageOutcome::Banned) && new.phase == ReplyPhase::Done))
    &&& (!resp.is_null() ==> match response_code_of(resp) {
        None => r == Err::<ReplyPageOutcome, MalformedResponse>(MalformedResponse::CodeNotInteger),
        Some(ResponseCode::Failure(code)) => if is_no_thread_code(code) {
            r matches Ok(ReplyPageOutcome::NoCommentArea) && !new.has_more
                && new.phase == ReplyPhase::Pause
        } else if code == -404 {
            r matches Ok(ReplyPageOutcome::NoReplies) && !new.has_more
                && new.phase == ReplyPhase::Pause
        } else if code == -400 {
            r matches Ok(ReplyPageOutcome::Blocked { record_blocked })
                && record_blocked == (old.mode == FetchMode::Resume)
                && !new.has_more && new.phase == ReplyPhase::Pause
        } else if code == 412 {
            r matches Ok(ReplyPageOutcome::Banned) && new.phase == ReplyPhase::Done
        } else if old.error_retry_count >= MAX_PAGE_RETRIES {
            r == Ok::<ReplyPageOutcome, MalformedResponse>(ReplyPageOutcome::PageSkipped { code })
                && new.has_more == old.has_more
                && new.phase == ReplyPhase::Pause
        } else {
            r == Ok::<ReplyPageOutcome, MalformedResponse>(ReplyPageOutcome::Retry { code })
                && new.error_retry_count == old.error_retry_count + 1
                && new.has_more == old.has_more
                && new.phase == ReplyPhase::Request
        },
        Some(ResponseCode::Success) => match resp.at("data"@).get("replies"@) {
            Some(JsonModel::Array(items)) => (r matches Ok(ReplyPageOutcome::Replies { records })
                && records_view(records@) == items.map_values(|m: JsonModel| record_of(m)))
                && new.has_more && new.phase == ReplyPhase::AwaitSave,
            _ => r matches Ok(ReplyPageOutcome::Completed) && !new.has_more
                && new.phase == ReplyPhase::Pause,
        },
    })
}

impl ReplyCrawl {
    pub fn next_action(&self) -> (r: ReplyAction)
        requires
            self.phase != ReplyPhase::AwaitSave,
        ensures
            self.phase == ReplyPhase::Request ==> r == (ReplyAction::Request {
                oid: self.oid,
                type_val: self.type_val,
                page_num: self.page_num,
            }),
            self.phase == ReplyPhase::Pause ==> r is Pause,
            self.phase == ReplyPhase::Done ==> r is Finished,
    {
        match self.phase {
            ReplyPhase::Request => ReplyAction::Request {
                oid: self.oid,
                type_val: self.type_val,
                page_num: self.page_num,
            },
            ReplyPhase::Done => ReplyAction::Finished,
            _ => ReplyAction::Pause,
        }
    }

    /// Takes the answer to a `Request`.
    pub fn on_response(&mut self, resp: &Json) -> (r: Result<ReplyPageOutcome, MalformedResponse>)
        requires
            old(self).wf(),
            old(self).phase == ReplyPhase::Request,
        ensures
            final(self).wf(),
            reply_answer_post(*old(self), resp@, r, *final(self)),
            resp@.at("code"@).is_int(12002) || resp@.at("code"@).is_int(12061) ==> (r matches Ok(
                ReplyPageOutcome::NoCommentArea,
            )) && !final(self).has_more && final(self).phase == ReplyPhase::Pause,
    {
        if resp.is_null() {
            self.phase = ReplyPhase::Done;
            return Ok(ReplyPageOutcome::Banned);
        }
        match response_code(resp) {
            None => Err(MalformedResponse::CodeNotInteger),
            Some(ResponseCode::Failure(code)) => {
                if code == 12002 || code == 12061 {
                    self.has_more = false;
                    self.phase = ReplyPhase::Pause;
                    Ok(ReplyPageOutcome::NoCommentArea)
                } else if code == -404 {
                    self.has_more = false;
                    self.phase = ReplyPhase::Pause;
                    Ok(ReplyPageOutcome::NoReplies)
                } else if code == -400 {
                    self.has_more = false;
                    self.phase = ReplyPhase::Pause;
                    let record_blocked = match self.mode {
                        FetchMode::Resume => true,
                        FetchMode::Refresh => false,
                    };
                    Ok(ReplyPageOutcome::Blocked { record_blocked })
                } else if code == 412 {
                    self.phase = ReplyPhase::Done;
                    Ok(ReplyPageOutcome::Banned)
                } else if self.error_retry_count >= MAX_PAGE_RETRIES {
                    self.phase = ReplyPhase::Pause;
                    Ok(ReplyPageOutcome::PageSkipped { code })
                } else {
                    self.error_retry_count = self.error_retry_count + 1;
                    Ok(ReplyPageOutcome::Retry { code })
                }
            },
            Some(ResponseCode::Success) => {
                match resp.at("data").get("replies") {
                    Some(replies) => match replies.as_array() {
                        Some(items) => {
                            let records = records_of(items);
                            self.phase = ReplyPhase::AwaitSave;
                            return Ok(ReplyPageOutcome::Replies { records });
                        },
                        None => {},
                    },
                    None => {},
                }
                self.has_more = false;
                self.phase = ReplyPhase::Pause;
                Ok(ReplyPageOutcome::Completed)
            },
        }
    }

    /// Takes the answer text of a `Request`.
    pub fn on_answer(&mut self, text: &str) -> (r: Result<ReplyPageOutcome, MalformedResponse>)
        requires
            old(self).wf(),
            old(self).phase == ReplyPhase::Request,
        ensures
            final(self).wf(),
            match json_text_model(text@) {
                None => r == Err::<ReplyPageOutcome, MalformedResponse>(MalformedResponse::NotJson)
                    && *final(self) == *old(self),
                Some(resp) => reply_answer_post(*old(self), resp, r, *final(self)),
            },
    {
        match parse_json_text(text) {
            None => Err(MalformedResponse::NotJson),
            Some(resp) => self.on_response(&resp),
        }
    }

    /// Takes the number of replies on the saved page and how many of them
    /// were stored already.
    pub fn on_saved(&mut self, total: u64, duplicates: u64) -> (r: PageEnd)
        requires
            old(self).wf(),
            old(self).phase == ReplyPhase::AwaitSave,
            duplicates <= total <= 0x7fff_ffff,
        ensures
            final(self).wf(),
            final(self).phase == ReplyPhase::Pause,
            r == (if caught_up(old(self).mode, total, duplicates) { PageEnd::CaughtUp } else { PageEnd::Continue }),
            final(self).has_more == (r == PageEnd::Continue),
            old(self).mode == FetchMode::Refresh && total > 0 ==> (r == PageEnd::CaughtUp <==> 5 * duplicates
                >= 4 * total),
            old(self).mode == FetchMode::Resume ==> r == PageEnd::Continue,
            *final(self) == (ReplyCrawl { has_more: final(self).has_more, phase: ReplyPhase::Pause, ..*old(self) }),
    {
        self.phase = ReplyPhase::Pause;
        let refreshing = match self.mode {
            FetchMode::Refresh => true,
            FetchMode::Resume => false,
        };
        if refreshing && total > 0 && 5 * duplicates >= 4 * total {
            self.has_more = false;
            PageEnd::CaughtUp
        } else {
            PageEnd::Continue
        }
    }

    /// The pause after a page: the next page while there are more.
    pub fn on_pause(&mut self)
        requires
            old(self).wf(),
            old(self).phase == ReplyPhase::Pause,
        ensures
            final(self).wf(),
            old(self).page_num < u64::MAX ==> *final(self) == (ReplyCrawl {
                page_num: (old(self).page_num + 1) as u64,
                error_retry_count: 0,
                phase: if old(self).has_more { ReplyPhase::Request } else { ReplyPhase::Done },
                ..*old(self)
            }),
            old(self).page_num == u64::MAX ==> final(self).phase == ReplyPhase::Done,
    {
        if self.page_num == u64::MAX {
            self.phase = ReplyPhase::Done;
            return;
        }
        self.page_num = self.page_num + 1;
        self.error_retry_count = 0;
        self.phase = if self.has_more {
            ReplyPhase::Request
        } else {
            ReplyPhase::Done
        };
    }
}

/// A refreshing crawl starts at the first page whatever was saved; a resumed
/// one starts at the saved page.
pub proof fn law_start_page(progress: Option<ReplyProgress>, p: ReplyProgress)
    ensures
        start_page(progress, FetchMode::Refresh) == 1,
        start_page(Some(p), FetchMode::Resume) == p.page_num,
        start_page(None, FetchMode::Resume) == 1,
{
}

/// Only a refreshing crawl stops at stored replies, and a page with more
/// stored replies stops it no later than one with fewer.
pub proof fn law_caught_up(mode: FetchMode, total: u64, d1: u64, d2: u64)
    requires
        d1 <= d2 <= total,
    ensures
        !caught_up(FetchMode::Resume, total, d1),
        caught_up(mode, total, d1) ==> caught_up(mode, total, d2),
        caught_up(FetchMode::Refresh, total, total) <==> total > 0,
{
}

/// An answer with code 12002 or 12061 (the post has no comment area) ends
/// the thread: it is reported as having no comment area, no further page is
/// fetched, and the crawl pauses on its way to the end.
pub proof fn law_no_comment_area_ends_thread(
    old: ReplyCrawl,
    resp: JsonModel,
    r: Result<ReplyPageOutcome, MalformedResponse>,
    new: ReplyCrawl,
)
    requires
        reply_answer_post(old, resp, r, new),
        resp.at("code"@).is_int(12002) || resp.at("code"@).is_int(12061),
    ensures
        r matches Ok(ReplyPageOutcome::NoCommentArea),
        !new.has_more,
        new.phase == ReplyPhase::Pause,
        new.page_num == old.page_num,
        new.error_retry_count == old.error_retry_count,
{
}

/// The answers that end a thread by their code: -404 (no replies) and -400
/// (no further page, recorded as blocked only when resuming) pause and then
/// end the thread; 412, and an empty answer, mean that the address is banned
/// and end the crawl at once.
pub proof fn law_refusals_that_end_thread(
    old: ReplyCrawl,
    resp: JsonModel,
    r: Result<ReplyPageOutcome, MalformedResponse>,
    new: ReplyCrawl,
)
    requires
        reply_answer_post(old, resp, r, new),
    ensures
        resp.at("code"@).is_int(-404i64) ==> (r matches Ok(ReplyPageOutcome::NoReplies)) && !new.has_more
            && new.phase == ReplyPhase::Pause,
        resp.at("code"@).is_int(-400i64) ==> (r matches Ok(ReplyPageOutcome::Blocked { record_blocked })
            && record_blocked == (old.mode == FetchMode::Resume)) && !new.has_more
            && new.phase == ReplyPhase::Pause,
        resp.at("code"@).is_int(412) ==> (r matches Ok(ReplyPageOutcome::Banned)) && new.phase == ReplyPhase::Done,
        resp.is_null() ==> (r matches Ok(ReplyPageOutcome::Banned)) && new.phase == ReplyPhase::Done,
{
}

/// Any other failure code asks for the same page again, counting one more
/// retry, until the retries are used up; then the page is skipped and the
/// crawl goes on with the next one.
pub proof fn law_other_refusal_retries_page(
    old: ReplyCrawl,
    resp: JsonModel,
    r: Result<ReplyPageOutcome, MalformedResponse>,
    new: ReplyCrawl,
    code: i64,
)
    requires
        old.phase == ReplyPhase::Request,
        reply_answer_post(old, resp, r, new),
        resp.at("code"@).is_int(code),
        code != 0 && code != 12002 && code != 12061 && code != -404 && code != -400 && code != 412,
    ensures
        old.error_retry_count < MAX_PAGE_RETRIES ==> r == Ok::<ReplyPageOutcome, MalformedResponse>(
            ReplyPageOutcome::Retry { code },
        ) && new == (ReplyCrawl { error_retry_count: (old.error_retry_count + 1) as u64, ..old }),
        old.error_retry_count >= MAX_PAGE_RETRIES ==> r == Ok::<ReplyPageOutcome, MalformedResponse>(
            ReplyPageOutcome::PageSkipped { code },
        ) && new == (ReplyCrawl { phase: ReplyPhase::Pause, ..old }),
{
}

/// A refreshing crawl has caught up with the stored replies exactly when at
/// least 80% of a non-empty page was stored already; a resumed crawl never
/// stops on stored replies.
pub proof fn law_caught_up_at_eighty_percent(total: u64, duplicates: u64)
    ensures
        total > 0 ==> (caught_up(FetchMode::Refresh, total, duplicates) <==> 100 * duplicates >= 80 * total),
        total > 0 && 100 * duplicates < 80 * total ==> !caught_up(FetchMode::Refresh, total, duplicates),
        !caught_up(FetchMode::Resume, total, duplicates),
        !caught_up(FetchMode::Refresh, 0, duplicates),
{
}

/// A post whose thread id is the decimal text of `oid` and whose thread type
/// is `t` gives the reply thread `(oid, t)`.
pub proof fn law_reply_task_of_decimal_id(oid: u64, t: u64)
    ensures
        reply_task_spec(Some(decimal(oid as nat)), Some(t)) == Ok::<Option<(u64, u64)>, TaskError>(Some((oid, t))),
{
    law_decimal_roundtrip(oid);
}

/// The reply threads of the stored posts, in the order of the posts; the
/// first post that names an unreadable thread stops the collection.
pub open spec fn reply_tasks_spec(posts: Seq<JsonModel>) -> Result<Seq<(u64, u64)>, TaskError>
    decreases posts.len(),
{
    if posts.len() == 0 {
        Ok(Seq::empty())
    } else {
        match reply_tasks_spec(posts.drop_last()) {
            Err(e) => Err(e),
            Ok(front) => {
                let area = parse_item_spec(posts.last()).comment_area;
                match reply_task_spec(area.comment_id, area.comment_type) {
                    Err(e) => Err(e),
                    Ok(None) => Ok(front),
                    Ok(Some(t)) => Ok(front.push(t)),
                }
            },
        }
    }
}

/// Collects the reply threads `(oid, type)` of the stored posts.
pub fn reply_tasks(posts: &Vec<Json>) -> (r: Result<Vec<(u64, u64)>, TaskError>)
    ensures
        match reply_tasks_spec(models_of(posts@)) {
            Ok(ts) => r matches Ok(v) && v@ == ts,
            Err(e) => r == Err::<Vec<(u64, u64)>, TaskError>(e),
        },
{
    let ghost ms = models_of(posts@);
    proof {
        lemma_models_of(posts@);
    }
    let mut out: Vec<(u64, u64)> = Vec::new();
    let mut i: usize = 0;
    assert(ms.take(0) =~= Seq::<JsonModel>::empty());
    while i < posts.len()
        invariant
            0 <= i <= posts.len(),
            ms == models_of(posts@),
            ms.len() == posts@.len(),
            forall|j: int| 0 <= j < posts@.len() ==> #[trigger] ms[j] == posts@[j]@,
            reply_tasks_spec(ms.take(i as int)) == Ok::<Seq<(u64, u64)>, TaskError>(out@),
        decreases posts.len() - i,
    {
        assert(ms.take(i + 1).drop_last() == ms.take(i as int));
        assert(ms.take(i + 1).last() == ms[i as int]);
        let parsed = parse_dynamic_item(&posts[i]);
        match reply_task_of(&parsed) {
            Err(e) => {
                proof {
                    lemma_tasks_error_persists(ms, i as int + 1, e);
                }
                return Err(e);
            },
            Ok(None) => {},
            Ok(Some(t)) => {
                out.push(t);
            },
        }
        i = i + 1;
    }
    assert(ms.take(posts@.len() as int) == ms);
    Ok(out)
}

proof fn lemma_tasks_error_persists(ms: Seq<JsonModel>, k: int, e: TaskError)
    requires
        0 <= k <= ms.len(),
        reply_tasks_spec(ms.take(k)) == Err::<Seq<(u64, u64)>, TaskError>(e),
    ensures
        reply_tasks_spec(ms) == Err::<Seq<(u64, u64)>, TaskError>(e),
    decreases ms.len(),
{
    if k < ms.len() {
        assert(ms.drop_last().take(k) == ms.take(k));
        lemma_tasks_error_persists(ms.drop_last(), k, e);
    } else {
        assert(ms.take(k) == ms);
    }
}

} // verus!
