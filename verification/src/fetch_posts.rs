//! The decisions of the post crawler: walking a user's post list page by
//! page down to a cut-off time, and fetching each queued post.
use vstd::prelude::*;
use crate::json::{Json, JsonModel, models_of, lemma_models_of, parse_json_text, json_text_model};
use crate::post_parser::{parse_dynamic_item, parse_item_spec, ParsedItemModel, DynamicType, ParsedDynamicItem};
use crate::response::{response_code, response_code_of, ResponseCode, MalformedResponse};
use crate::scripts::{post_list_script, post_detail_script, POST_LIST_SCRIPT_HEAD, POST_LIST_SCRIPT_TAIL, POST_DETAIL_SCRIPT_HEAD, POST_DETAIL_SCRIPT_TAIL};
use crate::text::{decimal, mission_info_text};
use crate::db::runtime_db::{PendingPost, PendingPostModel};
use crate::fetch_reply::FetchMode;

verus! {

/// How many times a request is sent before the crawler pauses.
pub const MAX_ATTEMPTS: u64 = 5;

/// The publish time that decides whether a post is older than the cut-off;
/// a post without one counts as time 0.
pub open spec fn publish_time_or_zero(p: ParsedItemModel) -> u64 {
    match p.publish_time {
        Some(t) => t,
        None => 0,
    }
}

pub open spec fn too_old(item: JsonModel, stop_at: u64) -> bool {
    publish_time_or_zero(parse_item_spec(item)) < stop_at
}

/// Scans one page of the post list: the ids to queue, and the id of the
/// first post older than `stop_at`, where the scan stops.
pub open spec fn page_scan(items: Seq<JsonModel>, stop_at: u64) -> (Seq<u64>, Option<u64>)
    decreases items.len(),
{
    if items.len() == 0 {
        (Seq::empty(), None)
    } else if too_old(items[0], stop_at) {
        (Seq::empty(), Some(parse_item_spec(items[0]).id))
    } else {
        let rest = page_scan(items.drop_first(), stop_at);
        (seq![parse_item_spec(items[0]).id] + rest.0, rest.1)
    }
}

/// The ids that a page queues are those of its longest run of leading posts
/// that are not older than `stop_at`; the scan reports a stop exactly when
/// that run ends before the page does, and then names the post that ended it.
pub proof fn law_page_scan_takes_recent_prefix(items: Seq<JsonModel>, stop_at: u64)
    ensures
        ({
            let (queue, stop) = page_scan(items, stop_at);
            let m = queue.len() as int;
            &&& m <= items.len()
            &&& forall|j: int| 0 <= j < m ==> #[trigger] queue[j] == parse_item_spec(items[j]).id
            &&& forall|j: int| 0 <= j < m ==> !too_old(#[trigger] items[j], stop_at)
            &&& (stop is Some <==> m < items.len())
            &&& stop is Some ==> too_old(items[m], stop_at) && stop == Some(parse_item_spec(items[m]).id)
        }),
    decreases items.len(),
{
    if items.len() > 0 && !too_old(items[0], stop_at) {
        let rest = items.drop_first();
        law_page_scan_takes_recent_prefix(rest, stop_at);
        let (queue, stop) = page_scan(items, stop_at);
        let (q2, s2) = page_scan(rest, stop_at);
        assert forall|j: int| 0 <= j < queue.len() implies #[trigger] queue[j] == parse_item_spec(items[j]).id by {
            if j > 0 {
                assert(queue[j] == q2[j - 1]);
                assert(rest[j - 1] == items[j]);
            }
        }
        assert forall|j: int| 0 <= j < queue.len() implies !too_old(#[trigger] items[j], stop_at) by {
            if j > 0 {
                assert(rest[j - 1] == items[j]);
            }
        }
        if stop is Some {
            assert(rest[q2.len() as int] == items[queue.len() as int]);
        }
    }
}

/// `a` is a prefix of `b`.
pub open spec fn is_prefix(a: Seq<u64>, b: Seq<u64>) -> bool {
    a.len() <= b.len() && forall|i: int| 0 <= i < a.len() ==> #[trigger] a[i] == b[i]
}

/// The ids of all posts of a page, in order.
pub open spec fn page_ids(items: Seq<JsonModel>) -> Seq<u64> {
    items.map_values(|i: JsonModel| parse_item_spec(i).id)
}

/// The ids that a walk queues when the API answers with these pages (the
/// items of each page, in order): page by page, until the first post older
/// than `stop_at`.
pub open spec fn walk_queue(pages: Seq<Seq<JsonModel>>, stop_at: u64) -> Seq<u64>
    decreases pages.len(),
{
    if pages.len() == 0 {
        Seq::empty()
    } else {
        let (queue, stop) = page_scan(pages[0], stop_at);
        if stop is Some {
            queue
        } else {
            queue + walk_queue(pages.drop_first(), stop_at)
        }
    }
}

/// The ids of all posts of all pages, in order.
pub open spec fn all_ids(pages: Seq<Seq<JsonModel>>) -> Seq<u64>
    decreases pages.len(),
{
    if pages.len() == 0 {
        Seq::empty()
    } else {
        page_ids(pages[0]) + all_ids(pages.drop_first())
    }
}

/// On one page, a later cut-off queues a prefix of what an earlier one
/// queues, and stops wherever the earlier one stops; where the later one
/// does not stop, both queue the same ids. With cut-off 0 every post of the
/// page is queued.
pub proof fn law_page_scan_cutoff_monotone(items: Seq<JsonModel>, s1: u64, s2: u64)
    requires
        s1 <= s2,
    ensures
        is_prefix(page_scan(items, s2).0, page_scan(items, s1).0),
        page_scan(items, s1).1 is Some ==> page_scan(items, s2).1 is Some,
        page_scan(items, s2).1 is None ==> page_scan(items, s2).0 == page_scan(items, s1).0,
        page_scan(items, 0) == (page_ids(items), None::<u64>),
    decreases items.len(),
{
    if items.len() > 0 {
        let rest = items.drop_first();
        law_page_scan_cutoff_monotone(rest, s1, s2);
        let (q1, t1) = page_scan(rest, s1);
        let (q2, t2) = page_scan(rest, s2);
        let id = parse_item_spec(items[0]).id;
        if !too_old(items[0], s2) {
            assert(!too_old(items[0], s1));
            assert forall|i: int| 0 <= i < (seq![id] + q2).len() implies #[trigger] (seq![id] + q2)[i] == (seq![id] + q1)[i] by {
                if i > 0 {
                    assert((seq![id] + q2)[i] == q2[i - 1]);
                    assert((seq![id] + q1)[i] == q1[i - 1]);
                }
            }
        }
        assert(!too_old(items[0], 0));
        assert(page_ids(items) =~= seq![id] + page_ids(rest));
    } else {
        assert(page_ids(items) =~= Seq::<u64>::empty());
    }
}

/// Of two walks that get the same answers, the one with the later cut-off
/// queues a prefix of the ids that the other queues; a walk with cut-off 0
/// queues every post of every page.
pub proof fn law_later_cutoff_queues_prefix(pages: Seq<Seq<JsonModel>>, s1: u64, s2: u64)
    requires
        s1 <= s2,
    ensures
        is_prefix(walk_queue(pages, s2), walk_queue(pages, s1)),
        walk_queue(pages, 0) == all_ids(pages),
    decreases pages.len(),
{
    if pages.len() > 0 {
        let rest = pages.drop_first();
        law_later_cutoff_queues_prefix(rest, s1, s2);
        law_page_scan_cutoff_monotone(pages[0], s1, s2);
        let (q1, t1) = page_scan(pages[0], s1);
        let (q2, t2) = page_scan(pages[0], s2);
        let w1 = walk_queue(pages, s1);
        let w2 = walk_queue(pages, s2);
        if t2 is Some {
            assert forall|i: int| 0 <= i < w2.len() implies #[trigger] w2[i] == w1[i] by {
                assert(w2[i] == q2[i]);
                assert(q2[i] == q1[i]);
                if t1 is None {
                    assert(w1[i] == (q1 + walk_queue(rest, s1))[i]);
                }
            }
        } else {
            assert(q2 == q1);
            let r1 = walk_queue(rest, s1);
            let r2 = walk_queue(rest, s2);
            assert forall|i: int| 0 <= i < w2.len() implies #[trigger] w2[i] == w1[i] by {
                if i < q2.len() {
                    assert(w2[i] == q2[i]);
                    assert(w1[i] == q1[i]);
                } else {
                    assert(w2[i] == r2[i - q2.len()]);
                    assert(w1[i] == r1[i - q1.len()]);
                }
            }
        }
        law_page_scan_cutoff_monotone(pages[0], 0, 0);
    }
}

/// Where the cut-off of a post-list walk comes from.
#[derive(Clone, Copy, Debug, PartialEq, Eq, Structural)]
pub enum Cutoff {
    /// The stored time of the source's last completed walk.
    LastFetch,
    /// Time 0: every post is queued.
    Beginning,
}

/// Resuming walks down to the last completed walk; refreshing walks the
/// whole list.
pub fn post_list_cutoff(mode: FetchMode) -> (r: Cutoff)
    ensures
        r == (if mode == FetchMode::Resume { Cutoff::LastFetch } else { Cutoff::Beginning }),
{
    match mode {
        FetchMode::Resume => Cutoff::LastFetch,
        FetchMode::Refresh => Cutoff::Beginning,
    }
}

#[derive(Clone, Copy, Debug, PartialEq, Eq, Structural)]
pub enum ListPhase {
    /// Send the request for the current page.
    Request,
    /// Wait before the next round.
    Pause,
    /// The list is exhausted: record the fetch time of the source.
    Record,
    Done,
}

/// The walk over one user's post list.
pub struct PostIdCrawl {
    pub source_id: u64,
    pub stop_at: u64,
    pub has_more: bool,
    pub offset: String,
    /// Failed requests in the current round.
    pub attempt: u64,
    pub phase: ListPhase,
}

pub struct PostIdCrawlModel {
    pub source_id: u64,
    pub stop_at: u64,
    pub has_more: bool,
    pub offset: Seq<char>,
    pub attempt: u64,
    pub phase: ListPhase,
}

impl View for PostIdCrawl {
    type V = PostIdCrawlModel;

    open spec fn view(&self) -> PostIdCrawlModel {
        PostIdCrawlModel {
            source_id: self.source_id,
            stop_at: self.stop_at,
            has_more: self.has_more,
            offset: self.offset@,
            attempt: self.attempt,
            phase: self.phase,
        }
    }
}

/// What the crawler does next.
pub enum PostIdAction {
    /// Run this script in the page and hand its answer to `on_response`.
    Request(String),
    /// Sleep, then call `on_pause`.
    Pause,
    /// Record that this source has been crawled now, then call `on_recorded`.
    RecordFetchTime(u64),
    Finished,
}

/// What one answer of the post list asks of the caller.
pub enum PostListOutcome {
    /// The API refused with this code: report it and wait for the user.
    Rejected { code: i64 },
    /// Queue these posts in order; if `stopped_at` names a post, that post is
    /// older than the cut-off and the walk is over.
    Page { queue: Vec<u64>, stopped_at: Option<u64> },
}

pub enum PostListOutcomeModel {
    Rejected { code: i64 },
    Page { queue: Seq<u64>, stopped_at: Option<u64> },
}

impl View for PostListOutcome {
    type V = PostListOutcomeModel;

    open spec fn view(&self) -> PostListOutcomeModel {
        match self {
            PostListOutcome::Rejected { code } => PostListOutcomeModel::Rejected { code: *code },
            PostListOutcome::Page { queue, stopped_at } => PostListOutcomeModel::Page {
                queue: queue@,
                stopped_at: *stopped_at,
            },
        }
    }
}

impl PostIdCrawlModel {
    pub open spec fn wf(self) -> bool {
        &&& self.attempt < MAX_ATTEMPTS
        &&& self.phase == ListPhase::Request ==> self.has_more
        &&& self.phase == ListPhase::Record ==> !self.has_more
    }
}

/// The state after one answer of the post list, and what it asks of the
/// caller.
pub open spec fn list_step(s: PostIdCrawlModel, resp: JsonModel) -> Result<
    (PostIdCrawlModel, PostListOutcomeModel),
    MalformedResponse,
> {
    match response_code_of(resp) {
        None => Err(MalformedResponse::CodeNotInteger),
        Some(ResponseCode::Failure(code)) => {
            let exhausted = s.attempt + 1 >= MAX_ATTEMPTS;
            Ok(
                (
                    PostIdCrawlModel {
                        attempt: if exhausted { 0 } else { (s.attempt + 1) as u64 },
                        phase: if exhausted { ListPhase::Pause } else { ListPhase::Request },
                        ..s
                    },
                    PostListOutcomeModel::Rejected { code },
                ),
            )
        },
        Some(ResponseCode::Success) => {
            let data = resp.at("data"@);
            match data.at("has_more"@).as_bool() {
                None => Err(MalformedResponse::HasMoreNotBool),
                Some(has_more) => match data.at("offset"@).as_str() {
                    None => Err(MalformedResponse::OffsetNotText),
                    Some(offset) => match data.at("items"@).as_array() {
                        None => Err(MalformedResponse::ItemsNotArray),
                        Some(items) => {
                            let (queue, stop) = page_scan(items, s.stop_at);
                            Ok(
                                (
                                    PostIdCrawlModel {
                                        has_more,
                                        offset,
                                        attempt: 0,
                                        phase: if stop is Some { ListPhase::Done } else { ListPhase::Pause },
                                        ..s
                                    },
                                    PostListOutcomeModel::Page { queue, stopped_at: stop },
                                ),
                            )
                        },
                    },
                },
            }
        },
    }
}

fn scan_page(items: &Vec<Json>, stop_at: u64) -> (r: (Vec<u64>, Option<u64>))
    ensures
        (r.0@, r.1) == page_scan(models_of(items@), stop_at),
{
    let ghost ms = models_of(items@);
    proof {
        lemma_models_of(items@);
    }
    let mut queue: Vec<u64> = Vec::new();
    let mut i: usize = 0;
    assert(ms.skip(0) == ms);
    while i < items.len()
        invariant
            0 <= i <= items.len(),
            ms == models_of(items@),
            ms.len() == items@.len(),
            forall|j: int| 0 <= j < items@.len() ==> #[trigger] ms[j] == items@[j]@,
            page_scan(ms, stop_at) == (queue@ + page_scan(ms.skip(i as int), stop_at).0, page_scan(ms.skip(i as int), stop_at).1),
        decreases items.len() - i,
    {
        assert(ms.skip(i as int).drop_first() == ms.skip(i + 1));
        assert(ms.skip(i as int)[0] == ms[i as int]);
        let parsed = parse_dynamic_item(&items[i]);
        let publish_time = match parsed.publish_time {
            Some(t) => t,
            None => 0,
        };
        if publish_time < stop_at {
            assert(queue@ + Seq::<u64>::empty() == queue@);
            return (queue, Some(parsed.id));
        }
        let ghost before = queue@;
        queue.push(parsed.id);
        assert(before + (seq![parsed.id] + page_scan(ms.skip(i + 1), stop_at).0) == queue@ + page_scan(ms.skip(i + 1), stop_at).0);
        i = i + 1;
    }
    assert(ms.skip(items@.len() as int) =~= Seq::<JsonModel>::empty());
    assert(queue@ + Seq::<u64>::empty() == queue@);
    (queue, None)
}

impl PostIdCrawl {
    /// Starts the walk at `base_offset`, queueing posts down to the publish
    /// time `stop_at`.
    pub fn new(source_id: u64, stop_at: u64, base_offset: String) -> (r: PostIdCrawl)
        ensures
            r@ == (PostIdCrawlModel {
                source_id,
                stop_at,
                has_more: true,
                offset: base_offset@,
                attempt: 0,
                phase: ListPhase::Request,
            }),
            r@.wf(),
    {
        PostIdCrawl { source_id, stop_at, has_more: true, offset: base_offset, attempt: 0, phase: ListPhase::Request }
    }

    pub fn next_action(&self) -> (r: PostIdAction)
        requires
            self@.wf(),
        ensures
            self.phase == ListPhase::Request ==> (r matches PostIdAction::Request(script)
                && script@ == POST_LIST_SCRIPT_HEAD@ + mission_info_text(self.source_id, self.offset@) + POST_LIST_SCRIPT_TAIL@),
            self.phase == ListPhase::Pause ==> r is Pause,
            self.phase == ListPhase::Record ==> r == PostIdAction::RecordFetchTime(self.source_id),
            self.phase == ListPhase::Done ==> r is Finished,
            r is RecordFetchTime ==> !self.has_more,
    {
        match self.phase {
            ListPhase::Request => PostIdAction::Request(post_list_script(self.source_id, self.offset.as_str())),
            ListPhase::Pause => PostIdAction::Pause,
            ListPhase::Record => PostIdAction::RecordFetchTime(self.source_id),
            ListPhase::Done => PostIdAction::Finished,
        }
    }

    /// Takes the answer to a `Request`.
    pub fn on_response(&mut self, resp: &Json) -> (r: Result<PostListOutcome, MalformedResponse>)
        requires
            old(self)@.wf(),
            old(self).phase == ListPhase::Request,
        ensures
            final(self)@.wf(),
            match list_step(old(self)@, resp@) {
                Ok((s, out)) => r matches Ok(o) && o@ == out && final(self)@ == s,
                Err(e) => r == Err::<PostListOutcome, MalformedResponse>(e) && final(self)@ == old(self)@,
            },
    {
        match response_code(resp) {
            None => Err(MalformedResponse::CodeNotInteger),
            Some(ResponseCode::Failure(code)) => {
                if self.attempt + 1 >= MAX_ATTEMPTS {
                    self.attempt = 0;
                    self.phase = ListPhase::Pause;
                } else {
                    self.attempt = self.attempt + 1;
                }
                Ok(PostListOutcome::Rejected { code })
            },
            Some(ResponseCode::Success) => {
                let data = resp.at("data");
                let has_more = match data.at("has_more").as_bool() {
                    Some(b) => b,
                    None => {
                        return Err(MalformedResponse::HasMoreNotBool);
                    },
                };
                let offset = match data.at("offset").as_str() {
                    Some(o) => o.clone(),
                    None => {
                        return Err(MalformedResponse::OffsetNotText);
                    },
                };
                let items = match data.at("items").as_array() {
                    Some(v) => v,
                    None => {
                        return Err(MalformedResponse::ItemsNotArray);
                    },
                };
                let (queue, stopped_at) = scan_page(items, self.stop_at);
                self.has_more = has_more;
                self.offset = offset;
                self.attempt = 0;
                self.phase = if stopped_at.is_some() {
                    ListPhase::Done
                } else {
                    ListPhase::Pause
                };
                Ok(PostListOutcome::Page { queue, stopped_at })
            },
        }
    }

    /// Takes the answer text of a `Request`.
    pub fn on_answer(&mut self, text: &str) -> (r: Result<PostListOutcome, MalformedResponse>)
        requires
            old(self)@.wf(),
            old(self).phase == ListPhase::Request,
        ensures
            final(self)@.wf(),
            match json_text_model(text@) {
                None => r == Err::<PostListOutcome, MalformedResponse>(MalformedResponse::NotJson)
                    && final(self)@ == old(self)@,
                Some(resp) => match list_step(old(self)@, resp) {
                    Ok((s, out)) => r matches Ok(o) && o@ == out && final(self)@ == s,
                    Err(e) => r == Err::<PostListOutcome, MalformedResponse>(e) && final(self)@ == old(self)@,
                },
            },
    {
        match parse_json_text(text) {
            None => Err(MalformedResponse::NotJson),
            Some(resp) => self.on_response(&resp),
        }
    }

    /// The pause after a round is over: the next page if there is one, else
    /// the fetch time is recorded.
    pub fn on_pause(&mut self)
        requires
            old(self)@.wf(),
            old(self).phase == ListPhase::Pause,
        ensures
            final(self)@.wf(),
            final(self)@ == (PostIdCrawlModel {
                phase: if old(self).has_more { ListPhase::Request } else { ListPhase::Record },
                ..old(self)@
            }),
    {
        self.phase = if self.has_more {
            ListPhase::Request
        } else {
            ListPhase::Record
        };
    }

    pub fn on_recorded(&mut self)
        requires
            old(self)@.wf(),
            old(self).phase == ListPhase::Record,
        ensures
            final(self)@.wf(),
            final(self)@ == (PostIdCrawlModel { phase: ListPhase::Done, ..old(self)@ }),
    {
        self.phase = ListPhase::Done;
    }
}

#[derive(Clone, Copy, Debug, PartialEq, Eq, Structural)]
pub enum DetailPhase {
    /// Send the request for the current post.
    Request,
    /// The current post is settled: wait before the next one.
    Pause,
    Done,
}

/// The fetch of each queued post in turn.
pub struct PostDetailCrawl {
    pub posts: Vec<PendingPost>,
    /// The current post.
    pub index: usize,
    /// Failed requests for the current post.
    pub attempt: u64,
    /// Whether the current post has been settled (saved or found missing).
    pub succeeded: bool,
    pub phase: DetailPhase,
}

pub struct PostDetailCrawlModel {
    pub posts: Seq<PendingPostModel>,
    pub index: int,
    pub attempt: u64,
    pub succeeded: bool,
    pub phase: DetailPhase,
}

impl View for PostDetailCrawl {
    type V = PostDetailCrawlModel;

    open spec fn view(&self) -> PostDetailCrawlModel {
        PostDetailCrawlModel {
            posts: self.posts@.map_values(|p: PendingPost| p@),
            index: self.index as int,
            attempt: self.attempt,
            succeeded: self.succeeded,
            phase: self.phase,
        }
    }
}

impl PostDetailCrawlModel {
    pub open spec fn wf(self) -> bool {
        &&& 0 <= self.index <= self.posts.len()
        &&& self.attempt < MAX_ATTEMPTS
        &&& self.phase == DetailPhase::Done <==> self.index == self.posts.len()
        &&& self.phase == DetailPhase::Request ==> !self.succeeded
    }

    pub open spec fn current_id(self) -> u64 {
        self.posts[self.index].post_id
    }
}

pub enum DetailAction {
    /// Run `script` in the page to fetch post `post_id` of `source`, and hand
    /// the answer to `on_response`.
    Request { post_id: u64, source: String, script: String },
    /// Report `failed_post` if it is given, sleep, then call `on_pause`.
    Pause { failed_post: Option<u64> },
    Finished,
}

/// What one answer for a post asks of the caller.
pub enum DetailOutcome {
    /// The API asks for a retry (code 500); `attempt` requests have failed.
    Retry { post_id: u64, attempt: u64 },
    /// The post does not exist: drop it from the queue.
    Missing { post_id: u64 },
    /// Any other refusal: report `code` and wait for the user.
    Refused { code: i64, attempt: u64 },
    /// Save `item` as post `post_id` of author `author_mid`, then drop the
    /// post from the queue.
    Fetched { post_id: u64, author_mid: u64, author_name: String, item: Json },
}

pub enum DetailOutcomeModel {
    Retry { post_id: u64, attempt: u64 },
    Missing { post_id: u64 },
    Refused { code: i64, attempt: u64 },
    Fetched { post_id: u64, author_mid: u64, author_name: Seq<char>, item: JsonModel },
}

impl View for DetailOutcome {
    type V = DetailOutcomeModel;

    open spec fn view(&self) -> DetailOutcomeModel {
        match self {
            DetailOutcome::Retry { post_id, attempt } => DetailOutcomeModel::Retry { post_id: *post_id, attempt: *attempt },
            DetailOutcome::Missing { post_id } => DetailOutcomeModel::Missing { post_id: *post_id },
            DetailOutcome::Refused { code, attempt } => DetailOutcomeModel::Refused { code: *code, attempt: *attempt },
            DetailOutcome::Fetched { post_id, author_mid, author_name, item } => DetailOutcomeModel::Fetched {
                post_id: *post_id,
                author_mid: *author_mid,
                author_name: author_name@,
                item: item@,
            },
        }
    }
}

/// Codes with which the API says that a post does not exist.
pub open spec fn is_missing_code(code: i64) -> bool {
    code == -1024 || code == 4101152
}

/// The state after a failed request: another try, or a pause once the
/// attempts are used up.
pub open spec fn after_failure(s: PostDetailCrawlModel) -> PostDetailCrawlModel {
    let exhausted = s.attempt + 1 >= MAX_ATTEMPTS;
    PostDetailCrawlModel {
        attempt: if exhausted { 0 } else { (s.attempt + 1) as u64 },
        phase: if exhausted { DetailPhase::Pause } else { DetailPhase::Request },
        ..s
    }
}

pub open spec fn settled(s: PostDetailCrawlModel) -> PostDetailCrawlModel {
    PostDetailCrawlModel { attempt: 0, succeeded: true, phase: DetailPhase::Pause, ..s }
}

/// The state after one answer for the current post, and what it asks of the
/// caller.
pub open spec fn detail_step(s: PostDetailCrawlModel, resp: JsonModel) -> Result<
    (PostDetailCrawlModel, DetailOutcomeModel),
    MalformedResponse,
> {
    let post_id = s.current_id();
    match response_code_of(resp) {
        None => Err(MalformedResponse::CodeNotInteger),
        Some(ResponseCode::Failure(code)) => if code == 500 {
            Ok((after_failure(s), DetailOutcomeModel::Retry { post_id, attempt: s.attempt }))
        } else if is_missing_code(code) {
            Ok((settled(s), DetailOutcomeModel::Missing { post_id }))
        } else {
            Ok((after_failure(s), DetailOutcomeModel::Refused { code, attempt: s.attempt }))
        },
        Some(ResponseCode::Success) => {
            let item = resp.at("data"@).at("item"@);
            match parse_item_spec(item).author {
                None => Err(MalformedResponse::NoAuthor),
                Some(a) => Ok(
                    (
                        settled(s),
                        DetailOutcomeModel::Fetched { post_id, author_mid: a.mid, author_name: a.name, item },
                    ),
                ),
            }
        },
    }
}

impl PostDetailCrawl {
    /// Starts with the first of `posts`.
    pub fn new(posts: Vec<PendingPost>) -> (r: PostDetailCrawl)
        ensures
            r@.wf(),
            r@.posts == posts@.map_values(|p: PendingPost| p@),
            r@.index == 0,
            r@.attempt == 0,
            !r@.succeeded,
            r@.phase == (if posts@.len() == 0 { DetailPhase::Done } else { DetailPhase::Request }),
    {
        let phase = if posts.len() == 0 {
            DetailPhase::Done
        } else {
            DetailPhase::Request
        };
        PostDetailCrawl { posts, index: 0, attempt: 0, succeeded: false, phase }
    }

    pub fn next_action(&self) -> (r: DetailAction)
        requires
            self@.wf(),
        ensures
            self.phase == DetailPhase::Request ==> (r matches DetailAction::Request { post_id, source, script }
                && post_id == self@.current_id()
                && source@ == self@.posts[self@.index].source
                && script@ == POST_DETAIL_SCRIPT_HEAD@ + decimal(post_id as nat) + POST_DETAIL_SCRIPT_TAIL@),
            self.phase == DetailPhase::Pause ==> r == (DetailAction::Pause {
                failed_post: if self.succeeded { None } else { Some(self@.current_id()) },
            }),
            self.phase == DetailPhase::Done ==> r is Finished,
    {
        match self.phase {
            DetailPhase::Request => {
                let post = &self.posts[self.index];
                DetailAction::Request {
                    post_id: post.post_id,
                    source: post.source.clone(),
                    script: post_detail_script(post.post_id),
                }
            },
            DetailPhase::Pause => {
                let failed_post = if self.succeeded {
                    None
                } else {
                    Some(self.posts[self.index].post_id)
                };
                DetailAction::Pause { failed_post }
            },
            DetailPhase::Done => DetailAction::Finished,
        }
    }

    /// Takes the answer to a `Request`.
    pub fn on_response(&mut self, resp: &Json) -> (r: Result<DetailOutcome, MalformedResponse>)
        requires
            old(self)@.wf(),
            old(self).phase == DetailPhase::Request,
        ensures
            final(self)@.wf(),
            match detail_step(old(self)@, resp@) {
                Ok((s, out)) => r matches Ok(o) && o@ == out && final(self)@ == s,
                Err(e) => r == Err::<DetailOutcome, MalformedResponse>(e) && final(self)@ == old(self)@,
            },
    {
        let post_id = self.posts[self.index].post_id;
        match response_code(resp) {
            None => Err(MalformedResponse::CodeNotInteger),
            Some(ResponseCode::Failure(code)) => {
                if code == -1024 || code == 4101152 {
                    self.attempt = 0;
                    self.succeeded = true;
                    self.phase = DetailPhase::Pause;
                    return Ok(DetailOutcome::Missing { post_id });
                }
                let attempt = self.attempt;
                if self.attempt + 1 >= MAX_ATTEMPTS {
                    self.attempt = 0;
                    self.phase = DetailPhase::Pause;
                } else {
                    self.attempt = self.attempt + 1;
                }
                if code == 500 {
                    Ok(DetailOutcome::Retry { post_id, attempt })
                } else {
                    Ok(DetailOutcome::Refused { code, attempt })
                }
            },
            Some(ResponseCode::Success) => {
                let item = resp.at("data").at("item");
                let parsed = parse_dynamic_item(item);
                match parsed.author {
                    None => Err(MalformedResponse::NoAuthor),
                    Some(author) => {
                        self.attempt = 0;
                        self.succeeded = true;
                        self.phase = DetailPhase::Pause;
                        Ok(DetailOutcome::Fetched {
                            post_id,
                            author_mid: author.mid,
                            author_name: author.name,
                            item: item.deep_clone(),
                        })
                    },
                }
            },
        }
    }

    /// Takes the answer text of a `Request`.
    pub fn on_answer(&mut self, text: &str) -> (r: Result<DetailOutcome, MalformedResponse>)
        requires
            old(self)@.wf(),
            old(self).phase == DetailPhase::Request,
        ensures
            final(self)@.wf(),
            match json_text_model(text@) {
                None => r == Err::<DetailOutcome, MalformedResponse>(MalformedResponse::NotJson)
                    && final(self)@ == old(self)@,
                Some(resp) => match detail_step(old(self)@, resp) {
                    Ok((s, out)) => r matches Ok(o) && o@ == out && final(self)@ == s,
                    Err(e) => r == Err::<DetailOutcome, MalformedResponse>(e) && final(self)@ == old(self)@,
                },
            },
    {
        match parse_json_text(text) {
            None => Err(MalformedResponse::NotJson),
            Some(resp) => self.on_response(&resp),
        }
    }

    /// Moves on to the next post after the pause.
    pub fn on_pause(&mut self)
        requires
            old(self)@.wf(),
            old(self).phase == DetailPhase::Pause,
        ensures
            final(self)@.wf(),
            final(self)@ == (PostDetailCrawlModel {
                index: old(self)@.index + 1,
                attempt: 0,
                succeeded: false,
                phase: if old(self)@.index + 1 < old(self)@.posts.len() { DetailPhase::Request } else { DetailPhase::Done },
                ..old(self)@
            }),
    {
        assert(self@.posts.len() == self.posts@.len());
        assert(self@.phase != DetailPhase::Done);
        assert(self.index < self.posts.len());
        self.index = self.index + 1;
        self.attempt = 0;
        self.succeeded = false;
        self.phase = if self.index < self.posts.len() {
            DetailPhase::Request
        } else {
            DetailPhase::Done
        };
    }
}

/// An answer with code 500 asks for the same post again: while attempts are
/// left, the crawl stays on that post in phase `Request` with one more failed
/// attempt counted; after the last attempt it pauses and reports the post as
/// failed. Either way the outcome is a retry of the current post.
pub proof fn law_retry_code_asks_same_post_again(s: PostDetailCrawlModel, resp: JsonModel)
    requires
        s.wf(),
        s.phase == DetailPhase::Request,
        resp.at("code"@).is_int(500),
    ensures
        s.attempt + 1 < MAX_ATTEMPTS ==> (detail_step(s, resp) matches Ok((n, o))
            && n == (PostDetailCrawlModel { attempt: (s.attempt + 1) as u64, ..s })
            && n.phase == DetailPhase::Request && n.index == s.index
            && o == (DetailOutcomeModel::Retry { post_id: s.current_id(), attempt: s.attempt })),
        s.attempt + 1 >= MAX_ATTEMPTS ==> (detail_step(s, resp) matches Ok((n, o))
            && n == (PostDetailCrawlModel { attempt: 0, phase: DetailPhase::Pause, ..s })
            && !n.succeeded
            && o == (DetailOutcomeModel::Retry { post_id: s.current_id(), attempt: s.attempt })),
{
}

/// Code 500 moves the crawl exactly as any other refusal that does not say
/// the post is missing: only the reported outcome differs.
pub proof fn law_retry_code_moves_like_refusal(s: PostDetailCrawlModel, r1: JsonModel, r2: JsonModel, code: i64)
    requires
        s.wf(),
        s.phase == DetailPhase::Request,
        r1.at("code"@).is_int(500),
        r2.at("code"@).is_int(code),
        code != 0 && code != 500 && code != -1024 && code != 4101152,
    ensures
        detail_step(s, r1) matches Ok((n1, _)) && detail_step(s, r2) matches Ok((n2, o2)) && n1 == n2
            && o2 == (DetailOutcomeModel::Refused { code, attempt: s.attempt }),
{
}

/// Codes -1024 and 4101152 say that the post does not exist: it is settled
/// at once, reported missing, and the crawl pauses before the next post.
pub proof fn law_missing_post_is_settled(s: PostDetailCrawlModel, resp: JsonModel)
    requires
        s.wf(),
        s.phase == DetailPhase::Request,
        resp.at("code"@).is_int(-1024i64) || resp.at("code"@).is_int(4101152),
    ensures
        detail_step(s, resp) matches Ok((n, o))
            && n == (PostDetailCrawlModel { attempt: 0, succeeded: true, phase: DetailPhase::Pause, ..s })
            && o == (DetailOutcomeModel::Missing { post_id: s.current_id() }),
{
}

/// For a post that forwards another one: the id of the forwarded post, which
/// is fetched too unless it is already stored.
pub fn original_to_fetch(parsed: &ParsedDynamicItem) -> (r: Option<u64>)
    ensures
        r == (if parsed.dynamic_type == DynamicType::Forward { parsed.original_post_id } else { None }),
{
    match parsed.dynamic_type {
        DynamicType::Forward => parsed.original_post_id,
        _ => None,
    }
}

/// A page that reaches a post older than the cut-off ends the walk at once:
/// the fetch time of the source is then not recorded.
pub proof fn law_early_stop_ends_walk(s: PostIdCrawlModel, resp: JsonModel)
    requires
        list_step(s, resp) matches Ok((_, PostListOutcomeModel::Page { stopped_at: Some(_), .. })),
    ensures
        list_step(s, resp).unwrap().0.phase == ListPhase::Done,
{
}

/// A refused request of the post list is sent again with one more failed
/// attempt counted, until the attempts are used up; then the walk pauses
/// and tries the same page again afterwards.
pub proof fn law_list_refusal_retries_same_page(s: PostIdCrawlModel, resp: JsonModel, code: i64)
    requires
        s.wf(),
        s.phase == ListPhase::Request,
        resp.at("code"@).is_int(code),
        code != 0,
    ensures
        s.attempt + 1 < MAX_ATTEMPTS ==> (list_step(s, resp) matches Ok((n, o))
            && n == (PostIdCrawlModel { attempt: (s.attempt + 1) as u64, ..s })
            && n.phase == ListPhase::Request
            && o == (PostListOutcomeModel::Rejected { code })),
        s.attempt + 1 >= MAX_ATTEMPTS ==> (list_step(s, resp) matches Ok((n, o))
            && n == (PostIdCrawlModel { attempt: 0, phase: ListPhase::Pause, ..s })
            && n.has_more
            && o == (PostListOutcomeModel::Rejected { code })),
{
}

/// A readable page moves the walk to the page's `offset` and `has_more`,
/// clears the failed attempts, and queues the page's posts down to the
/// cut-off; the walk then pauses, or ends where it reached an older post.
pub proof fn law_page_answer_advances_walk(s: PostIdCrawlModel, resp: JsonModel)
    requires
        is_page_answer(resp),
    ensures
        list_step(s, resp) matches Ok((n, PostListOutcomeModel::Page { queue, stopped_at }))
            && n.offset == resp.at("data"@).at("offset"@).as_str().unwrap()
            && n.has_more == resp.at("data"@).at("has_more"@).as_bool().unwrap()
            && n.attempt == 0
            && n.source_id == s.source_id && n.stop_at == s.stop_at
            && (queue, stopped_at) == page_scan(answer_items(resp), s.stop_at)
            && n.phase == (if stopped_at is Some { ListPhase::Done } else { ListPhase::Pause }),
{
}

/// A refused request leaves the page where it was: the same offset is asked
/// for again, and no post is queued.
pub proof fn law_refusal_keeps_offset(s: PostIdCrawlModel, resp: JsonModel)
    requires
        list_step(s, resp) matches Ok((_, PostListOutcomeModel::Rejected { .. })),
    ensures
        list_step(s, resp).unwrap().0.offset == s.offset,
        list_step(s, resp).unwrap().0.has_more == s.has_more,
{
}

/// The forwarded posts named by the stored posts, in the order of the posts.
pub open spec fn forwarded_originals_spec(posts: Seq<JsonModel>) -> Seq<u64>
    decreases posts.len(),
{
    if posts.len() == 0 {
        Seq::empty()
    } else {
        let front = forwarded_originals_spec(posts.drop_last());
        let p = parse_item_spec(posts.last());
        match (p.dynamic_type, p.original_post_id) {
            (DynamicType::Forward, Some(id)) => front.push(id),
            _ => front,
        }
    }
}

/// The ids of the posts that the stored forwards forward; each is fetched
/// unless it is stored already.
pub fn forwarded_originals(posts: &Vec<Json>) -> (r: Vec<u64>)
    ensures
        r@ == forwarded_originals_spec(models_of(posts@)),
{
    let ghost ms = models_of(posts@);
    proof {
        lemma_models_of(posts@);
    }
    let mut out: Vec<u64> = Vec::new();
    let mut i: usize = 0;
    assert(ms.take(0) =~= Seq::<JsonModel>::empty());
    while i < posts.len()
        invariant
            0 <= i <= posts.len(),
            ms == models_of(posts@),
            ms.len() == posts@.len(),
            forall|j: int| 0 <= j < posts@.len() ==> #[trigger] ms[j] == posts@[j]@,
            out@ == forwarded_originals_spec(ms.take(i as int)),
        decreases posts.len() - i,
    {
        assert(ms.take(i + 1).drop_last() == ms.take(i as int));
        assert(ms.take(i + 1).last() == ms[i as int]);
        let parsed = parse_dynamic_item(&posts[i]);
        match original_to_fetch(&parsed) {
            Some(id) => out.push(id),
            None => {},
        }
        i = i + 1;
    }
    assert(ms.take(posts@.len() as int) == ms);
    out
}

/// The ids that a run of the walk queues when its requests get these
/// answers in turn: each answer goes through `list_step`; a refusal queues
/// nothing, a page queues its ids, and the run ends at a stop or at an
/// answer that cannot be read.
pub open spec fn run_queue(s: PostIdCrawlModel, resps: Seq<JsonModel>) -> Seq<u64>
    decreases resps.len(),
{
    if resps.len() == 0 {
        Seq::empty()
    } else {
        match list_step(s, resps[0]) {
            Err(_) => Seq::empty(),
            Ok((next, PostListOutcomeModel::Rejected { .. })) => run_queue(next, resps.drop_first()),
            Ok((next, PostListOutcomeModel::Page { queue, stopped_at })) => if stopped_at is Some {
                queue
            } else {
                queue + run_queue(next, resps.drop_first())
            },
        }
    }
}

/// An answer that is a readable page of the post list.
pub open spec fn is_page_answer(resp: JsonModel) -> bool {
    let data = resp.at("data"@);
    &&& response_code_of(resp) == Some(ResponseCode::Success)
    &&& data.at("has_more"@).as_bool() is Some
    &&& data.at("offset"@).as_str() is Some
    &&& data.at("items"@).as_array() is Some
}

/// The posts of a page answer.
pub open spec fn answer_items(resp: JsonModel) -> Seq<JsonModel> {
    resp.at("data"@).at("items"@).as_array().unwrap()
}

/// A run whose answers are all pages queues exactly what `walk_queue` says
/// of those pages at the run's cut-off.
pub proof fn law_run_is_walk(s: PostIdCrawlModel, resps: Seq<JsonModel>)
    requires
        forall|i: int| 0 <= i < resps.len() ==> is_page_answer(#[trigger] resps[i]),
    ensures
        run_queue(s, resps) == walk_queue(resps.map_values(|r: JsonModel| answer_items(r)), s.stop_at),
    decreases resps.len(),
{
    let pages = resps.map_values(|r: JsonModel| answer_items(r));
    if resps.len() > 0 {
        assert(is_page_answer(resps[0]));
        let rest = resps.drop_first();
        assert forall|i: int| 0 <= i < rest.len() implies is_page_answer(#[trigger] rest[i]) by {
            assert(rest[i] == resps[i + 1]);
        }
        assert(pages.drop_first() =~= rest.map_values(|r: JsonModel| answer_items(r)));
        match list_step(s, resps[0]) {
            Ok((next, _)) => {
                law_run_is_walk(next, rest);
            },
            Err(_) => {},
        }
    }
}

/// Of two runs that get the same answers and differ only in their cut-off,
/// the one with the later cut-off queues a prefix of what the other queues,
/// refusals and all.
pub proof fn law_run_later_cutoff_queues_prefix(s1: PostIdCrawlModel, s2: PostIdCrawlModel, resps: Seq<JsonModel>)
    requires
        s1.stop_at <= s2.stop_at,
        s1 == (PostIdCrawlModel { stop_at: s1.stop_at, ..s2 }),
    ensures
        is_prefix(run_queue(s2, resps), run_queue(s1, resps)),
    decreases resps.len(),
{
    if resps.len() > 0 {
        let resp = resps[0];
        let rest = resps.drop_first();
        let r1 = run_queue(s1, resps);
        let r2 = run_queue(s2, resps);
        match list_step(s2, resp) {
            Err(_) => {},
            Ok((n2, PostListOutcomeModel::Rejected { .. })) => {
                let n1 = list_step(s1, resp).unwrap().0;
                law_run_later_cutoff_queues_prefix(n1, n2, rest);
            },
            Ok((n2, PostListOutcomeModel::Page { queue: q2, stopped_at: t2 })) => {
                let items = resp.at("data"@).at("items"@).as_array().unwrap();
                law_page_scan_cutoff_monotone(items, s1.stop_at, s2.stop_at);
                let (n1, o1) = list_step(s1, resp).unwrap();
                let q1 = page_scan(items, s1.stop_at).0;
                let t1 = page_scan(items, s1.stop_at).1;
                if t2 is Some {
                    assert forall|i: int| 0 <= i < r2.len() implies #[trigger] r2[i] == r1[i] by {
                        assert(r2[i] == q2[i]);
                        if t1 is None {
                            assert(r1[i] == (q1 + run_queue(n1, rest))[i]);
                        }
                    }
                } else {
                    law_run_later_cutoff_queues_prefix(n1, n2, rest);
                    let w1 = run_queue(n1, rest);
                    let w2 = run_queue(n2, rest);
                    assert forall|i: int| 0 <= i < r2.len() implies #[trigger] r2[i] == r1[i] by {
                        if i < q2.len() {
                            assert(r2[i] == q2[i]);
                            assert(r1[i] == q1[i]);
                        } else {
                            assert(r2[i] == w2[i - q2.len()]);
                            assert(r1[i] == w1[i - q1.len()]);
                        }
                    }
                }
            },
        }
    }
}

/// Whether a stored post is a forward that names the post it forwards.
pub open spec fn names_original(p: JsonModel) -> bool {
    parse_item_spec(p).dynamic_type == DynamicType::Forward && parse_item_spec(p).original_post_id is Some
}

/// The forwarded posts named by the stored posts are exactly the named
/// originals of the forwards among them, in the order of the posts, with no
/// further condition on them.
pub proof fn law_forwarded_originals_are_named_originals(posts: Seq<JsonModel>)
    ensures
        forwarded_originals_spec(posts) == posts.filter(|p: JsonModel| names_original(p)).map_values(
            |p: JsonModel| parse_item_spec(p).original_post_id.unwrap(),
        ),
    decreases posts.len(),
{
    reveal(Seq::filter);
    let pred = |p: JsonModel| names_original(p);
    let f = |p: JsonModel| parse_item_spec(p).original_post_id.unwrap();
    if posts.len() > 0 {
        law_forwarded_originals_are_named_originals(posts.drop_last());
        let front = posts.drop_last().filter(pred);
        if pred(posts.last()) {
            assert(posts.filter(pred) == front.push(posts.last()));
            assert(front.push(posts.last()).map_values(f) =~= front.map_values(f).push(f(posts.last())));
        } else {
            assert(posts.filter(pred) == front);
        }
    } else {
        assert(posts.filter(pred).map_values(f) =~= Seq::<u64>::empty());
    }
}

/// A single forward that names post `n` queues exactly `n`.
pub proof fn law_single_forward_queues_its_original(post: JsonModel, n: u64)
    requires
        parse_item_spec(post).dynamic_type == DynamicType::Forward,
        parse_item_spec(post).original_post_id == Some(n),
    ensures
        forwarded_originals_spec(seq![post]) == seq![n],
{
    assert(seq![post].drop_last() =~= Seq::<JsonModel>::empty());
    assert(forwarded_originals_spec(Seq::<JsonModel>::empty()) == Seq::<u64>::empty());
    assert(seq![post].last() == post);
    assert(Seq::<u64>::empty().push(n) =~= seq![n]);
}

} // verus!
