//! Reading a post ("dynamic") of the Bilibili feed API, in both the new
//! layout (a list of typed modules) and the old one (an object of modules).
use vstd::prelude::*;
use crate::json::{
    Json, JsonModel, models_of, lemma_models_of, opt_model, opt_at, opt_get, opt_as_str, text_or,
    opt_string_view, member_of, get_in, opt_text_owned,
};
use crate::text::{parse_u64_spec, parse_u64, same_text, decimal, law_decimal_roundtrip};

verus! {

#[derive(Clone, Copy, Debug, PartialEq, Eq, Structural)]
pub enum DynamicType {
    Forward,
    Video,
    Image,
    Text,
    Other,
}

#[derive(Debug)]
pub struct AuthorInfo {
    pub mid: u64,
    pub name: String,
    pub face: String,
}

#[derive(Debug)]
pub struct VideoInfo {
    pub title: String,
    pub description: String,
    pub cover: String,
    pub jump_url: String,
    pub duration: String,
    pub avid: String,
    pub bvid: String,
    pub stats: Json,
}

#[derive(Debug)]
pub struct ReserveInfo {
    pub title: String,
    pub publish_time_text: String,
    pub total: u64,
    pub jump_url: String,
}

#[derive(Debug)]
pub struct CommentArea {
    pub comment_id: Option<String>,
    pub comment_type: Option<u64>,
}

#[derive(Debug)]
pub struct ParsedDynamicItem {
    pub id: u64,
    pub author: Option<AuthorInfo>,
    pub publish_time: Option<u64>,
    pub publish_time_text: Option<String>,
    pub dynamic_type: DynamicType,
    pub original_post_id: Option<u64>,
    pub video_info: Option<VideoInfo>,
    pub image_urls: Option<Vec<String>>,
    pub content: Option<String>,
    pub reserve_info: Option<ReserveInfo>,
    pub comment_area: CommentArea,
}

pub struct AuthorModel {
    pub mid: u64,
    pub name: Seq<char>,
    pub face: Seq<char>,
}

pub struct VideoModel {
    pub title: Seq<char>,
    pub description: Seq<char>,
    pub cover: Seq<char>,
    pub jump_url: Seq<char>,
    pub duration: Seq<char>,
    pub avid: Seq<char>,
    pub bvid: Seq<char>,
    pub stats: JsonModel,
}

pub struct ReserveModel {
    pub title: Seq<char>,
    pub publish_time_text: Seq<char>,
    pub total: u64,
    pub jump_url: Seq<char>,
}

pub struct CommentAreaModel {
    pub comment_id: Option<Seq<char>>,
    pub comment_type: Option<u64>,
}

pub struct ParsedItemModel {
    pub id: u64,
    pub author: Option<AuthorModel>,
    pub publish_time: Option<u64>,
    pub publish_time_text: Option<Seq<char>>,
    pub dynamic_type: DynamicType,
    pub original_post_id: Option<u64>,
    pub video_info: Option<VideoModel>,
    pub image_urls: Option<Seq<Seq<char>>>,
    pub content: Option<Seq<char>>,
    pub reserve_info: Option<ReserveModel>,
    pub comment_area: CommentAreaModel,
}

/// The kind-dependent part of a post: its kind, the post it forwards, its
/// video, its images and its text.
pub struct BodyModel {
    pub dynamic_type: DynamicType,
    pub original_post_id: Option<u64>,
    pub video_info: Option<VideoModel>,
    pub image_urls: Option<Seq<Seq<char>>>,
    pub content: Option<Seq<char>>,
}

impl View for AuthorInfo {
    type V = AuthorModel;

    open spec fn view(&self) -> AuthorModel {
        AuthorModel { mid: self.mid, name: self.name@, face: self.face@ }
    }
}

impl View for VideoInfo {
    type V = VideoModel;

    open spec fn view(&self) -> VideoModel {
        VideoModel {
            title: self.title@,
            description: self.description@,
            cover: self.cover@,
            jump_url: self.jump_url@,
            duration: self.duration@,
            avid: self.avid@,
            bvid: self.bvid@,
            stats: self.stats@,
        }
    }
}

impl View for ReserveInfo {
    type V = ReserveModel;

    open spec fn view(&self) -> ReserveModel {
        ReserveModel {
            title: self.title@,
            publish_time_text: self.publish_time_text@,
            total: self.total,
            jump_url: self.jump_url@,
        }
    }
}

impl View for CommentArea {
    type V = CommentAreaModel;

    open spec fn view(&self) -> CommentAreaModel {
        CommentAreaModel {
            comment_id: opt_string_view(self.comment_id),
            comment_type: self.comment_type,
        }
    }
}

pub open spec fn opt_author_view(o: Option<AuthorInfo>) -> Option<AuthorModel> {
    match o {
        Some(a) => Some(a@),
        None => None,
    }
}

pub open spec fn opt_video_view(o: Option<VideoInfo>) -> Option<VideoModel> {
    match o {
        Some(v) => Some(v@),
        None => None,
    }
}

pub open spec fn opt_reserve_view(o: Option<ReserveInfo>) -> Option<ReserveModel> {
    match o {
        Some(r) => Some(r@),
        None => None,
    }
}

pub open spec fn strings_view(v: Seq<String>) -> Seq<Seq<char>> {
    v.map_values(|s: String| s@)
}

pub open spec fn opt_strings_view(o: Option<Vec<String>>) -> Option<Seq<Seq<char>>> {
    match o {
        Some(v) => Some(strings_view(v@)),
        None => None,
    }
}

impl View for ParsedDynamicItem {
    type V = ParsedItemModel;

    open spec fn view(&self) -> ParsedItemModel {
        ParsedItemModel {
            id: self.id,
            author: opt_author_view(self.author),
            publish_time: self.publish_time,
            publish_time_text: opt_string_view(self.publish_time_text),
            dynamic_type: self.dynamic_type,
            original_post_id: self.original_post_id,
            video_info: opt_video_view(self.video_info),
            image_urls: opt_strings_view(self.image_urls),
            content: opt_string_view(self.content),
            reserve_info: opt_reserve_view(self.reserve_info),
            comment_area: self.comment_area@,
        }
    }
}

pub open spec fn or_else<T>(a: Option<T>, b: Option<T>) -> Option<T> {
    match a {
        Some(x) => Some(x),
        None => b,
    }
}

pub open spec fn parse_opt(o: Option<Seq<char>>) -> Option<u64> {
    match o {
        Some(s) => parse_u64_spec(s),
        None => None,
    }
}

/// The first module whose `module_type` is `module_type`.
pub open spec fn first_module(ms: Seq<JsonModel>, module_type: Seq<char>) -> Option<JsonModel>
    decreases ms.len(),
{
    if ms.len() == 0 {
        None
    } else if ms[0].at("module_type"@).is_text(module_type) {
        Some(ms[0])
    } else {
        first_module(ms.drop_first(), module_type)
    }
}

/// `find_module`: the first module of a list with the given type.
pub open spec fn find_module_spec(modules: JsonModel, module_type: Seq<char>) -> Option<JsonModel> {
    match modules.as_array() {
        Some(ms) => first_module(ms, module_type),
        None => None,
    }
}

/// The author, body, description and statistics modules of a post.
pub struct ItemModules {
    pub author: Option<JsonModel>,
    pub dynamic: Option<JsonModel>,
    pub desc: Option<JsonModel>,
    pub comment: Option<JsonModel>,
}

pub open spec fn item_modules(item: JsonModel) -> ItemModules {
    let modules = item.at("modules"@);
    if modules.is_array() {
        ItemModules {
            author: opt_at(find_module_spec(modules, "MODULE_TYPE_AUTHOR"@), "module_author"@),
            dynamic: opt_at(find_module_spec(modules, "MODULE_TYPE_DYNAMIC"@), "module_dynamic"@),
            desc: opt_at(find_module_spec(modules, "MODULE_TYPE_DESC"@), "module_desc"@),
            comment: opt_at(find_module_spec(modules, "MODULE_TYPE_STAT"@), "module_stat"@),
        }
    } else if modules.is_object() {
        ItemModules {
            author: modules.get("module_author"@),
            dynamic: modules.get("module_dynamic"@),
            desc: opt_get(modules.get("module_dynamic"@), "desc"@),
            comment: modules.get("module_stat"@),
        }
    } else {
        ItemModules { author: None, dynamic: None, desc: None, comment: None }
    }
}

/// The comment thread of a post: from the statistics module when it names
/// one, else from the post's `basic` section.
pub open spec fn comment_area_of(item: JsonModel, comment: Option<JsonModel>) -> CommentAreaModel {
    let from_basic = CommentAreaModel {
        comment_id: item.at("basic"@).at("comment_id_str"@).as_str(),
        comment_type: item.at("basic"@).at("comment_type"@).as_u64(),
    };
    match comment {
        Some(cm) => if cm.at("comment"@).at("comment_id"@).is_string() {
            CommentAreaModel {
                comment_id: cm.at("comment"@).at("comment_id"@).as_str(),
                comment_type: cm.at("comment"@).at("comment_type"@).as_u64(),
            }
        } else {
            from_basic
        },
        None => from_basic,
    }
}

pub open spec fn author_of(am: JsonModel) -> AuthorModel {
    let user = if am.at("user"@).is_object() {
        am.at("user"@)
    } else {
        am
    };
    AuthorModel {
        mid: match user.at("mid"@).as_u64() {
            Some(m) => m,
            None => 0,
        },
        name: text_or(user.at("name"@), Seq::empty()),
        face: text_or(user.at("face"@), Seq::empty()),
    }
}

pub open spec fn publish_time_text_of(am: JsonModel) -> Option<Seq<char>> {
    opt_as_str(or_else(am.get("pub_time"@), am.get("pub_text"@)))
}

pub open spec fn video_of(archive: JsonModel) -> VideoModel {
    VideoModel {
        title: text_or(archive.at("title"@), Seq::empty()),
        description: text_or(archive.at("desc"@), Seq::empty()),
        cover: text_or(archive.at("cover"@), Seq::empty()),
        jump_url: text_or(archive.at("jump_url"@), Seq::empty()),
        duration: text_or(archive.at("duration_text"@), Seq::empty()),
        avid: text_or(archive.at("aid"@), Seq::empty()),
        bvid: text_or(archive.at("bvid"@), Seq::empty()),
        stats: archive.at("stat"@),
    }
}

pub open spec fn opt_video_of(o: Option<JsonModel>) -> Option<VideoModel> {
    match o {
        Some(a) => Some(video_of(a)),
        None => None,
    }
}

/// The `src` texts of the images that have one, in order.
pub open spec fn image_srcs(items: Seq<JsonModel>) -> Seq<Seq<char>>
    decreases items.len(),
{
    if items.len() == 0 {
        Seq::empty()
    } else {
        let front = image_srcs(items.drop_last());
        match items.last().at("src"@).as_str() {
            Some(s) => front.push(s),
            None => front,
        }
    }
}

/// The `src` (else `url`) texts of the images that have one, in order.
pub open spec fn image_srcs_or_urls(items: Seq<JsonModel>) -> Seq<Seq<char>>
    decreases items.len(),
{
    if items.len() == 0 {
        Seq::empty()
    } else {
        let front = image_srcs_or_urls(items.drop_last());
        match or_else(items.last().at("src"@).as_str(), items.last().at("url"@).as_str()) {
            Some(s) => front.push(s),
            None => front,
        }
    }
}

pub open spec fn opt_array_of(o: Option<JsonModel>) -> Option<Seq<JsonModel>> {
    match o {
        Some(m) => m.as_array(),
        None => None,
    }
}

pub open spec fn desc_text(desc: Option<JsonModel>) -> Option<Seq<char>> {
    opt_as_str(opt_at(desc, "text"@))
}

pub open spec fn opus_summary_text(dynamic: Option<JsonModel>) -> Option<Seq<char>> {
    opt_as_str(opt_at(opt_at(opt_at(opt_at(dynamic, "major"@), "opus"@), "summary"@), "text"@))
}

pub open spec fn forwarded_id_text(dynamic: Option<JsonModel>) -> Option<Seq<char>> {
    opt_as_str(opt_at(opt_at(opt_at(dynamic, "dyn_forward"@), "item"@), "id_str"@))
}

pub open spec fn body(
    dynamic_type: DynamicType,
    original_post_id: Option<u64>,
    video_info: Option<VideoModel>,
    image_urls: Option<Seq<Seq<char>>>,
    content: Option<Seq<char>>,
) -> BodyModel {
    BodyModel { dynamic_type, original_post_id, video_info, image_urls, content }
}

/// The body of a post in the new layout, by the post's `type`.
pub open spec fn new_body(
    item_type: Seq<char>,
    dynamic: Option<JsonModel>,
    desc: Option<JsonModel>,
) -> BodyModel {
    if item_type == "DYNAMIC_TYPE_FORWARD"@ {
        body(DynamicType::Forward, parse_opt(forwarded_id_text(dynamic)), None, None, desc_text(desc))
    } else if item_type == "DYNAMIC_TYPE_AV"@ {
        body(DynamicType::Video, None, opt_video_of(opt_get(dynamic, "dyn_archive"@)), None, desc_text(desc))
    } else if item_type == "DYNAMIC_TYPE_DRAW"@ {
        let images = match opt_array_of(opt_at(opt_at(dynamic, "dyn_draw"@), "items"@)) {
            Some(items) => Some(image_srcs(items)),
            None => None,
        };
        body(DynamicType::Image, None, None, images, or_else(desc_text(desc), opus_summary_text(dynamic)))
    } else if item_type == "DYNAMIC_TYPE_WORD"@ {
        body(DynamicType::Text, None, None, None, desc_text(desc))
    } else {
        body(DynamicType::Other, None, None, None, None)
    }
}

/// The image list of a post in the old layout: `major.draw.items`, else
/// `major.opus.pics`, else `dyn_draw.items`.
pub open spec fn old_image_list(dynamic: Option<JsonModel>) -> Option<Seq<JsonModel>> {
    let from_major = match opt_get(dynamic, "major"@) {
        Some(major) => if major.at("draw"@).at("items"@).is_array() {
            major.at("draw"@).at("items"@).as_array()
        } else if major.at("opus"@).at("pics"@).is_array() {
            major.at("opus"@).at("pics"@).as_array()
        } else {
            None
        },
        None => None,
    };
    or_else(from_major, opt_array_of(opt_at(opt_at(dynamic, "dyn_draw"@), "items"@)))
}

pub open spec fn opus_pics(dynamic: Option<JsonModel>) -> Option<Seq<JsonModel>> {
    opt_array_of(opt_at(opt_at(opt_at(dynamic, "major"@), "opus"@), "pics"@))
}

/// The body of a post in the old layout, by the post's `type`.
pub open spec fn old_body(
    item_type: Seq<char>,
    dynamic: Option<JsonModel>,
    desc: Option<JsonModel>,
    item: JsonModel,
) -> BodyModel {
    if item_type == "DYNAMIC_TYPE_FORWARD"@ {
        let from_orig = match item.get("orig"@) {
            Some(orig) => orig.at("id_str"@).as_str(),
            None => None,
        };
        body(
            DynamicType::Forward,
            parse_opt(or_else(from_orig, forwarded_id_text(dynamic))),
            None,
            None,
            desc_text(desc),
        )
    } else if item_type == "DYNAMIC_TYPE_AV"@ {
        body(
            DynamicType::Video,
            None,
            opt_video_of(opt_get(opt_get(dynamic, "major"@), "archive"@)),
            None,
            opt_as_str(opt_at(opt_at(dynamic, "desc"@), "text"@)),
        )
    } else if item_type == "DYNAMIC_TYPE_DRAW"@ {
        let content = or_else(desc_text(desc), opus_summary_text(dynamic));
        match old_image_list(dynamic) {
            Some(items) => body(DynamicType::Image, None, None, Some(image_srcs_or_urls(items)), content),
            None => body(DynamicType::Text, None, None, None, content),
        }
    } else if item_type == "DYNAMIC_TYPE_OPUS"@ {
        let content = opus_summary_text(dynamic);
        match opus_pics(dynamic) {
            Some(pics) => if pics.len() > 0 {
                body(DynamicType::Image, None, None, Some(image_srcs(pics)), content)
            } else {
                body(DynamicType::Text, None, None, None, content)
            },
            None => body(DynamicType::Text, None, None, None, content),
        }
    } else if item_type == "DYNAMIC_TYPE_WORD"@ {
        body(DynamicType::Text, None, None, None, desc_text(desc))
    } else {
        body(DynamicType::Other, None, None, None, None)
    }
}

pub open spec fn reserve_of(dynamic: Option<JsonModel>) -> Option<ReserveModel> {
    match opt_get(dynamic, "additional"@) {
        Some(add) => if add.at("type"@).is_text("ADDITIONAL_TYPE_RESERVE"@) {
            match add.get("reserve"@) {
                Some(r) => Some(ReserveModel {
                    title: text_or(r.at("title"@), Seq::empty()),
                    publish_time_text: text_or(r.at("desc1"@).at("text"@), Seq::empty()),
                    total: match r.at("reserve_total"@).as_u64() {
                        Some(t) => t,
                        None => 0,
                    },
                    jump_url: text_or(r.at("jump_url"@), Seq::empty()),
                }),
                None => None,
            }
        } else {
            None
        },
        None => None,
    }
}

/// The id of a post: its `id_str` read as a number, else 0.
pub open spec fn item_id(item: JsonModel) -> u64 {
    match parse_u64_spec(text_or(item.at("id_str"@), "0"@)) {
        Some(n) => n,
        None => 0,
    }
}

/// Everything that `parse_dynamic_item` reads from a post.
pub open spec fn parse_item_spec(item: JsonModel) -> ParsedItemModel {
    let ms = item_modules(item);
    let item_type = text_or(item.at("type"@), Seq::empty());
    let b = if item.at("modules"@).is_array() {
        new_body(item_type, ms.dynamic, ms.desc)
    } else {
        old_body(item_type, ms.dynamic, ms.desc, item)
    };
    ParsedItemModel {
        id: item_id(item),
        author: match ms.author {
            Some(am) => Some(author_of(am)),
            None => None,
        },
        publish_time: match ms.author {
            Some(am) => am.at("pub_ts"@).as_u64(),
            None => None,
        },
        publish_time_text: match ms.author {
            Some(am) => publish_time_text_of(am),
            None => None,
        },
        dynamic_type: b.dynamic_type,
        original_post_id: b.original_post_id,
        video_info: b.video_info,
        image_urls: b.image_urls,
        content: b.content,
        reserve_info: reserve_of(ms.dynamic),
        comment_area: comment_area_of(item, ms.comment),
    }
}

pub open spec fn opt_vec_models(o: Option<&Vec<Json>>) -> Option<Seq<JsonModel>> {
    match o {
        Some(v) => Some(models_of(v@)),
        None => None,
    }
}

pub open spec fn body_view(
    t: (DynamicType, Option<u64>, Option<VideoInfo>, Option<Vec<String>>, Option<String>),
) -> BodyModel {
    BodyModel {
        dynamic_type: t.0,
        original_post_id: t.1,
        video_info: opt_video_view(t.2),
        image_urls: opt_strings_view(t.3),
        content: opt_string_view(t.4),
    }
}

/// The first module of `modules` whose `module_type` is `module_type`.
fn find_module<'a>(modules: &'a Json, module_type: &str) -> (r: Option<&'a Json>)
    ensures
        opt_model(r) == find_module_spec(modules@, module_type@),
{
    if let Some(arr) = modules.as_array() {
        let ghost ms = models_of(arr@);
        proof {
            lemma_models_of(arr@);
        }
        let mut i: usize = 0;
        assert(ms.skip(0) == ms);
        while i < arr.len()
            invariant
                0 <= i <= arr.len(),
                ms == models_of(arr@),
                ms.len() == arr@.len(),
                forall|j: int| 0 <= j < arr@.len() ==> #[trigger] ms[j] == arr@[j]@,
                find_module_spec(modules@, module_type@) == first_module(ms.skip(i as int), module_type@),
            decreases arr.len() - i,
        {
            assert(ms.skip(i as int).drop_first() == ms.skip(i + 1));
            assert(ms.skip(i as int)[0] == ms[i as int]);
            if arr[i].at("module_type").is_text(module_type) {
                return Some(&arr[i]);
            }
            i = i + 1;
        }
    }
    None
}

/// A string value read as a decimal number.
pub fn extract_u64_from_str(value: &Json) -> (r: Option<u64>)
    ensures
        r == parse_opt(value@.as_str()),
{
    match value.as_str() {
        Some(s) => parse_u64(s.as_str()),
        None => None,
    }
}

fn array_in(o: Option<&Json>) -> (r: Option<&Vec<Json>>)
    ensures
        opt_vec_models(r) == opt_array_of(opt_model(o)),
{
    match o {
        Some(v) => v.as_array(),
        None => None,
    }
}

fn collect_srcs(arr: &Vec<Json>) -> (r: Vec<String>)
    ensures
        strings_view(r@) == image_srcs(models_of(arr@)),
{
    let ghost ms = models_of(arr@);
    proof {
        lemma_models_of(arr@);
    }
    let mut out: Vec<String> = Vec::new();
    let mut i: usize = 0;
    assert(ms.take(0) =~= Seq::<JsonModel>::empty());
    assert(strings_view(out@) =~= Seq::<Seq<char>>::empty());
    while i < arr.len()
        invariant
            0 <= i <= arr.len(),
            ms == models_of(arr@),
            ms.len() == arr@.len(),
            forall|j: int| 0 <= j < arr@.len() ==> #[trigger] ms[j] == arr@[j]@,
            strings_view(out@) == image_srcs(ms.take(i as int)),
        decreases arr.len() - i,
    {
        assert(ms.take(i + 1).drop_last() == ms.take(i as int));
        assert(ms.take(i + 1).last() == ms[i as int]);
        let ghost before = out@;
        match arr[i].at("src").text_owned() {
            Some(t) => {
                out.push(t);
                assert(strings_view(out@) =~= strings_view(before).push(out@.last()@));
            },
            None => {},
        }
        i = i + 1;
    }
    assert(ms.take(arr@.len() as int) == ms);
    out
}

fn collect_srcs_or_urls(arr: &Vec<Json>) -> (r: Vec<String>)
    ensures
        strings_view(r@) == image_srcs_or_urls(models_of(arr@)),
{
    let ghost ms = models_of(arr@);
    proof {
        lemma_models_of(arr@);
    }
    let mut out: Vec<String> = Vec::new();
    let mut i: usize = 0;
    assert(ms.take(0) =~= Seq::<JsonModel>::empty());
    assert(strings_view(out@) =~= Seq::<Seq<char>>::empty());
    while i < arr.len()
        invariant
            0 <= i <= arr.len(),
            ms == models_of(arr@),
            ms.len() == arr@.len(),
            forall|j: int| 0 <= j < arr@.len() ==> #[trigger] ms[j] == arr@[j]@,
            strings_view(out@) == image_srcs_or_urls(ms.take(i as int)),
        decreases arr.len() - i,
    {
        assert(ms.take(i + 1).drop_last() == ms.take(i as int));
        assert(ms.take(i + 1).last() == ms[i as int]);
        let ghost before = out@;
        let src = arr[i].at("src").text_owned();
        let picked = match src {
            Some(t) => Some(t),
            None => arr[i].at("url").text_owned(),
        };
        match picked {
            Some(t) => {
                out.push(t);
                assert(strings_view(out@) =~= strings_view(before).push(out@.last()@));
            },
            None => {},
        }
        i = i + 1;
    }
    assert(ms.take(arr@.len() as int) == ms);
    out
}

fn video_from(archive: &Json) -> (r: VideoInfo)
    ensures
        r@ == video_of(archive@),
{
    VideoInfo {
        title: archive.at("title").text_or_empty(),
        description: archive.at("desc").text_or_empty(),
        cover: archive.at("cover").text_or_empty(),
        jump_url: archive.at("jump_url").text_or_empty(),
        duration: archive.at("duration_text").text_or_empty(),
        avid: archive.at("aid").text_or_empty(),
        bvid: archive.at("bvid").text_or_empty(),
        stats: archive.at("stat").deep_clone(),
    }
}

fn opt_video_from(o: Option<&Json>) -> (r: Option<VideoInfo>)
    ensures
        opt_video_view(r) == opt_video_of(opt_model(o)),
{
    match o {
        Some(a) => Some(video_from(a)),
        None => None,
    }
}

fn desc_text_of(desc: Option<&Json>) -> (r: Option<String>)
    ensures
        opt_string_view(r) == desc_text(opt_model(desc)),
{
    opt_text_owned(member_of(desc, "text"))
}

fn opus_summary_of(dynamic: Option<&Json>) -> (r: Option<String>)
    ensures
        opt_string_view(r) == opus_summary_text(opt_model(dynamic)),
{
    opt_text_owned(member_of(member_of(member_of(member_of(dynamic, "major"), "opus"), "summary"), "text"))
}

fn forwarded_id_of(dynamic: Option<&Json>) -> (r: Option<String>)
    ensures
        opt_string_view(r) == forwarded_id_text(opt_model(dynamic)),
{
    opt_text_owned(member_of(member_of(member_of(dynamic, "dyn_forward"), "item"), "id_str"))
}

fn parse_opt_text(o: Option<String>) -> (r: Option<u64>)
    ensures
        r == parse_opt(opt_string_view(o)),
{
    match o {
        Some(s) => parse_u64(s.as_str()),
        None => None,
    }
}

/// The body of a post in the new layout.
fn parse_new_version(
    item_type: &str,
    dynamic_module: Option<&Json>,
    desc_module: Option<&Json>,
    _item: &Json,
) -> (r: (DynamicType, Option<u64>, Option<VideoInfo>, Option<Vec<String>>, Option<String>))
    ensures
        body_view(r) == new_body(item_type@, opt_model(dynamic_module), opt_model(desc_module)),
{
    if same_text(item_type, "DYNAMIC_TYPE_FORWARD") {
        let content = desc_text_of(desc_module);
        let original_post_id = parse_opt_text(forwarded_id_of(dynamic_module));
        (DynamicType::Forward, original_post_id, None, None, content)
    } else if same_text(item_type, "DYNAMIC_TYPE_AV") {
        let video_info = opt_video_from(get_in(dynamic_module, "dyn_archive"));
        let content = desc_text_of(desc_module);
        (DynamicType::Video, None, video_info, None, content)
    } else if same_text(item_type, "DYNAMIC_TYPE_DRAW") {
        let content = match desc_text_of(desc_module) {
            Some(c) => Some(c),
            None => opus_summary_of(dynamic_module),
        };
        let image_urls = match array_in(member_of(member_of(dynamic_module, "dyn_draw"), "items")) {
            Some(items) => Some(collect_srcs(items)),
            None => None,
        };
        (DynamicType::Image, None, None, image_urls, content)
    } else if same_text(item_type, "DYNAMIC_TYPE_WORD") {
        let content = desc_text_of(desc_module);
        (DynamicType::Text, None, None, None, content)
    } else {
        (DynamicType::Other, None, None, None, None)
    }
}

fn old_image_list_of<'a>(dynamic: Option<&'a Json>) -> (r: Option<&'a Vec<Json>>)
    ensures
        opt_vec_models(r) == old_image_list(opt_model(dynamic)),
{
    let from_major = match get_in(dynamic, "major") {
        Some(major) => {
            let draw_items = major.at("draw").at("items");
            if draw_items.is_array() {
                draw_items.as_array()
            } else {
                let pics = major.at("opus").at("pics");
                if pics.is_array() {
                    pics.as_array()
                } else {
                    None
                }
            }
        },
        None => None,
    };
    match from_major {
        Some(v) => Some(v),
        None => array_in(member_of(member_of(dynamic, "dyn_draw"), "items")),
    }
}

/// The body of a post in the old layout.
fn parse_old_version(
    item_type: &str,
    dynamic_module: Option<&Json>,
    desc_module: Option<&Json>,
    item: &Json,
) -> (r: (DynamicType, Option<u64>, Option<VideoInfo>, Option<Vec<String>>, Option<String>))
    ensures
        body_view(r) == old_body(item_type@, opt_model(dynamic_module), opt_model(desc_module), item@),
{
    if same_text(item_type, "DYNAMIC_TYPE_FORWARD") {
        let content = desc_text_of(desc_module);
        let from_orig = match item.get("orig") {
            Some(orig) => orig.at("id_str").text_owned(),
            None => None,
        };
        let id_text = match from_orig {
            Some(t) => Some(t),
            None => forwarded_id_of(dynamic_module),
        };
        let original_post_id = parse_opt_text(id_text);
        (DynamicType::Forward, original_post_id, None, None, content)
    } else if same_text(item_type, "DYNAMIC_TYPE_AV") {
        let content = opt_text_owned(member_of(member_of(dynamic_module, "desc"), "text"));
        let video_info = opt_video_from(get_in(get_in(dynamic_module, "major"), "archive"));
        (DynamicType::Video, None, video_info, None, content)
    } else if same_text(item_type, "DYNAMIC_TYPE_DRAW") {
        let content = match desc_text_of(desc_module) {
            Some(c) => Some(c),
            None => opus_summary_of(dynamic_module),
        };
        match old_image_list_of(dynamic_module) {
            Some(items) => (DynamicType::Image, None, None, Some(collect_srcs_or_urls(items)), content),
            None => (DynamicType::Text, None, None, None, content),
        }
    } else if same_text(item_type, "DYNAMIC_TYPE_OPUS") {
        let content = opus_summary_of(dynamic_module);
        match array_in(member_of(member_of(member_of(dynamic_module, "major"), "opus"), "pics")) {
            Some(pics) => {
                if pics.len() > 0 {
                    (DynamicType::Image, None, None, Some(collect_srcs(pics)), content)
                } else {
                    (DynamicType::Text, None, None, None, content)
                }
            },
            None => (DynamicType::Text, None, None, None, content),
        }
    } else if same_text(item_type, "DYNAMIC_TYPE_WORD") {
        let content = desc_text_of(desc_module);
        (DynamicType::Text, None, None, None, content)
    } else {
        (DynamicType::Other, None, None, None, None)
    }
}

fn comment_area_from(item: &Json, comment_module: Option<&Json>) -> (r: CommentArea)
    ensures
        r@ == comment_area_of(item@, opt_model(comment_module)),
{
    let basic = item.at("basic");
    match comment_module {
        Some(cm) => {
            let comment = cm.at("comment");
            let cid = comment.at("comment_id");
            if cid.is_string() {
                return CommentArea {
                    comment_id: cid.text_owned(),
                    comment_type: comment.at("comment_type").as_u64(),
                };
            }
        },
        None => {},
    }
    CommentArea {
        comment_id: basic.at("comment_id_str").text_owned(),
        comment_type: basic.at("comment_type").as_u64(),
    }
}

fn author_from(am: &Json) -> (r: AuthorInfo)
    ensures
        r@ == author_of(am@),
{
    let user = if am.at("user").is_object() {
        am.at("user")
    } else {
        am
    };
    AuthorInfo {
        mid: match user.at("mid").as_u64() {
            Some(m) => m,
            None => 0,
        },
        name: user.at("name").text_or_empty(),
        face: user.at("face").text_or_empty(),
    }
}

fn reserve_from(dynamic_module: Option<&Json>) -> (r: Option<ReserveInfo>)
    ensures
        opt_reserve_view(r) == reserve_of(opt_model(dynamic_module)),
{
    match get_in(dynamic_module, "additional") {
        Some(add) => {
            if add.at("type").is_text("ADDITIONAL_TYPE_RESERVE") {
                match add.get("reserve") {
                    Some(reserve) => Some(ReserveInfo {
                        title: reserve.at("title").text_or_empty(),
                        publish_time_text: reserve.at("desc1").at("text").text_or_empty(),
                        total: match reserve.at("reserve_total").as_u64() {
                            Some(t) => t,
                            None => 0,
                        },
                        jump_url: reserve.at("jump_url").text_or_empty(),
                    }),
                    None => None,
                }
            } else {
                None
            }
        },
        None => None,
    }
}

/// Reads one post of the feed API. Missing or ill-typed fields give the
/// defaults (0, empty text, `None`); nothing fails.
pub fn parse_dynamic_item(item: &Json) -> (r: ParsedDynamicItem)
    ensures
        r@ == parse_item_spec(item@),
{
    let id_str = match item.at("id_str").as_str() {
        Some(s) => s.clone(),
        None => "0".to_owned(),
    };
    let id: u64 = match parse_u64(id_str.as_str()) {
        Some(n) => n,
        None => 0,
    };

    let modules = item.at("modules");
    let is_new_version = modules.is_array();

    let author_module: Option<&Json>;
    let dynamic_module: Option<&Json>;
    let desc_module: Option<&Json>;
    let comment_module: Option<&Json>;

    if is_new_version {
        author_module = member_of(find_module(modules, "MODULE_TYPE_AUTHOR"), "module_author");
        dynamic_module = member_of(find_module(modules, "MODULE_TYPE_DYNAMIC"), "module_dynamic");
        desc_module = member_of(find_module(modules, "MODULE_TYPE_DESC"), "module_desc");
        comment_module = member_of(find_module(modules, "MODULE_TYPE_STAT"), "module_stat");
    } else if modules.is_object() {
        author_module = modules.get("module_author");
        dynamic_module = modules.get("module_dynamic");
        desc_module = get_in(dynamic_module, "desc");
        comment_module = modules.get("module_stat");
    } else {
        author_module = None;
        dynamic_module = None;
        desc_module = None;
        comment_module = None;
    }
    let ghost ms = item_modules(item@);
    assert(opt_model(author_module) == ms.author);
    assert(opt_model(dynamic_module) == ms.dynamic);
    assert(opt_model(desc_module) == ms.desc);
    assert(opt_model(comment_module) == ms.comment);

    let comment_area = comment_area_from(item, comment_module);

    let author = match author_module {
        Some(am) => Some(author_from(am)),
        None => None,
    };
    let publish_time = match author_module {
        Some(am) => am.at("pub_ts").as_u64(),
        None => None,
    };
    let publish_time_text = match author_module {
        Some(am) => {
            let v = match am.get("pub_time") {
                Some(x) => Some(x),
                None => am.get("pub_text"),
            };
            opt_text_owned(v)
        },
        None => None,
    };

    let item_type = item.at("type").text_or_empty();

    let (dynamic_type, original_post_id, video_info, image_urls, content) = if is_new_version {
        parse_new_version(item_type.as_str(), dynamic_module, desc_module, item)
    } else {
        parse_old_version(item_type.as_str(), dynamic_module, desc_module, item)
    };

    let reserve_info = reserve_from(dynamic_module);

    ParsedDynamicItem {
        id,
        author,
        publish_time,
        publish_time_text,
        dynamic_type,
        original_post_id,
        video_info,
        image_urls,
        content,
        reserve_info,
        comment_area,
    }
}

/// The kind of a post decides which of its fields can be present: only a
/// forward names a forwarded post, only a video has a video, only an image
/// post has images, and a post of another kind has no body at all.
pub proof fn law_kind_decides_fields(item: JsonModel)
    ensures
        ({
            let p = parse_item_spec(item);
            &&& p.original_post_id is Some ==> p.dynamic_type == DynamicType::Forward
            &&& p.video_info is Some ==> p.dynamic_type == DynamicType::Video
            &&& p.image_urls is Some ==> p.dynamic_type == DynamicType::Image
            &&& p.dynamic_type == DynamicType::Other ==> p.content is None && p.original_post_id is None
                && p.video_info is None && p.image_urls is None
        }),
{
}

/// A publish time, as a number or as text, is only read from an author
/// module, so a post that has one has an author.
pub proof fn law_publish_time_needs_author(item: JsonModel)
    ensures
        ({
            let p = parse_item_spec(item);
            (p.publish_time is Some || p.publish_time_text is Some) ==> p.author is Some
        }),
{
}

/// A post whose `id_str` is the decimal text of `n` has the id `n`.
pub proof fn law_id_from_decimal_text(item: JsonModel, n: u64)
    requires
        item.at("id_str"@).as_str() == Some(decimal(n as nat)),
    ensures
        parse_item_spec(item).id == n,
{
    law_decimal_roundtrip(n);
}

/// The names of the post kinds are distinct texts.
proof fn lemma_kind_names_distinct()
    ensures
        "DYNAMIC_TYPE_WORD"@ != "DYNAMIC_TYPE_FORWARD"@,
        "DYNAMIC_TYPE_WORD"@ != "DYNAMIC_TYPE_AV"@,
        "DYNAMIC_TYPE_WORD"@ != "DYNAMIC_TYPE_DRAW"@,
        "DYNAMIC_TYPE_WORD"@ != "DYNAMIC_TYPE_OPUS"@,
        "DYNAMIC_TYPE_FORWARD"@ != "DYNAMIC_TYPE_AV"@,
        "DYNAMIC_TYPE_FORWARD"@ != "DYNAMIC_TYPE_DRAW"@,
        "DYNAMIC_TYPE_FORWARD"@ != "DYNAMIC_TYPE_OPUS"@,
        "DYNAMIC_TYPE_AV"@ != "DYNAMIC_TYPE_DRAW"@,
        "DYNAMIC_TYPE_AV"@ != "DYNAMIC_TYPE_OPUS"@,
        "DYNAMIC_TYPE_DRAW"@ != "DYNAMIC_TYPE_OPUS"@,
{
    reveal_strlit("DYNAMIC_TYPE_WORD");
    reveal_strlit("DYNAMIC_TYPE_FORWARD");
    reveal_strlit("DYNAMIC_TYPE_AV");
    reveal_strlit("DYNAMIC_TYPE_DRAW");
    reveal_strlit("DYNAMIC_TYPE_OPUS");
    assert("DYNAMIC_TYPE_WORD"@[13] != "DYNAMIC_TYPE_DRAW"@[13]);
    assert("DYNAMIC_TYPE_WORD"@[13] != "DYNAMIC_TYPE_OPUS"@[13]);
    assert("DYNAMIC_TYPE_DRAW"@[13] != "DYNAMIC_TYPE_OPUS"@[13]);
    assert("DYNAMIC_TYPE_WORD"@.len() != "DYNAMIC_TYPE_FORWARD"@.len());
    assert("DYNAMIC_TYPE_WORD"@.len() != "DYNAMIC_TYPE_AV"@.len());
    assert("DYNAMIC_TYPE_FORWARD"@.len() != "DYNAMIC_TYPE_AV"@.len());
    assert("DYNAMIC_TYPE_FORWARD"@.len() != "DYNAMIC_TYPE_DRAW"@.len());
    assert("DYNAMIC_TYPE_FORWARD"@.len() != "DYNAMIC_TYPE_OPUS"@.len());
    assert("DYNAMIC_TYPE_AV"@.len() != "DYNAMIC_TYPE_DRAW"@.len());
    assert("DYNAMIC_TYPE_AV"@.len() != "DYNAMIC_TYPE_OPUS"@.len());
}

/// A plain text post in the object layout of modules (`type` is
/// `DYNAMIC_TYPE_WORD`) is a text post whose content is the text of
/// `modules.module_dynamic.desc`, and it has no forwarded post, video or
/// images.
pub proof fn law_object_layout_word_is_text(item: JsonModel, t: Seq<char>)
    requires
        item.at("modules"@).is_object(),
        item.at("type"@).as_str() == Some("DYNAMIC_TYPE_WORD"@),
        item.at("modules"@).at("module_dynamic"@).at("desc"@).at("text"@).as_str() == Some(t),
    ensures
        parse_item_spec(item).dynamic_type == DynamicType::Text,
        parse_item_spec(item).content == Some(t),
        parse_item_spec(item).original_post_id is None,
        parse_item_spec(item).video_info is None,
        parse_item_spec(item).image_urls is None,
{
    lemma_kind_names_distinct();
}

/// A plain text post in the list layout of modules is a text post whose
/// content is the text of the `module_desc` of its first module of type
/// `MODULE_TYPE_DESC`.
pub proof fn law_list_layout_word_is_text(item: JsonModel, desc_module: JsonModel, t: Seq<char>)
    requires
        item.at("type"@).as_str() == Some("DYNAMIC_TYPE_WORD"@),
        find_module_spec(item.at("modules"@), "MODULE_TYPE_DESC"@) == Some(desc_module),
        desc_module.at("module_desc"@).at("text"@).as_str() == Some(t),
    ensures
        parse_item_spec(item).dynamic_type == DynamicType::Text,
        parse_item_spec(item).content == Some(t),
        parse_item_spec(item).original_post_id is None,
{
    lemma_kind_names_distinct();
}

/// A forward in the object layout of modules whose `orig.id_str` is the
/// decimal text of `n` names the post `n` as the one it forwards.
pub proof fn law_object_layout_forward_names_orig(item: JsonModel, n: u64)
    requires
        item.at("modules"@).is_object(),
        item.at("type"@).as_str() == Some("DYNAMIC_TYPE_FORWARD"@),
        item.at("orig"@).at("id_str"@).as_str() == Some(decimal(n as nat)),
    ensures
        parse_item_spec(item).dynamic_type == DynamicType::Forward,
        parse_item_spec(item).original_post_id == Some(n),
{
    law_decimal_roundtrip(n);
}

/// A post whose `type` names none of the known kinds is of another kind and
/// carries no body: no forwarded post, video, images or text.
pub proof fn law_unknown_kind_has_no_body(item: JsonModel)
    requires
        item.at("type"@).as_str() != Some("DYNAMIC_TYPE_FORWARD"@),
        item.at("type"@).as_str() != Some("DYNAMIC_TYPE_AV"@),
        item.at("type"@).as_str() != Some("DYNAMIC_TYPE_DRAW"@),
        item.at("type"@).as_str() != Some("DYNAMIC_TYPE_OPUS"@),
        item.at("type"@).as_str() != Some("DYNAMIC_TYPE_WORD"@),
    ensures
        parse_item_spec(item).dynamic_type == DynamicType::Other,
        parse_item_spec(item).content is None,
        parse_item_spec(item).original_post_id is None,
        parse_item_spec(item).video_info is None,
        parse_item_spec(item).image_urls is None,
{
    reveal_strlit("DYNAMIC_TYPE_WORD");
    reveal_strlit("DYNAMIC_TYPE_FORWARD");
    reveal_strlit("DYNAMIC_TYPE_AV");
    reveal_strlit("DYNAMIC_TYPE_DRAW");
    reveal_strlit("DYNAMIC_TYPE_OPUS");
    let t = text_or(item.at("type"@), Seq::empty());
    if item.at("type"@).as_str() is None {
        assert(t.len() == 0);
    }
}

/// A video post in the object layout of modules is a video post whose video
/// is read from `modules.module_dynamic.major.archive` and whose text is
/// `modules.module_dynamic.desc.text`.
pub proof fn law_object_layout_video(item: JsonModel, archive: JsonModel)
    requires
        item.at("modules"@).is_object(),
        item.at("type"@).as_str() == Some("DYNAMIC_TYPE_AV"@),
        item.at("modules"@).at("module_dynamic"@).at("major"@).get("archive"@) == Some(archive),
    ensures
        parse_item_spec(item).dynamic_type == DynamicType::Video,
        parse_item_spec(item).video_info matches Some(v) && v.stats == archive.at("stat"@)
            && (archive.at("bvid"@).as_str() is Some ==> v.bvid == archive.at("bvid"@).as_str().unwrap())
            && (archive.at("title"@).as_str() is Some ==> v.title == archive.at("title"@).as_str().unwrap()),
        parse_item_spec(item).content == item.at("modules"@).at("module_dynamic"@).at("desc"@).at(
            "text"@,
        ).as_str(),
        parse_item_spec(item).image_urls is None,
{
    lemma_kind_names_distinct();
    let md = item.at("modules"@).at("module_dynamic"@);
    assert(item.at("modules"@).get("module_dynamic"@) == Some(md));
    assert(md.get("major"@) == Some(md.at("major"@)));
    assert(item_modules(item).dynamic == Some(md));
    assert(text_or(item.at("type"@), Seq::empty()) == "DYNAMIC_TYPE_AV"@);
}

proof fn lemma_all_src(items: Seq<JsonModel>)
    requires
        forall|i: int| 0 <= i < items.len() ==> (#[trigger] items[i]).at("src"@).as_str() is Some,
    ensures
        image_srcs_or_urls(items) == items.map_values(|m: JsonModel| m.at("src"@).as_str().unwrap()),
    decreases items.len(),
{
    let f = |m: JsonModel| m.at("src"@).as_str().unwrap();
    if items.len() > 0 {
        let front = items.drop_last();
        assert forall|i: int| 0 <= i < front.len() implies (#[trigger] front[i]).at("src"@).as_str() is Some by {
            assert(front[i] == items[i]);
        }
        lemma_all_src(front);
        assert(items.last() == items[items.len() - 1]);
        assert(items.map_values(f) =~= front.map_values(f).push(f(items.last())));
    } else {
        assert(items.map_values(f) =~= Seq::<Seq<char>>::empty());
    }
}

/// An image post in the object layout of modules whose images are listed in
/// `modules.module_dynamic.major.draw.items`, each with a `src`, has exactly
/// those `src` texts as its images, in order.
pub proof fn law_object_layout_draw_images(item: JsonModel, pics: Seq<JsonModel>)
    requires
        item.at("modules"@).is_object(),
        item.at("type"@).as_str() == Some("DYNAMIC_TYPE_DRAW"@),
        item.at("modules"@).at("module_dynamic"@).at("major"@).at("draw"@).at("items"@) == JsonModel::Array(pics),
        forall|i: int| 0 <= i < pics.len() ==> (#[trigger] pics[i]).at("src"@).as_str() is Some,
    ensures
        parse_item_spec(item).dynamic_type == DynamicType::Image,
        parse_item_spec(item).image_urls == Some(pics.map_values(|m: JsonModel| m.at("src"@).as_str().unwrap())),
{
    lemma_kind_names_distinct();
    lemma_all_src(pics);
}

/// The comment thread of a post in the object layout of modules: the one
/// that `modules.module_stat.comment` names, else the one of `basic`.
pub proof fn law_object_layout_comment_area(item: JsonModel)
    requires
        item.at("modules"@).is_object(),
    ensures
        ({
            let stat = item.at("modules"@).at("module_stat"@).at("comment"@);
            let area = parse_item_spec(item).comment_area;
            &&& stat.at("comment_id"@).is_string() ==> area.comment_id == stat.at("comment_id"@).as_str()
                && area.comment_type == stat.at("comment_type"@).as_u64()
            &&& !stat.at("comment_id"@).is_string() ==> area.comment_id == item.at("basic"@).at(
                "comment_id_str"@,
            ).as_str() && area.comment_type == item.at("basic"@).at("comment_type"@).as_u64()
        }),
{
}

/// In the object layout of modules, the author of a post is read from
/// `modules.module_author` (from its `user` where that is an object), and its
/// publish time is `modules.module_author.pub_ts`; a post without that module
/// has neither.
pub proof fn law_object_layout_author(item: JsonModel)
    requires
        item.at("modules"@).is_object(),
    ensures
        ({
            let am = item.at("modules"@).at("module_author"@);
            let user = if am.at("user"@).is_object() { am.at("user"@) } else { am };
            let p = parse_item_spec(item);
            &&& item.at("modules"@).get("module_author"@) is Some ==> (p.author matches Some(a)
                && (user.at("mid"@).as_u64() is Some ==> a.mid == user.at("mid"@).as_u64().unwrap())
                && (user.at("name"@).as_str() is Some ==> a.name == user.at("name"@).as_str().unwrap()))
                && p.publish_time == am.at("pub_ts"@).as_u64()
            &&& item.at("modules"@).get("module_author"@) is None ==> p.author is None && p.publish_time is None
        }),
{
}

/// A forward in the list layout of modules names the post whose id is the
/// `dyn_forward.item.id_str` of its `module_dynamic`.
pub proof fn law_list_layout_forward_names_item(item: JsonModel, dynamic_module: JsonModel, n: u64)
    requires
        item.at("type"@).as_str() == Some("DYNAMIC_TYPE_FORWARD"@),
        find_module_spec(item.at("modules"@), "MODULE_TYPE_DYNAMIC"@) == Some(dynamic_module),
        dynamic_module.at("module_dynamic"@).at("dyn_forward"@).at("item"@).at("id_str"@).as_str() == Some(
            decimal(n as nat),
        ),
    ensures
        parse_item_spec(item).dynamic_type == DynamicType::Forward,
        parse_item_spec(item).original_post_id == Some(n),
{
    law_decimal_roundtrip(n);
}

proof fn lemma_all_src_only(items: Seq<JsonModel>)
    requires
        forall|i: int| 0 <= i < items.len() ==> (#[trigger] items[i]).at("src"@).as_str() is Some,
    ensures
        image_srcs(items) == items.map_values(|m: JsonModel| m.at("src"@).as_str().unwrap()),
    decreases items.len(),
{
    let f = |m: JsonModel| m.at("src"@).as_str().unwrap();
    if items.len() > 0 {
        let front = items.drop_last();
        assert forall|i: int| 0 <= i < front.len() implies (#[trigger] front[i]).at("src"@).as_str() is Some by {
            assert(front[i] == items[i]);
        }
        lemma_all_src_only(front);
        assert(items.last() == items[items.len() - 1]);
        assert(items.map_values(f) =~= front.map_values(f).push(f(items.last())));
    } else {
        assert(items.map_values(f) =~= Seq::<Seq<char>>::empty());
    }
}

/// An opus post in the object layout of modules is an image post when
/// `modules.module_dynamic.major.opus.pics` lists pictures, each with a
/// `src`, and then has exactly those `src` texts as its images; with no
/// pictures it is a text post. Its text is the opus summary either way.
pub proof fn law_object_layout_opus(item: JsonModel, pics: Seq<JsonModel>)
    requires
        item.at("modules"@).is_object(),
        item.at("type"@).as_str() == Some("DYNAMIC_TYPE_OPUS"@),
        item.at("modules"@).at("module_dynamic"@).at("major"@).at("opus"@).at("pics"@) == JsonModel::Array(pics),
        forall|i: int| 0 <= i < pics.len() ==> (#[trigger] pics[i]).at("src"@).as_str() is Some,
    ensures
        pics.len() > 0 ==> parse_item_spec(item).dynamic_type == DynamicType::Image
            && parse_item_spec(item).image_urls == Some(pics.map_values(|m: JsonModel| m.at("src"@).as_str().unwrap())),
        pics.len() == 0 ==> parse_item_spec(item).dynamic_type == DynamicType::Text
            && parse_item_spec(item).image_urls is None,
        parse_item_spec(item).content == item.at("modules"@).at("module_dynamic"@).at("major"@).at("opus"@).at(
            "summary"@,
        ).at("text"@).as_str(),
{
    lemma_kind_names_distinct();
    let md = item.at("modules"@).at("module_dynamic"@);
    assert(item.at("modules"@).get("module_dynamic"@) == Some(md));
    lemma_all_src_only(pics);
}

/// In the object layout of modules, a post carries a reservation exactly
/// when `modules.module_dynamic.additional` is of type
/// `ADDITIONAL_TYPE_RESERVE` and holds a `reserve`, whose title, time text,
/// count and link it then takes.
pub proof fn law_object_layout_reserve(item: JsonModel)
    requires
        item.at("modules"@).is_object(),
    ensures
        ({
            let add = item.at("modules"@).at("module_dynamic"@).at("additional"@);
            let info = parse_item_spec(item).reserve_info;
            &&& !add.at("type"@).is_text("ADDITIONAL_TYPE_RESERVE"@) ==> info is None
            &&& add.at("type"@).is_text("ADDITIONAL_TYPE_RESERVE"@) && add.get("reserve"@) is None ==> info is None
            &&& add.at("type"@).is_text("ADDITIONAL_TYPE_RESERVE"@) ==> (add.get("reserve"@) matches Some(r) ==> (
                info matches Some(x)
                && (r.at("title"@).as_str() is Some ==> x.title == r.at("title"@).as_str().unwrap())
                && (r.at("desc1"@).at("text"@).as_str() is Some ==> x.publish_time_text == r.at("desc1"@).at("text"@).as_str().unwrap())
                && (r.at("reserve_total"@).as_u64() is Some ==> x.total == r.at("reserve_total"@).as_u64().unwrap())
                && (r.at("jump_url"@).as_str() is Some ==> x.jump_url == r.at("jump_url"@).as_str().unwrap())))
        }),
{
    let md = item.at("modules"@).at("module_dynamic"@);
    if item.at("modules"@).get("module_dynamic"@) is None {
        assert(md == JsonModel::Null);
    } else {
        assert(item.at("modules"@).get("module_dynamic"@) == Some(md));
    }
}

} // verus!
