//! The scripts that the crawler runs in the browser page. Each one has a
//! single slot for its request parameters.
use vstd::prelude::*;
use vstd::string::StringExecFns;
use crate::text::{decimal, mission_info, mission_info_text, u64_to_decimal};

verus! {

/// The page script that fetches one page of a user's post list, up to the request parameters.
pub const POST_LIST_SCRIPT_HEAD: &'static str = r#"
        (async () => {
            async function fetchPostIds() {
                const { mid, offset } = "#;

/// The page script that fetches one page of a user's post list, after the request parameters.
pub const POST_LIST_SCRIPT_TAIL: &'static str = r#"
                const req = await fetch(
                    `https://api.bilibili.com/x/polymer/web-dynamic/v1/feed/space?offset=${offset}&host_mid=${mid}&timezone_offset=-480`,
                    {
                        credentials: "include",
                    },
                )
                if (!req.ok) {
                    await denoAlert(
                        `request failed! Is your ip banned? currentOffset: ${offset} Code: ${req.status}`,
                    )
                    return null
                }
                const res = await req.text()
                return res
            }
            return await fetchPostIds()
        })()"#;

/// The page script that fetches one post, up to the request parameters.
pub const POST_DETAIL_SCRIPT_HEAD: &'static str = r#"
(async () => {
async function fetchPostDetails() {
  const id = '"#;

/// The page script that fetches one post, after the request parameters.
pub const POST_DETAIL_SCRIPT_TAIL: &'static str = r#"'
  const req = await fetch(
    `https://api.bilibili.com/x/polymer/web-dynamic/v1/detail?id=${id}&features=itemOpusStyle,opusBigCover,onlyfansVote,endFooterHidden,decorationCard,onlyfansAssetsV2,ugcDelete,onlyfansQaCard,editable,opusPrivateVisible,avatarAutoTheme,sunflowerStyle,cardsEnhance,eva3CardOpus,eva3CardVideo,eva3CardComment,eva3CardVote,eva3CardUser`,
    {
      credentials: 'include',
    },
  )
  if (req.status === 412) {
    await denoAlert(
      `request failed! Is your ip banned? currentId: ${id} Code: ${req.status}`,
    )
    return JSON.stringify({ code: 412 })
  }
  const res = await req.text()
  return res
}
return await fetchPostDetails();
})()
        "#;

/// The page script that fetches one page of replies, up to the request parameters.
pub const REPLY_PAGE_SCRIPT_HEAD: &'static str = r#"
            (async () => {
                async function fetchPostReplies() {
                    const url = 'https://api.bilibili.com/x/v2/reply?"#;

/// The page script that fetches one page of replies, after the request parameters.
pub const REPLY_PAGE_SCRIPT_TAIL: &'static str = r#"'
                    const req = await fetch(url, {
                        credentials: "include",
                    })
                    if (req.status === 412) {
                        await denoAlert(
                            `Request failed, your ip was banned.`,
                        )
                        return null
                    }
                    const res = await req.text()
                    return res
                }
                return await fetchPostReplies()
            })()
            "#;

/// A script template with `params` in its slot.
fn fill(head: &str, params: &str, tail: &str) -> (r: String)
    ensures
        r@ == head@ + params@ + tail@,
{
    let mut s = head.to_owned();
    s.append(params);
    s.append(tail);
    s
}

/// The script that fetches the page at `offset` of the posts of user `mid`.
pub fn post_list_script(mid: u64, offset: &str) -> (r: String)
    ensures
        r@ == POST_LIST_SCRIPT_HEAD@ + mission_info_text(mid, offset@) + POST_LIST_SCRIPT_TAIL@,
{
    let info = mission_info(mid, offset);
    fill(POST_LIST_SCRIPT_HEAD, info.as_str(), POST_LIST_SCRIPT_TAIL)
}

/// The script that fetches the post `post_id`.
pub fn post_detail_script(post_id: u64) -> (r: String)
    ensures
        r@ == POST_DETAIL_SCRIPT_HEAD@ + decimal(post_id as nat) + POST_DETAIL_SCRIPT_TAIL@,
{
    let id = u64_to_decimal(post_id);
    fill(POST_DETAIL_SCRIPT_HEAD, id.as_str(), POST_DETAIL_SCRIPT_TAIL)
}

/// The script that fetches one page of replies with the given (signed)
/// query parameters.
pub fn reply_page_script(params: &str) -> (r: String)
    ensures
        r@ == REPLY_PAGE_SCRIPT_HEAD@ + params@ + REPLY_PAGE_SCRIPT_TAIL@,
{
    fill(REPLY_PAGE_SCRIPT_HEAD, params, REPLY_PAGE_SCRIPT_TAIL)
}

/// The query of one page of a reply thread: `oid=<oid>&type=<type>&pn=<page>`.
pub open spec fn reply_query_text(oid: u64, type_val: u64, page_num: u64) -> Seq<char> {
    "oid="@ + decimal(oid as nat) + "&type="@ + decimal(type_val as nat) + "&pn="@ + decimal(page_num as nat)
}

/// The query parameters of page `page_num` of the thread `(oid, type_val)`.
pub fn reply_query(oid: u64, type_val: u64, page_num: u64) -> (r: String)
    ensures
        r@ == reply_query_text(oid, type_val, page_num),
{
    let mut s = "oid=".to_owned();
    let a = u64_to_decimal(oid);
    s.append(a.as_str());
    s.append("&type=");
    let b = u64_to_decimal(type_val);
    s.append(b.as_str());
    s.append("&pn=");
    let c = u64_to_decimal(page_num);
    s.append(c.as_str());
    s
}

} // verus!
