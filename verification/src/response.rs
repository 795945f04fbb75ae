//! The envelope of the Bilibili web API: every answer carries a `code`,
//! 0 on success.
use vstd::prelude::*;
use crate::json::{Json, JsonModel};

verus! {

#[derive(Clone, Copy, Debug, PartialEq, Eq, Structural)]
pub enum ResponseCode {
    Success,
    Failure(i64),
}

/// Why an answer cannot be read; the crawler stops on each.
#[derive(Clone, Copy, Debug, PartialEq, Eq, Structural)]
pub enum MalformedResponse {
    /// The answer is not JSON text.
    NotJson,
    /// `code` is not 0 and not an integer.
    CodeNotInteger,
    /// `data.has_more` is not a boolean.
    HasMoreNotBool,
    /// `data.offset` is not a string.
    OffsetNotText,
    /// `data.items` is not an array.
    ItemsNotArray,
    /// The fetched post has no author module.
    NoAuthor,
}

/// `code == 0` is success; any other integer is a failure code; anything
/// else cannot be read.
pub open spec fn response_code_of(resp: JsonModel) -> Option<ResponseCode> {
    let code = resp.at("code"@);
    if code.is_int(0) {
        Some(ResponseCode::Success)
    } else {
        match code.as_i64() {
            Some(c) => Some(ResponseCode::Failure(c)),
            None => None,
        }
    }
}

pub fn response_code(resp: &Json) -> (r: Option<ResponseCode>)
    ensures
        r == response_code_of(resp@),
        r matches Some(ResponseCode::Failure(c)) ==> c != 0,
{
    let code = resp.at("code");
    if code.is_int(0) {
        Some(ResponseCode::Success)
    } else {
        match code.as_i64() {
            Some(c) => Some(ResponseCode::Failure(c)),
            None => None,
        }
    }
}

} // verus!
