//! The rows of the runtime store: the queue of posts still to fetch and the
//! progress made on each reply thread.
use vstd::prelude::*;

verus! {

/// A post waiting in the queue, with the name of the source it came from.
#[derive(Debug)]
pub struct PendingPost {
    pub post_id: u64,
    pub source: String,
}

pub struct PendingPostModel {
    pub post_id: u64,
    pub source: Seq<char>,
}

impl View for PendingPost {
    type V = PendingPostModel;

    open spec fn view(&self) -> PendingPostModel {
        PendingPostModel { post_id: self.post_id, source: self.source@ }
    }
}

/// How far the replies of a thread have been fetched.
#[derive(Debug, Clone, Copy, PartialEq, Eq, Structural)]
pub struct ReplyProgress {
    pub oid: u64,
    pub page_num: u64,
    pub last_fetched_at: Option<u64>,
    pub blocked: bool,
}

} // verus!
