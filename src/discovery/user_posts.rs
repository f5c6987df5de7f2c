//! A user's works: all of them from their profile, or those that carry a tag,
//! read by offset until the number read reaches the reported total.

use vstd::prelude::*;

use crate::api_calls::user_illustmanga_tag::{Body as TagBody, Work};
use crate::api_calls::user_info::Body as ProfileBody;

verus! {

/// The most works the API lists on one page.
pub const ILLUSTS_PER_PAGE: usize = 100;

/// A user's illustrations, then their manga.
pub fn profile_ids(body: &ProfileBody) -> (r: Vec<u64>)
    ensures
        r@ == body.illusts@ + body.manga@,
{
    let mut r: Vec<u64> = Vec::new();
    let mut k: usize = 0;
    while k < body.illusts.len()
        invariant
            k <= body.illusts@.len(),
            r@ == body.illusts@.take(k as int),
        decreases body.illusts@.len() - k,
    {
        r.push(body.illusts[k]);
        k = k + 1;
        assert(r@ =~= body.illusts@.take(k as int));
    }
    let mut m: usize = 0;
    while m < body.manga.len()
        invariant
            k == body.illusts@.len(),
            m <= body.manga@.len(),
            r@ == body.illusts@ + body.manga@.take(m as int),
        decreases body.manga@.len() - m,
    {
        r.push(body.manga[m]);
        m = m + 1;
        assert(r@ =~= body.illusts@ + body.manga@.take(m as int));
    }
    assert(body.illusts@.take(k as int) =~= body.illusts@);
    assert(body.manga@.take(m as int) =~= body.manga@);
    r
}

/// The identifiers of the works that are not masked, in page order; masked
/// works are removed or restricted.
pub open spec fn unmasked_tagged(works: Seq<Work>) -> Seq<u64>
    decreases works.len(),
{
    if works.len() == 0 {
        seq![]
    } else if works.last().is_masked {
        unmasked_tagged(works.drop_last())
    } else {
        unmasked_tagged(works.drop_last()).push(works.last().id)
    }
}

/// The identifiers handed out for a page of tagged works.
pub open spec fn tag_page_ids(body: TagBody) -> Seq<u64> {
    unmasked_tagged(body.works@)
}

/// The crawl of a user's works that carry a tag.
pub struct TagCrawl {
    pub user_id: u64,
    pub tag: String,
    /// How many works the pages so far listed; also the offset of the next page.
    pub processed: usize,
    /// Every work has been listed.
    pub done: bool,
}

impl TagCrawl {
    pub fn new(user_id: u64, tag: String) -> (r: TagCrawl)
        ensures
            r.user_id == user_id,
            r.tag@ == tag@,
            r.processed == 0,
            !r.done,
    {
        TagCrawl { user_id, tag, processed: 0, done: false }
    }

    /// Takes in the next page: its works that are not masked are handed out,
    /// all of them count as read, and the crawl ends once the works read reach
    /// the reported total.
    pub fn on_page(&mut self, body: &TagBody) -> (r: Vec<u64>)
        requires
            !old(self).done,
            old(self).processed + body.works@.len() <= usize::MAX,
        ensures
            r@ == tag_page_ids(*body),
            final(self).processed == old(self).processed + body.works@.len(),
            final(self).done == (final(self).processed >= body.total),
            final(self).user_id == old(self).user_id,
            final(self).tag == old(self).tag,
    {
        let mut r: Vec<u64> = Vec::new();
        let mut k: usize = 0;
        while k < body.works.len()
            invariant
                k <= body.works@.len(),
                r@ == unmasked_tagged(body.works@.take(k as int)),
            decreases body.works@.len() - k,
        {
            let w = body.works[k];
            assert(body.works@.take(k + 1).drop_last() =~= body.works@.take(k as int));
            if !w.is_masked {
                r.push(w.id);
            }
            k = k + 1;
        }
        assert(body.works@.take(k as int) =~= body.works@);
        self.processed = self.processed + body.works.len();
        self.done = self.processed >= body.total;
        r
    }
}

} // verus!
