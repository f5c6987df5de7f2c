//! A user's bookmarks, read by offset: the first page tells how many there are,
//! and the pages after it can then be fetched in any order.

use vstd::prelude::*;

use crate::api_calls::user_bookmarks::{Body, Visibility, Work};

verus! {

/// The most bookmarks the API lists on one page.
pub const ILLUSTS_PER_PAGE: usize = 100;

/// How many pages hold `total` bookmarks.
pub open spec fn page_count_spec(total: nat) -> nat {
    (total + 99) / 100
}

/// How many pages are fetched for `total` bookmarks: the first page always.
pub open spec fn fetch_count(total: nat) -> nat {
    if total == 0 {
        1
    } else {
        page_count_spec(total)
    }
}

/// The offset of page `k`.
pub open spec fn page_offset(k: nat) -> nat {
    k * 100
}

/// The identifiers of the works that are not masked, in page order.
pub open spec fn unmasked(works: Seq<Work>) -> Seq<u64>
    decreases works.len(),
{
    if works.len() == 0 {
        seq![]
    } else if works.last().is_masked {
        unmasked(works.drop_last())
    } else {
        unmasked(works.drop_last()).push(works.last().id)
    }
}

/// `id` is the identifier of one of `works` that is not masked.
pub open spec fn is_unmasked_id(works: Seq<Work>, id: u64) -> bool {
    exists|j: int| 0 <= j < works.len() && !(#[trigger] works[j]).is_masked && works[j].id == id
}

/// How many of `works` are masked.
pub open spec fn masked_count(works: Seq<Work>) -> nat
    decreases works.len(),
{
    if works.len() == 0 {
        0
    } else {
        masked_count(works.drop_last()) + if works.last().is_masked {
            1nat
        } else {
            0nat
        }
    }
}

/// How many pages hold `total` bookmarks (the last one may be partly filled).
pub fn page_count(total: usize) -> (r: usize)
    ensures
        r == page_count_spec(total as nat),
{
    total / ILLUSTS_PER_PAGE + if total % ILLUSTS_PER_PAGE != 0 {
        1
    } else {
        0
    }
}

/// The offsets of the pages after the first, which hold the rest of `total` bookmarks.
pub fn remaining_page_offsets(total: usize) -> (r: Vec<usize>)
    ensures
        r@.len() == fetch_count(total as nat) - 1,
        forall|k: int| 0 <= k < r@.len() ==> r@[k] == page_offset((k + 1) as nat),
{
    let count = page_count(total);
    let mut r: Vec<usize> = Vec::new();
    let mut page: usize = 1;
    while page < count
        invariant
            count == page_count_spec(total as nat),
            1 <= page,
            page <= count || (count == 0 && page == 1),
            r@.len() == page - 1,
            forall|k: int| 0 <= k < r@.len() ==> r@[k] == page_offset((k + 1) as nat),
        decreases count - page,
    {
        assert(page * 100 < total) by (nonlinear_arith)
            requires
                page < count,
                count == (total + 99) / 100,
        ;
        r.push(page * ILLUSTS_PER_PAGE);
        page = page + 1;
    }
    assert(total == 0 <==> count == 0) by (nonlinear_arith)
        requires
            count == (total + 99) / 100,
    ;
    if count == 0 {
        assert(r@.len() == 0);
        assert(fetch_count(total as nat) == 1);
    } else {
        assert(page == count);
        assert(fetch_count(total as nat) == count);
    }
    r
}

/// The identifiers of the works on a page that are not masked; masked works are
/// removed or restricted, and are never handed out.
pub fn unmasked_ids(works: &Vec<Work>) -> (r: Vec<u64>)
    ensures
        r@ == unmasked(works@),
        forall|i: int| 0 <= i < r@.len() ==> is_unmasked_id(works@, #[trigger] r@[i]),
{
    let mut r: Vec<u64> = Vec::new();
    let mut k: usize = 0;
    while k < works.len()
        invariant
            k <= works@.len(),
            r@ == unmasked(works@.take(k as int)),
        decreases works@.len() - k,
    {
        let w = works[k];
        assert(works@.take(k + 1).drop_last() =~= works@.take(k as int));
        if !w.is_masked {
            r.push(w.id);
        }
        k = k + 1;
    }
    assert(works@.take(k as int) =~= works@);
    proof {
        lemma_unmasked_from_unmasked(works@);
    }
    r
}

proof fn lemma_unmasked_from_unmasked(works: Seq<Work>)
    ensures
        forall|i: int|
            0 <= i < unmasked(works).len() ==> is_unmasked_id(works, #[trigger] unmasked(works)[i]),
    decreases works.len(),
{
    if works.len() > 0 {
        let init = works.drop_last();
        lemma_unmasked_from_unmasked(init);
        assert forall|i: int| 0 <= i < unmasked(works).len() implies is_unmasked_id(
            works,
            #[trigger] unmasked(works)[i],
        ) by {
            if i < unmasked(init).len() {
                assert(unmasked(works)[i] == unmasked(init)[i]);
                assert(is_unmasked_id(init, unmasked(init)[i]));
                let j = choose|j: int|
                    0 <= j < init.len() && !(#[trigger] init[j]).is_masked && init[j].id
                        == unmasked(init)[i];
                assert(works[j] == init[j]);
            } else {
                assert(works[works.len() - 1] == works.last());
            }
        }
    }
}

proof fn lemma_unmasked_len(works: Seq<Work>)
    ensures
        unmasked(works).len() + masked_count(works) == works.len(),
    decreases works.len(),
{
    if works.len() > 0 {
        lemma_unmasked_len(works.drop_last());
    }
}

/// The visibilities to crawl, private first, for the choices made.
pub fn visibilities(public: bool, private: bool) -> (r: Vec<Visibility>)
    ensures
        r@ == (if private {
            seq![Visibility::Private]
        } else {
            seq![]
        }) + (if public {
            seq![Visibility::Public]
        } else {
            seq![]
        }),
{
    let mut r: Vec<Visibility> = Vec::new();
    if private {
        r.push(Visibility::Private);
    }
    if public {
        r.push(Visibility::Public);
    }
    assert(r@ =~= (if private {
        seq![Visibility::Private]
    } else {
        seq![]
    }) + (if public {
        seq![Visibility::Public]
    } else {
        seq![]
    }));
    r
}

/// The identifiers handed out for the first `j` pages.
pub open spec fn emitted_upto(pages: Seq<Body>, j: nat) -> Seq<u64>
    decreases j,
{
    if j == 0 {
        seq![]
    } else {
        emitted_upto(pages, (j - 1) as nat) + unmasked(pages[j - 1].works@)
    }
}

/// How many masked works the first `j` pages hold.
pub open spec fn masked_upto(pages: Seq<Body>, j: nat) -> nat
    decreases j,
{
    if j == 0 {
        0
    } else {
        masked_upto(pages, (j - 1) as nat) + masked_count(pages[j - 1].works@)
    }
}

/// How many works the first `j` pages list.
pub open spec fn listed_upto(pages: Seq<Body>, j: nat) -> nat
    decreases j,
{
    if j == 0 {
        0
    } else {
        listed_upto(pages, (j - 1) as nat) + pages[j - 1].works@.len()
    }
}

proof fn lemma_pages_cover(pages: Seq<Body>, j: nat)
    requires
        j <= pages.len(),
    ensures
        emitted_upto(pages, j).len() + masked_upto(pages, j) == listed_upto(pages, j),
    decreases j,
{
    if j > 0 {
        lemma_pages_cover(pages, (j - 1) as nat);
        lemma_unmasked_len(pages[j - 1].works@);
    }
}

/// Crawling `total` bookmarks fetches `max(1, ceil(total / 100))` pages: the
/// first one and those at the remaining offsets. When the pages fetched hold
/// `total` works together, the identifiers handed out and the masked works
/// left out make up exactly `total`; with no masked work, `total` identifiers
/// are handed out.
pub proof fn lemma_bookmarks_cover_total(total: nat, pages: Seq<Body>)
    requires
        pages.len() == fetch_count(total),
        listed_upto(pages, pages.len()) == total,
    ensures
        fetch_count(total) == if total == 0 {
            1
        } else {
            (total + 99) / 100
        },
        emitted_upto(pages, pages.len()).len() + masked_upto(pages, pages.len()) == total,
        masked_upto(pages, pages.len()) == 0 ==> emitted_upto(pages, pages.len()).len() == total,
{
    lemma_pages_cover(pages, pages.len());
}

} // verus!
