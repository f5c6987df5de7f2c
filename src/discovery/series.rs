//! A series, read page by page (pages are numbered from 1) until the number of
//! works seen reaches the total that the pages report.

use vstd::prelude::*;

use crate::api_calls::series::{Body, IllustPos};
use crate::discovery::IllustDownload;
use crate::text::{join_path, path_join};

verus! {

/// Where a series crawl stands.
pub struct SeriesCrawlState {
    /// The page to fetch next.
    pub page_index: nat,
    /// How many works the pages so far listed.
    pub seen: nat,
    /// Where the works go.
    pub dest_dir: Seq<char>,
    /// A directory named after the series is still to be made.
    pub name_pending: bool,
    /// Every work has been listed.
    pub done: bool,
}

/// The title of the series on a page, if the page names one that is not empty.
pub open spec fn series_title(body: Body) -> Option<Seq<char>> {
    if body.illust_series@.len() > 0 && body.illust_series@[0].title@.len() > 0 {
        Some(body.illust_series@[0].title@)
    } else {
        None
    }
}

/// The work identifiers on a page, in page order.
pub open spec fn page_ids(body: Body) -> Seq<u64> {
    body.page.series@.map_values(|p: IllustPos| p.work_id)
}

/// The state after reading one more page.
pub open spec fn series_next(s: SeriesCrawlState, body: Body) -> SeriesCrawlState {
    let seen = s.seen + body.page.series@.len();
    SeriesCrawlState {
        page_index: s.page_index + 1,
        seen,
        dest_dir: if s.name_pending && series_title(body) is Some {
            path_join(s.dest_dir, series_title(body)->Some_0)
        } else {
            s.dest_dir
        },
        name_pending: false,
        done: seen == body.page.total,
    }
}

/// The state after reading `pages` in order.
pub open spec fn series_run(s: SeriesCrawlState, pages: Seq<Body>) -> SeriesCrawlState
    decreases pages.len(),
{
    if pages.len() == 0 {
        s
    } else {
        series_run(series_next(s, pages[0]), pages.drop_first())
    }
}

/// How many works `pages` list together.
pub open spec fn works_listed(pages: Seq<Body>) -> nat
    decreases pages.len(),
{
    if pages.len() == 0 {
        0
    } else {
        pages[0].page.series@.len() + works_listed(pages.drop_first())
    }
}

/// The work identifiers of `pages`, page after page.
pub open spec fn all_page_ids(pages: Seq<Body>) -> Seq<u64>
    decreases pages.len(),
{
    if pages.len() == 0 {
        seq![]
    } else {
        page_ids(pages[0]) + all_page_ids(pages.drop_first())
    }
}

/// The crawl of one series.
pub struct SeriesCrawl {
    pub series_id: u64,
    pub page_index: usize,
    pub seen: usize,
    pub dest_dir: String,
    pub name_pending: bool,
    pub done: bool,
}

/// What one page gives: the works to download, and the directory named after
/// the series if it is to be made now.
pub struct SeriesStep {
    pub items: Vec<IllustDownload>,
    pub new_dir: Option<String>,
}

impl View for SeriesCrawl {
    type V = SeriesCrawlState;

    open spec fn view(&self) -> SeriesCrawlState {
        SeriesCrawlState {
            page_index: self.page_index as nat,
            seen: self.seen as nat,
            dest_dir: self.dest_dir@,
            name_pending: self.name_pending,
            done: self.done,
        }
    }
}

impl SeriesCrawl {
    /// A crawl of `series_id` into `dest_dir`, which makes a directory named
    /// after the series first where `create_named_dir` asks for it.
    pub fn new(series_id: u64, dest_dir: String, create_named_dir: bool) -> (r: SeriesCrawl)
        ensures
            r.series_id == series_id,
            r@ == (SeriesCrawlState {
                page_index: 1,
                seen: 0,
                dest_dir: dest_dir@,
                name_pending: create_named_dir,
                done: false,
            }),
    {
        SeriesCrawl {
            series_id,
            page_index: 1,
            seen: 0,
            dest_dir,
            name_pending: create_named_dir,
            done: false,
        }
    }

    /// Takes in the next page: the works on it go to the current directory,
    /// which on the first page becomes the one named after the series where
    /// that was asked for and the page names the series.
    pub fn on_page(&mut self, body: &Body) -> (r: SeriesStep)
        requires
            !old(self)@.done,
            old(self)@.seen + body.page.series@.len() <= usize::MAX,
            old(self)@.page_index < usize::MAX,
        ensures
            final(self)@ == series_next(old(self)@, *body),
            final(self).series_id == old(self).series_id,
            r.items@.len() == body.page.series@.len(),
            forall|i: int|
                0 <= i < r.items@.len() ==> (#[trigger] r.items@[i]).id == page_ids(*body)[i]
                    && r.items@[i].dest_dir@ == final(self)@.dest_dir,
            match r.new_dir {
                Some(d) => old(self)@.name_pending && series_title(*body) is Some && d@
                    == final(self)@.dest_dir,
                None => !(old(self)@.name_pending && series_title(*body) is Some),
            },
    {
        let mut new_dir: Option<String> = None;
        if self.name_pending {
            if body.illust_series.len() > 0 {
                let title = &body.illust_series[0].title;
                if title.as_str().unicode_len() > 0 {
                    let d = join_path(self.dest_dir.as_str(), title.as_str());
                    self.dest_dir = d.clone();
                    new_dir = Some(d);
                }
            }
            self.name_pending = false;
        }
        let n = body.page.series.len();
        self.seen = self.seen + n;
        self.page_index = self.page_index + 1;
        self.done = self.seen == body.page.total;
        let items = items_in(&body.page.series, &self.dest_dir);
        SeriesStep { items, new_dir }
    }
}

/// The works at `positions`, each to go to `dest_dir`.
fn items_in(positions: &Vec<IllustPos>, dest_dir: &String) -> (r: Vec<IllustDownload>)
    ensures
        r@.len() == positions@.len(),
        forall|i: int|
            0 <= i < r@.len() ==> r@[i].id == positions@[i].work_id && r@[i].dest_dir@
                == dest_dir@,
{
    let mut items: Vec<IllustDownload> = Vec::new();
    let mut k: usize = 0;
    while k < positions.len()
        invariant
            k <= positions@.len(),
            items@.len() == k,
            forall|i: int|
                0 <= i < k ==> items@[i].id == positions@[i].work_id && items@[i].dest_dir@
                    == dest_dir@,
        decreases positions@.len() - k,
    {
        items.push(IllustDownload { id: positions[k].work_id, dest_dir: dest_dir.clone() });
        k = k + 1;
    }
    items
}

/// Once the named directory is settled, later pages keep the directory.
proof fn lemma_dest_settled(s: SeriesCrawlState, pages: Seq<Body>)
    requires
        !s.name_pending,
    ensures
        series_run(s, pages).dest_dir == s.dest_dir,
    decreases pages.len(),
{
    if pages.len() > 0 {
        lemma_dest_settled(series_next(s, pages[0]), pages.drop_first());
    }
}

proof fn lemma_listed_step(pages: Seq<Body>, k: int)
    requires
        0 < k <= pages.len(),
    ensures
        works_listed(pages.take(k)) == pages[0].page.series@.len() + works_listed(
            pages.drop_first().take(k - 1),
        ),
{
    assert(pages.take(k)[0] == pages[0]);
    assert(pages.take(k).drop_first() =~= pages.drop_first().take(k - 1));
}

proof fn lemma_run_stops_at_total(s: SeriesCrawlState, pages: Seq<Body>, total: nat)
    requires
        !s.done,
        pages.len() > 0,
        forall|i: int| 0 <= i < pages.len() ==> #[trigger] pages[i].page.total == total,
        s.seen + works_listed(pages) == total,
        forall|k: int|
            0 < k < pages.len() ==> s.seen + works_listed(#[trigger] pages.take(k)) != total,
    ensures
        series_run(s, pages).done,
        forall|k: int| 0 < k < pages.len() ==> !(#[trigger] series_run(s, pages.take(k))).done,
    decreases pages.len(),
{
    let n = series_next(s, pages[0]);
    let rest = pages.drop_first();
    assert(pages[0].page.total == total);
    assert(works_listed(pages) == pages[0].page.series@.len() + works_listed(rest));
    assert(series_run(s, pages) == series_run(n, rest));
    if rest.len() > 0 {
        lemma_listed_step(pages, 1);
        assert(rest.take(0) =~= Seq::<Body>::empty());
        assert(s.seen + works_listed(pages.take(1)) != total);
        assert(!n.done);
        assert forall|i: int| 0 <= i < rest.len() implies #[trigger] rest[i].page.total
            == total by {
            assert(rest[i] == pages[i + 1]);
        }
        assert forall|k: int| 0 < k < rest.len() implies n.seen + works_listed(
            #[trigger] rest.take(k),
        ) != total by {
            lemma_listed_step(pages, k + 1);
            assert(s.seen + works_listed(pages.take(k + 1)) != total);
        }
        lemma_run_stops_at_total(n, rest, total);
        assert forall|k: int| 0 < k < pages.len() implies !(#[trigger] series_run(
            s,
            pages.take(k),
        )).done by {
            let pk = pages.take(k);
            assert(pk[0] == pages[0]);
            assert(pk.drop_first() =~= rest.take(k - 1));
            assert(series_run(s, pk) == series_run(n, rest.take(k - 1)));
            if k == 1 {
                assert(series_run(n, rest.take(0)) == n);
            } else {
                assert(!series_run(n, rest.take(k - 1)).done);
            }
        }
    } else {
        assert(works_listed(rest) == 0);
        assert(series_run(n, rest) == n);
    }
}

proof fn lemma_ids_listed(pages: Seq<Body>)
    ensures
        all_page_ids(pages).len() == works_listed(pages),
    decreases pages.len(),
{
    if pages.len() > 0 {
        lemma_ids_listed(pages.drop_first());
    }
}

/// A series whose pages all report the same total, where the works listed
/// first reach that total on the last page, is read to its last page and no
/// further: the crawl ends right after the last page and not before, so it
/// hands out every listed work once (`all_page_ids(pages)`, page after page),
/// `total` in all, and all of them go to the directory settled on the first page.
pub proof fn lemma_series_emits_every_work(
    series_id: u64,
    dest_dir: Seq<char>,
    create_named_dir: bool,
    pages: Seq<Body>,
    total: nat,
)
    requires
        pages.len() > 0,
        forall|i: int| 0 <= i < pages.len() ==> #[trigger] pages[i].page.total == total,
        works_listed(pages) == total,
        forall|k: int| 0 < k < pages.len() ==> works_listed(#[trigger] pages.take(k)) != total,
    ensures
        ({
            let s = SeriesCrawlState {
                page_index: 1,
                seen: 0,
                dest_dir,
                name_pending: create_named_dir,
                done: false,
            };
            &&& series_run(s, pages).done
            &&& series_run(s, pages).page_index == pages.len() + 1
            &&& forall|k: int| 0 < k < pages.len() ==> !(#[trigger] series_run(s, pages.take(k))).done
            &&& all_page_ids(pages).len() == total
            &&& forall|k: int|
                0 < k <= pages.len() ==> (#[trigger] series_run(s, pages.take(k))).dest_dir
                    == series_next(s, pages[0]).dest_dir
        }),
{
    let s = SeriesCrawlState {
        page_index: 1,
        seen: 0,
        dest_dir,
        name_pending: create_named_dir,
        done: false,
    };
    lemma_run_stops_at_total(s, pages, total);
    lemma_ids_listed(pages);
    lemma_pages_fetched(s, pages);
    assert forall|k: int| 0 < k <= pages.len() implies (#[trigger] series_run(
        s,
        pages.take(k),
    )).dest_dir == series_next(s, pages[0]).dest_dir by {
        assert(pages.take(k)[0] == pages[0]);
        lemma_dest_settled(series_next(s, pages[0]), pages.take(k).drop_first());
    }
}

/// Each page read moves the crawl on to the next page number.
proof fn lemma_pages_fetched(s: SeriesCrawlState, pages: Seq<Body>)
    ensures
        series_run(s, pages).page_index == s.page_index + pages.len(),
    decreases pages.len(),
{
    if pages.len() > 0 {
        lemma_pages_fetched(series_next(s, pages[0]), pages.drop_first());
    }
}

} // verus!
