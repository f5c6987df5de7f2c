use pixiv_util::api_calls::series::{Body as SeriesBody, IllustPos, Page, SeriesInfo};
use pixiv_util::api_calls::user_bookmarks::{Body as BookmarkBody, Visibility, Work};
use pixiv_util::api_calls::user_illustmanga_tag::{Body as TagBody, Work as TagWork};
use pixiv_util::api_calls::user_info::Body as ProfileBody;
use pixiv_util::discovery::series::SeriesCrawl;
use pixiv_util::discovery::user_bookmarks::{
    page_count, remaining_page_offsets, unmasked_ids, visibilities, ILLUSTS_PER_PAGE,
};
use pixiv_util::discovery::user_posts::{profile_ids, TagCrawl};

fn series_page(ids: &[u64], total: usize, title: Option<&str>) -> SeriesBody {
    SeriesBody {
        illust_series: match title {
            Some(t) => vec![SeriesInfo { id: 9, title: t.to_string() }],
            None => vec![],
        },
        page: Page {
            series: ids
                .iter()
                .enumerate()
                .map(|(i, id)| IllustPos { work_id: *id, order: i + 1 })
                .collect(),
            total,
        },
    }
}

#[test]
fn series_of_three_in_pages_of_two() {
    let mut crawl = SeriesCrawl::new(42, "base".to_string(), true);
    assert_eq!(crawl.page_index, 1);

    let first = crawl.on_page(&series_page(&[101, 102], 3, Some("Foo")));
    assert_eq!(first.new_dir, Some("base/Foo".to_string()));
    assert!(!crawl.done);
    assert_eq!(crawl.page_index, 2);

    let second = crawl.on_page(&series_page(&[103], 3, Some("Foo")));
    assert_eq!(second.new_dir, None);
    assert!(crawl.done);

    let mut items: Vec<(u64, String)> = first
        .items
        .into_iter()
        .chain(second.items)
        .map(|i| (i.id, i.dest_dir))
        .collect();
    items.sort();
    assert_eq!(
        items,
        vec![
            (101, "base/Foo".to_string()),
            (102, "base/Foo".to_string()),
            (103, "base/Foo".to_string())
        ]
    );
}

#[test]
fn series_without_named_dir_keeps_destination() {
    let mut crawl = SeriesCrawl::new(1, "out/".to_string(), false);
    let step = crawl.on_page(&series_page(&[5], 1, Some("Bar")));
    assert_eq!(step.new_dir, None);
    assert_eq!(step.items[0].dest_dir, "out/");
    assert!(crawl.done);
}

#[test]
fn series_with_empty_title_makes_no_dir() {
    let mut crawl = SeriesCrawl::new(1, "out".to_string(), true);
    let step = crawl.on_page(&series_page(&[5, 6], 4, Some("")));
    assert_eq!(step.new_dir, None);
    assert_eq!(step.items[1].dest_dir, "out");
    assert!(!crawl.done);
    assert!(!crawl.name_pending);
    let step = crawl.on_page(&series_page(&[7, 8], 4, Some("Late")));
    assert_eq!(step.new_dir, None);
    assert_eq!(step.items[0].dest_dir, "out");
    assert!(crawl.done);
}

#[test]
fn series_emits_total_ids_once() {
    let pages = [
        series_page(&[1, 2, 3], 7, None),
        series_page(&[4, 5, 6], 7, None),
        series_page(&[7], 7, None),
    ];
    let mut crawl = SeriesCrawl::new(3, String::new(), false);
    let mut ids = Vec::new();
    let mut fetched = 0;
    for p in &pages {
        fetched += 1;
        ids.extend(crawl.on_page(p).items.into_iter().map(|i| i.id));
        if crawl.done {
            break;
        }
    }
    assert_eq!(fetched, 3);
    assert_eq!(ids, vec![1, 2, 3, 4, 5, 6, 7]);
}

#[test]
fn bookmarks_of_150_take_two_fetches() {
    assert_eq!(ILLUSTS_PER_PAGE, 100);
    assert_eq!(page_count(150), 2);
    assert_eq!(remaining_page_offsets(150), vec![100]);
}

#[test]
fn bookmark_page_counts() {
    assert_eq!(page_count(0), 0);
    assert_eq!(page_count(1), 1);
    assert_eq!(page_count(100), 1);
    assert_eq!(page_count(101), 2);
    assert_eq!(remaining_page_offsets(0), Vec::<usize>::new());
    assert_eq!(remaining_page_offsets(100), Vec::<usize>::new());
    assert_eq!(remaining_page_offsets(301), vec![100, 200, 300]);
}

fn bookmark_page(first_id: u64, n: usize, masked: &[u64]) -> BookmarkBody {
    BookmarkBody {
        works: (0..n as u64)
            .map(|i| Work { id: first_id + i, is_masked: masked.contains(&(first_id + i)) })
            .collect(),
        total: 150,
    }
}

#[test]
fn bookmarks_emit_all_but_masked() {
    let first = bookmark_page(1, 100, &[3, 50]);
    let second = bookmark_page(101, 50, &[150]);
    let mut ids = unmasked_ids(&first.works);
    for _offset in remaining_page_offsets(first.total) {
        ids.extend(unmasked_ids(&second.works));
    }
    assert_eq!(ids.len(), 150 - 3);
    assert!(!ids.contains(&3));
    assert!(!ids.contains(&50));
    assert!(!ids.contains(&150));
    assert!(ids.contains(&149));
}

#[test]
fn masked_entries_are_never_emitted() {
    let works = vec![
        Work { id: 1, is_masked: true },
        Work { id: 2, is_masked: false },
        Work { id: 3, is_masked: true },
        Work { id: 4, is_masked: false },
    ];
    assert_eq!(unmasked_ids(&works), vec![2, 4]);
    assert_eq!(unmasked_ids(&Vec::new()), Vec::<u64>::new());
}

#[test]
fn visibilities_private_first() {
    assert_eq!(visibilities(true, true), vec![Visibility::Private, Visibility::Public]);
    assert_eq!(visibilities(true, false), vec![Visibility::Public]);
    assert_eq!(visibilities(false, true), vec![Visibility::Private]);
    assert_eq!(visibilities(false, false), Vec::<Visibility>::new());
}

#[test]
fn visibility_rest_values() {
    assert_eq!(Visibility::Public.to_rest(), "show");
    assert_eq!(Visibility::Private.to_rest(), "hide");
}

#[test]
fn profile_lists_illustrations_then_manga() {
    let body = ProfileBody { illusts: vec![3, 1], manga: vec![7], novels: vec![9] };
    assert_eq!(profile_ids(&body), vec![3, 1, 7]);
}

#[test]
fn tag_crawl_until_total() {
    let mut crawl = TagCrawl::new(5, "cat".to_string());
    let page = |ids: &[u64]| TagBody {
        works: ids.iter().map(|i| TagWork { id: *i, is_masked: false }).collect(),
        total: 3,
    };
    assert_eq!(crawl.on_page(&page(&[1, 2])), vec![1, 2]);
    assert_eq!(crawl.processed, 2);
    assert!(!crawl.done);
    assert_eq!(crawl.on_page(&page(&[3])), vec![3]);
    assert_eq!(crawl.processed, 3);
    assert!(crawl.done);
}

#[test]
fn tag_crawl_leaves_out_masked_works() {
    let mut crawl = TagCrawl::new(5, "cat".to_string());
    let body = TagBody {
        works: vec![
            TagWork { id: 1, is_masked: false },
            TagWork { id: 2, is_masked: true },
            TagWork { id: 3, is_masked: false },
        ],
        total: 4,
    };
    assert_eq!(crawl.on_page(&body), vec![1, 3]);
    assert_eq!(crawl.processed, 3);
    assert!(!crawl.done);
    let last = TagBody { works: vec![TagWork { id: 4, is_masked: true }], total: 4 };
    assert_eq!(crawl.on_page(&last), Vec::<u64>::new());
    assert_eq!(crawl.processed, 4);
    assert!(crawl.done);
}

#[test]
fn bookmarks_of_150_with_two_masked() {
    let first = bookmark_page(1, 100, &[10]);
    let offsets = remaining_page_offsets(first.total);
    assert_eq!(offsets, vec![100]);
    let second = bookmark_page(101, 50, &[120]);
    let mut ids = unmasked_ids(&first.works);
    ids.extend(unmasked_ids(&second.works));
    assert_eq!(ids.len(), 148);
    assert!(!ids.contains(&10));
    assert!(!ids.contains(&120));
}
