use pixiv_util::args::{CreateUpdateFileParameters, DirectoryPolicy, DownloadIllustModes};
use pixiv_util::download::file::{MyPaths, Transfer, Verdict};
use pixiv_util::download::illust::{
    admission, do_create_update_file_subcommand, item_dir, resume_parameters,
    should_create_named_dir, update_descriptor, Admission, DownloadSource, SourceError,
    UpdateFileError,
};

const COOKIE: &str = "a=1; __utmv=1.|6=user_id=777=1; b=2";

#[test]
fn single_page_under_create_if_multiple_stays_in_dest() {
    assert_eq!(item_dir("dest", 1234, DirectoryPolicy::CreateIfMultiple, 1), "dest");
}

#[test]
fn two_pages_under_create_if_multiple_get_own_dir() {
    assert_eq!(item_dir("dest", 1234, DirectoryPolicy::CreateIfMultiple, 2), "dest/1234");
    assert_eq!(item_dir("dest/", 1234, DirectoryPolicy::CreateIfMultiple, 2), "dest/1234");
}

#[test]
fn always_and_never_policies() {
    assert_eq!(item_dir("d", 5, DirectoryPolicy::AlwaysCreate, 1), "d/5");
    assert_eq!(item_dir("", 5, DirectoryPolicy::AlwaysCreate, 1), "5");
    assert_eq!(item_dir("d", 5, DirectoryPolicy::NeverCreate, 3), "d");
}

#[test]
fn paths_from_url() {
    let p = MyPaths::from_url_dest_dir(
        "https://i.pximg.net/img-original/img/2020/01/01/00/00/00/1234_p0.png",
        "out",
    );
    assert_eq!(p.filename, "1234_p0.png");
    assert_eq!(p.dest, "out/1234_p0.png");
    assert_eq!(p.temp, "out/._1234_p0.png");
}

#[test]
fn paths_from_url_without_slash() {
    let p = MyPaths::from_url_dest_dir("plain.jpg", "");
    assert_eq!(p.filename, "plain.jpg");
    assert_eq!(p.dest, "plain.jpg");
    assert_eq!(p.temp, "._plain.jpg");
}

#[test]
fn transfer_fails_twice_then_succeeds() {
    let mut t = Transfer::new(3);
    assert_eq!(t.after_attempt(false), Verdict::Retry);
    assert_eq!(t.after_attempt(false), Verdict::Retry);
    assert_eq!(t.after_attempt(true), Verdict::Complete);
    assert_eq!(t.tries, 2);
}

#[test]
fn transfer_gives_up_after_max_tries() {
    let mut t = Transfer::new(3);
    assert_eq!(t.after_attempt(false), Verdict::Retry);
    assert_eq!(t.after_attempt(false), Verdict::Retry);
    assert_eq!(t.after_attempt(false), Verdict::GiveUp);
    assert_eq!(t.tries, 3);
}

#[test]
fn transfer_with_no_retries_allowed_tries_once() {
    let mut t = Transfer::new(0);
    assert_eq!(t.after_attempt(false), Verdict::GiveUp);
    let mut t = Transfer::new(1);
    assert_eq!(t.after_attempt(true), Verdict::Complete);
}

#[test]
fn admission_decisions() {
    assert_eq!(admission(false, true, true), Admission::Download);
    assert_eq!(admission(true, false, true), Admission::Skip);
    assert_eq!(admission(true, true, false), Admission::Skip);
    assert_eq!(admission(true, true, true), Admission::Stop);
}

#[test]
fn named_dir_only_for_series_among_dirs() {
    let series = DownloadIllustModes::Series { series_id: 1 };
    let posts = DownloadIllustModes::UserPosts { tag: None, user_id: 1 };
    assert!(should_create_named_dir(false, &series, 2));
    assert!(!should_create_named_dir(true, &series, 2));
    assert!(!should_create_named_dir(false, &series, 0));
    assert!(!should_create_named_dir(false, &posts, 2));
}

#[test]
fn resume_descriptor_round_trip_for_series() {
    let source = DownloadSource::Series { series_id: 42 };
    let written = source.to_arg();
    assert!(matches!(written, DownloadIllustModes::Series { series_id: 42 }));
    let back = DownloadSource::from_args(written, None).unwrap();
    assert!(matches!(back, DownloadSource::Series { series_id: 42 }));
}

#[test]
fn resume_descriptor_round_trip_for_tagged_posts() {
    let source = DownloadSource::UserPostsTag { user_id: 8, tag: "sky".to_string() };
    let back = DownloadSource::from_args(source.to_arg(), None).unwrap();
    match back {
        DownloadSource::UserPostsTag { user_id, tag } => {
            assert_eq!(user_id, 8);
            assert_eq!(tag, "sky");
        }
        other => panic!("unexpected source {:?}", other),
    }
}

#[test]
fn own_bookmarks_take_user_from_cookie() {
    let mode = DownloadIllustModes::OwnBookmarks { public: true, private: false };
    let source = DownloadSource::from_args(mode, Some(COOKIE.to_string())).unwrap();
    assert!(matches!(
        source,
        DownloadSource::OwnBookmarks { user_id: 777, public: true, private: false }
    ));
    let back = DownloadSource::from_args(source.to_arg(), Some(COOKIE.to_string())).unwrap();
    assert!(matches!(
        back,
        DownloadSource::OwnBookmarks { user_id: 777, public: true, private: false }
    ));
}

#[test]
fn own_bookmarks_errors() {
    let none = DownloadIllustModes::OwnBookmarks { public: false, private: false };
    assert_eq!(
        DownloadSource::from_args(none, Some(COOKIE.to_string())).unwrap_err(),
        SourceError::NoVisibility
    );
    let some = DownloadIllustModes::OwnBookmarks { public: false, private: true };
    assert_eq!(DownloadSource::from_args(some, None).unwrap_err(), SourceError::NoCookie);
    let some = DownloadIllustModes::OwnBookmarks { public: false, private: true };
    assert_eq!(
        DownloadSource::from_args(some, Some("a=1".to_string())).unwrap_err(),
        SourceError::NoUserIdInCookie
    );
    assert_eq!(SourceError::NoCookie.message(), "No user cookie available !");
}

#[test]
fn user_posts_without_tag() {
    let mode = DownloadIllustModes::UserPosts { tag: None, user_id: 3 };
    let source = DownloadSource::from_args(mode, None).unwrap();
    assert!(matches!(source, DownloadSource::UserPosts { user_id: 3 }));
    assert!(source.is_collection());
    assert!(!source.is_newest_first());
}

#[test]
fn individual_is_no_collection() {
    let source = DownloadSource::Individual { illust_ids: vec![1, 2] };
    assert!(!source.is_collection());
    assert!(update_descriptor(false, false, &source).is_none());
    match source.to_arg() {
        DownloadIllustModes::Individual { illust_ids } => assert_eq!(illust_ids, vec![1, 2]),
        other => panic!("unexpected mode {:?}", other),
    }
}

#[test]
fn update_descriptor_only_after_plain_collection_run() {
    let source = DownloadSource::UserBookmarks { user_id: 4 };
    assert!(source.is_newest_first());
    assert!(matches!(
        update_descriptor(false, false, &source),
        Some(DownloadIllustModes::UserBookmarks { user_id: 4 })
    ));
    assert!(update_descriptor(true, false, &source).is_none());
    assert!(update_descriptor(false, true, &source).is_none());
}

#[test]
fn update_file_refused_for_individual() {
    let params = CreateUpdateFileParameters {
        output_directory: "x".to_string(),
        mode: DownloadIllustModes::Individual { illust_ids: vec![1] },
    };
    assert_eq!(
        do_create_update_file_subcommand(&params),
        Err(UpdateFileError::IndividualNotResumable)
    );
    let params = CreateUpdateFileParameters {
        output_directory: "x".to_string(),
        mode: DownloadIllustModes::Series { series_id: 2 },
    };
    assert_eq!(do_create_update_file_subcommand(&params), Ok(()));
}

#[test]
fn resume_run_parameters() {
    let p = resume_parameters(
        DownloadIllustModes::Series { series_id: 9 },
        Some("dir".to_string()),
    );
    assert_eq!(p.incremental, Some(None));
    assert!(!p.fast_incremental);
    assert!(p.disable_named_dir);
    assert!(p.no_update_file);
    assert_eq!(p.output_directory, Some("dir".to_string()));
    assert_eq!(p.directory_policy, DirectoryPolicy::NeverCreate);
    assert!(matches!(p.mode, DownloadIllustModes::Series { series_id: 9 }));
}
