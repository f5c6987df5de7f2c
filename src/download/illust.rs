//! A run's source of works, how it is read from the user's choices and written
//! back as a resume descriptor, and the per-work decisions of a run.

use vstd::prelude::*;

use crate::args::{
    CreateUpdateFileParameters, DirectoryPolicy, DownloadIllustModes, DownloadIllustParameters,
    ModesView,
};
use crate::text::{opt_chars, decimal_digits, decimal_string, join_path, path_join};
use crate::user_mgmt::{cookie_user_id, get_user_id};

verus! {

/// What a run crawls.
#[derive(Debug)]
pub enum DownloadSource {
    Individual { illust_ids: Vec<u64> },
    Series { series_id: u64 },
    UserPosts { user_id: u64 },
    UserPostsTag { user_id: u64, tag: String },
    UserBookmarks { user_id: u64 },
    OwnBookmarks { user_id: u64, public: bool, private: bool },
}

/// What a [`DownloadSource`] holds, as mathematical values.
pub enum SourceView {
    Individual { illust_ids: Seq<u64> },
    Series { series_id: u64 },
    UserPosts { user_id: u64 },
    UserPostsTag { user_id: u64, tag: Seq<char> },
    UserBookmarks { user_id: u64 },
    OwnBookmarks { user_id: u64, public: bool, private: bool },
}

impl View for DownloadSource {
    type V = SourceView;

    open spec fn view(&self) -> SourceView {
        match self {
            DownloadSource::Individual { illust_ids } => SourceView::Individual {
                illust_ids: illust_ids@,
            },
            DownloadSource::Series { series_id } => SourceView::Series { series_id: *series_id },
            DownloadSource::UserPosts { user_id } => SourceView::UserPosts { user_id: *user_id },
            DownloadSource::UserPostsTag { user_id, tag } => SourceView::UserPostsTag {
                user_id: *user_id,
                tag: tag@,
            },
            DownloadSource::UserBookmarks { user_id } => SourceView::UserBookmarks {
                user_id: *user_id,
            },
            DownloadSource::OwnBookmarks { user_id, public, private } => SourceView::OwnBookmarks {
                user_id: *user_id,
                public: *public,
                private: *private,
            },
        }
    }
}

/// Why the user's choices name no source.
#[derive(Debug, Clone, Copy, PartialEq, Eq, Structural)]
pub enum SourceError {
    /// Own bookmarks were asked for, but neither public nor private ones.
    NoVisibility,
    /// Own bookmarks were asked for, and no cookie is in use.
    NoCookie,
    /// Own bookmarks were asked for, and the cookie carries no user identifier.
    NoUserIdInCookie,
}

impl SourceError {
    /// A sentence that tells the user what was wrong.
    pub fn message(&self) -> (r: String)
        ensures
            r@ == match self {
                SourceError::NoVisibility => "Neither Public nor Private was selected for download !"@,
                SourceError::NoCookie => "No user cookie available !"@,
                SourceError::NoUserIdInCookie => "Couldn't get user id from cookie !"@,
            },
    {
        match self {
            SourceError::NoVisibility => String::from_str(
                "Neither Public nor Private was selected for download !",
            ),
            SourceError::NoCookie => String::from_str("No user cookie available !"),
            SourceError::NoUserIdInCookie => String::from_str(
                "Couldn't get user id from cookie !",
            ),
        }
    }
}

/// The source that the user's choices name, with the cookie in use.
pub open spec fn source_of(args: ModesView, cookie: Option<Seq<char>>) -> Result<
    SourceView,
    SourceError,
> {
    match args {
        ModesView::Individual { illust_ids } => Ok(SourceView::Individual { illust_ids }),
        ModesView::Series { series_id } => Ok(SourceView::Series { series_id }),
        ModesView::UserPosts { tag, user_id } => match tag {
            Some(t) => Ok(SourceView::UserPostsTag { user_id, tag: t }),
            None => Ok(SourceView::UserPosts { user_id }),
        },
        ModesView::UserBookmarks { user_id } => Ok(SourceView::UserBookmarks { user_id }),
        ModesView::OwnBookmarks { public, private } => if !public && !private {
            Err(SourceError::NoVisibility)
        } else {
            match cookie {
                None => Err(SourceError::NoCookie),
                Some(c) => match cookie_user_id(c) {
                    Some(user_id) => Ok(SourceView::OwnBookmarks { user_id, public, private }),
                    None => Err(SourceError::NoUserIdInCookie),
                },
            }
        },
    }
}

/// The choices that name a source again; own bookmarks name no user, who comes
/// from the cookie in use.
pub open spec fn modes_of(s: SourceView) -> ModesView {
    match s {
        SourceView::Individual { illust_ids } => ModesView::Individual { illust_ids },
        SourceView::Series { series_id } => ModesView::Series { series_id },
        SourceView::UserPosts { user_id } => ModesView::UserPosts { tag: None, user_id },
        SourceView::UserPostsTag { user_id, tag } => ModesView::UserPosts {
            tag: Some(tag),
            user_id,
        },
        SourceView::UserBookmarks { user_id } => ModesView::UserBookmarks { user_id },
        SourceView::OwnBookmarks { user_id, public, private } => ModesView::OwnBookmarks {
            public,
            private,
        },
    }
}

/// A source that can be crawled: own bookmarks ask for at least one visibility.
pub open spec fn source_valid(s: SourceView) -> bool {
    match s {
        SourceView::OwnBookmarks { public, private, .. } => public || private,
        _ => true,
    }
}

/// Only works listed newest first allow a fast incremental run to stop early.
pub open spec fn newest_first(s: SourceView) -> bool {
    match s {
        SourceView::UserPostsTag { .. } => true,
        SourceView::UserBookmarks { .. } => true,
        SourceView::OwnBookmarks { .. } => true,
        _ => false,
    }
}

fn copy_ids(v: &Vec<u64>) -> (r: Vec<u64>)
    ensures
        r@ == v@,
{
    let mut r: Vec<u64> = Vec::new();
    let mut k: usize = 0;
    while k < v.len()
        invariant
            k <= v@.len(),
            r@ == v@.take(k as int),
        decreases v@.len() - k,
    {
        r.push(v[k]);
        k = k + 1;
        assert(r@ =~= v@.take(k as int));
    }
    assert(v@.take(k as int) =~= v@);
    r
}

impl DownloadSource {
    /// Reads the source from the user's choices; own bookmarks take the user
    /// identifier from the cookie in use.
    pub fn from_args(args: DownloadIllustModes, cookie: Option<String>) -> (r: Result<
        DownloadSource,
        SourceError,
    >)
        ensures
            match r {
                Ok(s) => source_of(args@, opt_chars(cookie)) == Ok::<
                    SourceView,
                    SourceError,
                >(s@),
                Err(e) => source_of(args@, opt_chars(cookie)) == Err::<
                    SourceView,
                    SourceError,
                >(e),
            },
    {
        match args {
            DownloadIllustModes::Individual { illust_ids } => Ok(
                DownloadSource::Individual { illust_ids },
            ),
            DownloadIllustModes::Series { series_id } => Ok(DownloadSource::Series { series_id }),
            DownloadIllustModes::UserPosts { tag, user_id } => match tag {
                Some(tag) => Ok(DownloadSource::UserPostsTag { user_id, tag }),
                None => Ok(DownloadSource::UserPosts { user_id }),
            },
            DownloadIllustModes::UserBookmarks { user_id } => Ok(
                DownloadSource::UserBookmarks { user_id },
            ),
            DownloadIllustModes::OwnBookmarks { public, private } => {
                if !public && !private {
                    return Err(SourceError::NoVisibility);
                }
                match cookie {
                    None => Err(SourceError::NoCookie),
                    Some(c) => match get_user_id(c.as_str()) {
                        Some(user_id) => Ok(DownloadSource::OwnBookmarks { user_id, public, private }),
                        None => Err(SourceError::NoUserIdInCookie),
                    },
                }
            },
        }
    }

    /// The choices that name this source, as a resume descriptor records them.
    pub fn to_arg(&self) -> (r: DownloadIllustModes)
        ensures
            r@ == modes_of(self@),
    {
        match self {
            DownloadSource::Individual { illust_ids } => DownloadIllustModes::Individual {
                illust_ids: copy_ids(illust_ids),
            },
            DownloadSource::Series { series_id } => DownloadIllustModes::Series {
                series_id: *series_id,
            },
            DownloadSource::UserPosts { user_id } => DownloadIllustModes::UserPosts {
                tag: None,
                user_id: *user_id,
            },
            DownloadSource::UserPostsTag { user_id, tag } => DownloadIllustModes::UserPosts {
                tag: Some(tag.clone()),
                user_id: *user_id,
            },
            DownloadSource::UserBookmarks { user_id } => DownloadIllustModes::UserBookmarks {
                user_id: *user_id,
            },
            DownloadSource::OwnBookmarks { user_id: _, public, private } => {
                DownloadIllustModes::OwnBookmarks { public: *public, private: *private }
            },
        }
    }

    /// Whether the source is a collection, which a later run can bring up to date.
    pub fn is_collection(&self) -> (r: bool)
        ensures
            r == !(self@ is Individual),
    {
        !matches!(self, DownloadSource::Individual { .. })
    }

    /// Whether the source lists its works newest first.
    pub fn is_newest_first(&self) -> (r: bool)
        ensures
            r == newest_first(self@),
    {
        match self {
            DownloadSource::UserPostsTag { .. } => true,
            DownloadSource::UserBookmarks { .. } => true,
            DownloadSource::OwnBookmarks { .. } => true,
            _ => false,
        }
    }
}

/// Reading back the descriptor written for a source gives that source again:
/// for own bookmarks, with a cookie that carries the same user.
pub proof fn lemma_resume_round_trip(s: SourceView, cookie: Option<Seq<char>>)
    requires
        source_valid(s),
        s is OwnBookmarks ==> cookie is Some && cookie_user_id(cookie->Some_0) == Some(
            s->OwnBookmarks_user_id,
        ),
    ensures
        source_of(modes_of(s), cookie) == Ok::<SourceView, SourceError>(s),
{
}

/// Whether a collection gets a directory named after it: only a series, only
/// where that is not turned off, and only where the destination already holds
/// directories (an empty one, or one of files only, takes the works directly).
pub fn should_create_named_dir(
    creation_disabled: bool,
    dl_mode: &DownloadIllustModes,
    nb_dirs: usize,
) -> (r: bool)
    ensures
        r == (!creation_disabled && dl_mode@ is Series && nb_dirs > 0),
{
    if creation_disabled {
        return false;
    }
    match dl_mode {
        DownloadIllustModes::Series { .. } => {},
        _ => {
            return false;
        },
    }
    nb_dirs > 0
}

/// The resume descriptor to write after a run, if any: only after a run that
/// was neither incremental nor told to write none, and only for a collection.
pub fn update_descriptor(no_update_file: bool, incremental: bool, source: &DownloadSource) -> (r:
    Option<DownloadIllustModes>)
    ensures
        match r {
            Some(m) => !no_update_file && !incremental && !(source@ is Individual) && m@ == modes_of(
                source@,
            ),
            None => no_update_file || incremental || source@ is Individual,
        },
{
    if no_update_file || incremental {
        return None;
    }
    if !source.is_collection() {
        return None;
    }
    Some(source.to_arg())
}

/// The parameters of a run that brings `directory` up to date from the resume
/// descriptor `mode` found there: incremental against the directory itself, not
/// fast, with no named directory, no new descriptor, and files straight into it.
pub fn resume_parameters(mode: DownloadIllustModes, directory: Option<String>) -> (r:
    DownloadIllustParameters)
    ensures
        r.incremental == Some(None::<String>),
        !r.fast_incremental,
        r.disable_named_dir,
        r.no_update_file,
        r.output_directory == directory,
        r.directory_policy == DirectoryPolicy::NeverCreate,
        r.mode == mode,
{
    DownloadIllustParameters {
        incremental: Some(None),
        fast_incremental: false,
        disable_named_dir: true,
        no_update_file: true,
        output_directory: directory,
        directory_policy: DirectoryPolicy::NeverCreate,
        mode,
    }
}

/// Why no resume descriptor can be written.
#[derive(Debug, Clone, Copy, PartialEq, Eq, Structural)]
pub enum UpdateFileError {
    /// Works chosen one by one are no collection to bring up to date.
    IndividualNotResumable,
}

impl UpdateFileError {
    /// A sentence that tells the user what was wrong.
    pub fn message(&self) -> (r: String)
        ensures
            r@ == "Cannot create an update file for individual illusts"@,
    {
        String::from_str("Cannot create an update file for individual illusts")
    }
}

/// Checks that a resume descriptor can be written for the chosen works.
pub fn do_create_update_file_subcommand(params: &CreateUpdateFileParameters) -> (r: Result<
    (),
    UpdateFileError,
>)
    ensures
        r is Err <==> params.mode@ is Individual,
        r is Err ==> r == Err::<(), UpdateFileError>(UpdateFileError::IndividualNotResumable),
{
    match params.mode {
        DownloadIllustModes::Individual { .. } => Err(UpdateFileError::IndividualNotResumable),
        _ => Ok(()),
    }
}

/// What to do with a work that discovery lists.
#[derive(Debug, Clone, Copy, PartialEq, Eq, Structural)]
pub enum Admission {
    /// Download it.
    Download,
    /// It is already present: leave it out.
    Skip,
    /// It is already present, and so are all older works: stop the listing.
    Stop,
}

/// The fate of a work: present works are left out; a fast incremental run over
/// a newest-first listing stops at the first of them.
pub open spec fn admission_of(present: bool, fast_incremental: bool, newest_first: bool) -> Admission {
    if !present {
        Admission::Download
    } else if fast_incremental && newest_first {
        Admission::Stop
    } else {
        Admission::Skip
    }
}

/// Decides the fate of a work from whether it is already present.
pub fn admission(present: bool, fast_incremental: bool, newest_first: bool) -> (r: Admission)
    ensures
        r == admission_of(present, fast_incremental, newest_first),
{
    if !present {
        Admission::Download
    } else if fast_incremental && newest_first {
        Admission::Stop
    } else {
        Admission::Skip
    }
}

/// Whether a work of `page_count` pages gets a directory of its own.
pub open spec fn in_subdir(policy: DirectoryPolicy, page_count: nat) -> bool {
    match policy {
        DirectoryPolicy::AlwaysCreate => true,
        DirectoryPolicy::NeverCreate => false,
        DirectoryPolicy::CreateIfMultiple => page_count > 1,
    }
}

/// Where the files of work `id` go: its own directory `dest_dir/<id>` where the
/// policy gives it one, else `dest_dir` itself.
pub open spec fn item_dir_spec(
    dest_dir: Seq<char>,
    id: u64,
    policy: DirectoryPolicy,
    page_count: nat,
) -> Seq<char> {
    if in_subdir(policy, page_count) {
        path_join(dest_dir, decimal_digits(id as nat))
    } else {
        dest_dir
    }
}

/// The directory that the files of work `id`, of `page_count` pages, go to.
pub fn item_dir(dest_dir: &str, id: u64, policy: DirectoryPolicy, page_count: usize) -> (r: String)
    ensures
        r@ == item_dir_spec(dest_dir@, id, policy, page_count as nat),
{
    let own = match policy {
        DirectoryPolicy::AlwaysCreate => true,
        DirectoryPolicy::NeverCreate => false,
        DirectoryPolicy::CreateIfMultiple => page_count > 1,
    };
    if own {
        let name = decimal_string(id);
        join_path(dest_dir, name.as_str())
    } else {
        String::from_str(dest_dir)
    }
}

} // verus!
