//! The values a user chooses on the command line, as the library reads them.

use vstd::prelude::*;

verus! {

/// Whether each work gets a directory of its own under the destination.
#[derive(Debug, Clone, Copy, PartialEq, Eq, Structural)]
pub enum DirectoryPolicy {
    /// Every work gets a directory named after its identifier.
    AlwaysCreate,
    /// Every file goes straight into the destination.
    NeverCreate,
    /// Only works of more than one page get a directory.
    CreateIfMultiple,
}

/// What to download, as the user asked for it; also what a resume descriptor holds.
#[derive(Debug)]
pub enum DownloadIllustModes {
    /// Some works, by identifier.
    Individual { illust_ids: Vec<u64> },
    /// A series.
    Series { series_id: u64 },
    /// A user's works, or only those that carry a tag.
    UserPosts { tag: Option<String>, user_id: u64 },
    /// A user's public bookmarks.
    UserBookmarks { user_id: u64 },
    /// The bookmarks of the user whose cookie is in use.
    OwnBookmarks { public: bool, private: bool },
}

/// What a [`DownloadIllustModes`] holds, as mathematical values.
pub enum ModesView {
    Individual { illust_ids: Seq<u64> },
    Series { series_id: u64 },
    UserPosts { tag: Option<Seq<char>>, user_id: u64 },
    UserBookmarks { user_id: u64 },
    OwnBookmarks { public: bool, private: bool },
}

impl View for DownloadIllustModes {
    type V = ModesView;

    open spec fn view(&self) -> ModesView {
        match self {
            DownloadIllustModes::Individual { illust_ids } => ModesView::Individual {
                illust_ids: illust_ids@,
            },
            DownloadIllustModes::Series { series_id } => ModesView::Series {
                series_id: *series_id,
            },
            DownloadIllustModes::UserPosts { tag, user_id } => ModesView::UserPosts {
                tag: match tag {
                    Some(t) => Some(t@),
                    None => None,
                },
                user_id: *user_id,
            },
            DownloadIllustModes::UserBookmarks { user_id } => ModesView::UserBookmarks {
                user_id: *user_id,
            },
            DownloadIllustModes::OwnBookmarks { public, private } => ModesView::OwnBookmarks {
                public: *public,
                private: *private,
            },
        }
    }
}

/// How to download works.
#[derive(Debug)]
pub struct DownloadIllustParameters {
    /// Skip works already present; under the given directory, or under the
    /// destination where none is given.
    pub incremental: Option<Option<String>>,
    /// Stop reading a newest-first listing at the first work already present.
    pub fast_incremental: bool,
    /// Never make a directory named after the collection.
    pub disable_named_dir: bool,
    /// Write no resume descriptor after the download.
    pub no_update_file: bool,
    /// Where the files go; the working directory where none is given.
    pub output_directory: Option<String>,
    pub directory_policy: DirectoryPolicy,
    pub mode: DownloadIllustModes,
}

/// Where to write a resume descriptor, and for what.
#[derive(Debug)]
pub struct CreateUpdateFileParameters {
    pub output_directory: String,
    pub mode: DownloadIllustModes,
}

/// What to do with the user store.
#[derive(Debug)]
pub enum UsersSubcommands {
    AddUser { cookie: String, username: String },
    RemoveUser { username: String },
    PrintCookie { username: String },
    SetDefault { username: String },
    GetDefault,
    RemoveDefault,
    ListUsers,
    GetPixivID { username: String },
    PrintPath,
}

} // verus!
