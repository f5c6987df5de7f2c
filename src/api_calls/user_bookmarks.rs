//! One page of a user's bookmarks.

use vstd::prelude::*;
use crate::text::{decimal_digits, push_decimal};
use vstd::string::*;

verus! {

/// Which of a user's bookmarks to list.
#[derive(Debug, Clone, Copy, PartialEq, Eq, Structural)]
pub enum Visibility {
    Public,
    Private,
}

/// The value of the `rest` query parameter for a visibility.
pub open spec fn rest_of(v: Visibility) -> Seq<char> {
    match v {
        Visibility::Public => "show"@,
        Visibility::Private => "hide"@,
    }
}

impl Visibility {
    /// The value of the `rest` query parameter that selects these bookmarks.
    pub fn to_rest(self) -> (r: &'static str)
        ensures
            r@ == rest_of(self),
    {
        match self {
            Visibility::Public => "show",
            Visibility::Private => "hide",
        }
    }
}

/// A bookmarked work; a masked one has been removed or restricted.
#[derive(Debug, Clone, Copy)]
pub struct Work {
    pub id: u64,
    pub is_masked: bool,
}

/// The works on one page, and how many bookmarks there are in all.
#[derive(Debug)]
pub struct Body {
    pub works: Vec<Work>,
    pub total: usize,
}


/// The address of the `limit` bookmarks of user `user_id` from `offset` on,
/// of the given visibility.
pub fn url(user_id: u64, offset: u64, limit: u64, visibility: Visibility) -> (r: String)
    ensures
        r@ == "https://www.pixiv.net/ajax/user/"@ + decimal_digits(user_id as nat)
            + "/illusts/bookmarks?tag=&offset="@ + decimal_digits(offset as nat) + "&limit="@
            + decimal_digits(limit as nat) + "&rest="@ + rest_of(visibility),
{
    let mut r = String::from_str("https://www.pixiv.net/ajax/user/");
    push_decimal(&mut r, user_id);
    r.append("/illusts/bookmarks?tag=&offset=");
    push_decimal(&mut r, offset);
    r.append("&limit=");
    push_decimal(&mut r, limit);
    r.append("&rest=");
    r.append(visibility.to_rest());
    r
}

} // verus!
