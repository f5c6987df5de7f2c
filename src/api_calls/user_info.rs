//! A user's profile: the identifiers of their works, by category.

use vstd::prelude::*;
use crate::text::{decimal_digits, push_decimal};
use vstd::string::*;

verus! {

/// The identifiers of a user's works.
#[derive(Debug)]
pub struct Body {
    pub illusts: Vec<u64>,
    pub manga: Vec<u64>,
    pub novels: Vec<u64>,
}


/// The address of the profile of user `user_id`.
pub fn url(user_id: u64) -> (r: String)
    ensures
        r@ == "https://www.pixiv.net/ajax/user/"@ + decimal_digits(user_id as nat)
            + "/profile/all"@,
{
    let mut r = String::from_str("https://www.pixiv.net/ajax/user/");
    push_decimal(&mut r, user_id);
    r.append("/profile/all");
    r
}

} // verus!
