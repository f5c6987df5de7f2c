//! One page of a user's works that carry a tag.

use vstd::prelude::*;
use crate::text::{decimal_digits, push_decimal};
use vstd::string::*;

verus! {

/// A work that carries the tag.
#[derive(Debug, Clone, Copy)]
pub struct Work {
    pub id: u64,
    pub is_masked: bool,
}

/// The works on one page, and how many carry the tag in all.
#[derive(Debug)]
pub struct Body {
    pub works: Vec<Work>,
    pub total: usize,
}


/// The address of the `limit` works of user `user_id` that carry `tag`, from
/// `offset` on.
pub fn url(user_id: u64, tag: &str, offset: u64, limit: u64) -> (r: String)
    ensures
        r@ == "https://www.pixiv.net/ajax/user/"@ + decimal_digits(user_id as nat)
            + "/illustmanga/tag?tag="@ + tag@ + "&offset="@ + decimal_digits(offset as nat)
            + "&limit="@ + decimal_digits(limit as nat),
{
    let mut r = String::from_str("https://www.pixiv.net/ajax/user/");
    push_decimal(&mut r, user_id);
    r.append("/illustmanga/tag?tag=");
    r.append(tag);
    r.append("&offset=");
    push_decimal(&mut r, offset);
    r.append("&limit=");
    push_decimal(&mut r, limit);
    r
}

} // verus!
