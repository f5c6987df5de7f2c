//! The pages (assets) of one work.

use vstd::prelude::*;
use crate::text::{decimal_digits, push_decimal};
use vstd::string::*;

verus! {

/// The addresses of one page in its several sizes.
#[derive(Debug)]
pub struct Urls {
    pub thumb_mini: Option<String>,
    pub small: String,
    pub regular: String,
    pub original: String,
}

/// One page of a work: where to get it, and its size.
#[derive(Debug)]
pub struct Page {
    pub urls: Urls,
    pub width: usize,
    pub height: usize,
}


/// The address of the pages of work `illust_id`.
pub fn url(illust_id: u64) -> (r: String)
    ensures
        r@ == "https://www.pixiv.net/ajax/illust/"@ + decimal_digits(illust_id as nat) + "/pages"@,
{
    let mut r = String::from_str("https://www.pixiv.net/ajax/illust/");
    push_decimal(&mut r, illust_id);
    r.append("/pages");
    r
}

} // verus!
