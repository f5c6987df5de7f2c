//! One page of a series.

use vstd::prelude::*;
use crate::text::{decimal_digits, push_decimal};
use vstd::string::*;

verus! {

/// A series' identity.
#[derive(Debug)]
pub struct SeriesInfo {
    pub id: u64,
    pub title: String,
}

/// A work and its position in the series.
#[derive(Debug, Clone, Copy)]
pub struct IllustPos {
    pub work_id: u64,
    pub order: usize,
}

/// The works on one page, and how many the series holds in all.
#[derive(Debug)]
pub struct Page {
    pub series: Vec<IllustPos>,
    pub total: usize,
}

/// The body of a series page.
#[derive(Debug)]
pub struct Body {
    pub illust_series: Vec<SeriesInfo>,
    pub page: Page,
}


/// The address of page `page` (from 1) of series `series_id`.
pub fn url(series_id: u64, page: u64) -> (r: String)
    ensures
        r@ == "https://www.pixiv.net/ajax/series/"@ + decimal_digits(series_id as nat) + "?p="@
            + decimal_digits(page as nat),
{
    let mut r = String::from_str("https://www.pixiv.net/ajax/series/");
    push_decimal(&mut r, series_id);
    r.append("?p=");
    push_decimal(&mut r, page);
    r
}

} // verus!
