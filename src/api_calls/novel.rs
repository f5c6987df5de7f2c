//! A text work.

use std::collections::HashMap;

use vstd::prelude::*;
use crate::text::{decimal_digits, push_decimal};
use vstd::string::*;

verus! {

/// An image embedded in a text work.
#[derive(Debug)]
pub struct EmbeddedImage {
    pub novel_image_id: String,
    pub sl: String,
    pub urls: HashMap<String, String>,
}

/// A text work and its metadata.
#[derive(Debug)]
pub struct NovelInfo {
    pub create_date: String,
    pub upload_date: String,
    pub description: String,
    pub title: String,
    pub content: String,
    pub text_embedded_images: Option<HashMap<u64, EmbeddedImage>>,
}


/// The address of text work `novel_id`.
pub fn url(novel_id: u64) -> (r: String)
    ensures
        r@ == "https://www.pixiv.net/ajax/novel/"@ + decimal_digits(novel_id as nat),
{
    let mut r = String::from_str("https://www.pixiv.net/ajax/novel/");
    push_decimal(&mut r, novel_id);
    r
}

} // verus!
