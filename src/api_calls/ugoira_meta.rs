//! The frames of an animation.

use vstd::prelude::*;
use crate::text::{decimal_digits, push_decimal};
use vstd::string::*;

verus! {

/// One frame of an animation and how long it shows.
#[derive(Debug)]
pub struct Frame {
    pub file: String,
    pub delay: u64,
}

/// Where an animation's frames are and how they are timed.
#[derive(Debug)]
pub struct Body {
    pub original_src: String,
    pub mime_type: String,
    pub frames: Vec<Frame>,
}


/// The address of the animation data of work `illust_id`.
pub fn url(illust_id: u64) -> (r: String)
    ensures
        r@ == "https://www.pixiv.net/ajax/illust/"@ + decimal_digits(illust_id as nat)
            + "/ugoira_meta"@,
{
    let mut r = String::from_str("https://www.pixiv.net/ajax/illust/");
    push_decimal(&mut r, illust_id);
    r.append("/ugoira_meta");
    r
}

} // verus!
