//! The Incremental Index: the files already present under a destination, and
//! the loose test of whether a work is among them.
//!
//! A work counts as present when its decimal identifier occurs anywhere in a
//! listed path. Files are named `{id}_p{page}.{ext}` or stand under `{id}/`, so
//! this finds every present work; it also takes `51234_p0.png` for work `1234`,
//! a false positive that comes with matching on substrings.

use vstd::prelude::*;

use crate::text::{chars_of, contains, contains_seq, decimal_digits, decimal_string, occurs_at};

verus! {

/// Some path of `files` contains `id`.
pub open spec fn in_files(id: Seq<char>, files: Seq<String>) -> bool {
    exists|i: int| 0 <= i < files.len() && contains_seq((#[trigger] files[i])@, id)
}

/// Whether `id` occurs in one of the listed paths.
pub fn is_illust_in_files(id: &str, files: &[String]) -> (r: bool)
    ensures
        r == in_files(id@, files@),
{
    let p = chars_of(id);
    let mut k: usize = 0;
    while k < files.len()
        invariant
            k <= files@.len(),
            p@ == id@,
            forall|i: int| 0 <= i < k ==> !contains_seq((#[trigger] files@[i])@, id@),
        decreases files@.len() - k,
    {
        let name = chars_of(files[k].as_str());
        if contains(&name, &p) {
            return true;
        }
        k = k + 1;
    }
    false
}

/// A work counts as present as soon as one listed path holds its decimal
/// identifier, whatever stands around it: `.../1234_p0.png` makes work 1234
/// present (and so does the unrelated `.../51234_p0.png`).
pub proof fn lemma_named_file_found(
    id: u64,
    files: Seq<String>,
    i: int,
    before: Seq<char>,
    after: Seq<char>,
)
    requires
        0 <= i < files.len(),
        files[i]@ == before + decimal_digits(id as nat) + after,
    ensures
        in_files(decimal_digits(id as nat), files),
{
    let d = decimal_digits(id as nat);
    assert(files[i]@.subrange(before.len() as int, (before.len() + d.len()) as int) =~= d);
    assert(occurs_at(files[i]@, d, before.len() as int));
}

/// Whether work `id` counts as already downloaded among `files`.
pub fn is_work_in_files(id: u64, files: &[String]) -> (r: bool)
    ensures
        r == in_files(decimal_digits(id as nat), files@),
{
    let s = decimal_string(id);
    is_illust_in_files(s.as_str(), files)
}

} // verus!
