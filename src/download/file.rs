//! The Transfer Engine's decisions for one file: its final and temporary paths,
//! and after each attempt whether to finish, try again or give up.
//!
//! An attempt writes the file under a temporary name (`._` before the file
//! name); only a complete attempt is renamed to the final name, and a later
//! attempt overwrites what a failed one left.

use vstd::prelude::*;
use vstd::string::*;

use crate::text::{chars_of, join_path, path_join};

verus! {

/// The index of the last `c` among the first `n` characters of `s`.
pub open spec fn last_index_of(s: Seq<char>, c: char, n: int) -> Option<int>
    decreases n,
{
    if n <= 0 || n > s.len() {
        None
    } else if s[n - 1] == c {
        Some(n - 1)
    } else {
        last_index_of(s, c, n - 1)
    }
}

/// The file name in a URL: what follows its last `/`, or all of it.
pub open spec fn file_name_of(url: Seq<char>) -> Seq<char> {
    match last_index_of(url, '/', url.len() as int) {
        Some(i) => url.subrange(i + 1, url.len() as int),
        None => url,
    }
}

/// The name a file has while it is being written.
pub open spec fn temp_name_of(file_name: Seq<char>) -> Seq<char> {
    seq!['.', '_'] + file_name
}

/// The paths of one transfer.
#[derive(Debug)]
pub struct MyPaths {
    /// The file's name, from its URL.
    pub filename: String,
    /// Where the file ends up.
    pub dest: String,
    /// Where the file is written before it is complete.
    pub temp: String,
}

impl MyPaths {
    /// The paths for the file at `url` downloaded into `dest_dir`.
    pub fn from_url_dest_dir(url: &str, dest_dir: &str) -> (r: MyPaths)
        ensures
            r.filename@ == file_name_of(url@),
            r.dest@ == path_join(dest_dir@, file_name_of(url@)),
            r.temp@ == path_join(dest_dir@, temp_name_of(file_name_of(url@))),
    {
        let c = chars_of(url);
        let n = c.len();
        let mut k: usize = n;
        while k > 0 && c[k - 1] != '/'
            invariant
                k <= n == c@.len(),
                c@ == url@,
                last_index_of(url@, '/', n as int) == last_index_of(url@, '/', k as int),
            decreases k,
        {
            k = k - 1;
        }
        let filename = String::from_str(url.substring_char(k, n));
        proof {
            if k > 0 {
                assert(file_name_of(url@) == url@.subrange(k as int, n as int));
            } else {
                assert(url@.subrange(0, n as int) =~= url@);
            }
        }
        let dest = join_path(dest_dir, filename.as_str());
        let mut temp_name = String::from_str("._");
        proof {
            reveal_strlit("._");
        }
        temp_name.append(filename.as_str());
        assert(temp_name@ =~= temp_name_of(file_name_of(url@)));
        let temp = join_path(dest_dir, temp_name.as_str());
        MyPaths { filename, dest, temp }
    }
}

/// What follows an attempt.
#[derive(Debug, Clone, Copy, PartialEq, Eq, Structural)]
pub enum Verdict {
    /// The attempt succeeded: rename the temporary file to its final name.
    Complete,
    /// The attempt failed and tries are left: try again.
    Retry,
    /// The attempt failed and was the last allowed: report the failure.
    GiveUp,
}

/// What follows an attempt that was try number `tries + 1` of `max_tries`.
pub open spec fn verdict_of(tries: nat, max_tries: nat, succeeded: bool) -> Verdict {
    if succeeded {
        Verdict::Complete
    } else if tries + 1 >= max_tries {
        Verdict::GiveUp
    } else {
        Verdict::Retry
    }
}

/// How a transfer ends.
pub enum TransferEnd {
    /// The file is complete after this many attempts.
    Completed { attempts: nat },
    /// Every allowed attempt failed; this many were made.
    GaveUp { attempts: nat },
    /// The outcomes ran out before the transfer ended.
    Unfinished,
}

/// How a transfer that has made `tries` failed attempts ends, given the outcomes
/// of the attempts still to come.
pub open spec fn transfer_end(tries: nat, max_tries: nat, outcomes: Seq<bool>) -> TransferEnd
    decreases outcomes.len(),
{
    if outcomes.len() == 0 {
        TransferEnd::Unfinished
    } else {
        match verdict_of(tries, max_tries, outcomes[0]) {
            Verdict::Complete => TransferEnd::Completed { attempts: tries + 1 },
            Verdict::GiveUp => TransferEnd::GaveUp { attempts: tries + 1 },
            Verdict::Retry => transfer_end(tries + 1, max_tries, outcomes.drop_first()),
        }
    }
}

/// The attempts of one transfer: how many failed so far, of how many allowed.
#[derive(Debug, Clone, Copy)]
pub struct Transfer {
    pub tries: usize,
    pub max_tries: usize,
}

impl Transfer {
    /// A transfer allowed `max_tries` attempts (one at least is always made).
    pub fn new(max_tries: usize) -> (r: Transfer)
        ensures
            r.tries == 0,
            r.max_tries == max_tries,
    {
        Transfer { tries: 0, max_tries }
    }

    /// Another attempt may be made: none failed yet, or fewer than allowed.
    pub open spec fn may_attempt(&self) -> bool {
        self.tries == 0 || self.tries < self.max_tries
    }

    /// Takes in the outcome of an attempt and says what follows.
    pub fn after_attempt(&mut self, succeeded: bool) -> (r: Verdict)
        requires
            old(self).may_attempt(),
        ensures
            r == verdict_of(old(self).tries as nat, old(self).max_tries as nat, succeeded),
            final(self).max_tries == old(self).max_tries,
            final(self).tries == if succeeded {
                old(self).tries
            } else {
                (old(self).tries + 1) as usize
            },
            r == Verdict::Retry ==> final(self).may_attempt(),
    {
        if succeeded {
            return Verdict::Complete;
        }
        self.tries = self.tries + 1;
        if self.tries >= self.max_tries {
            Verdict::GiveUp
        } else {
            Verdict::Retry
        }
    }
}

/// A transfer whose first `k` attempts fail and whose next one succeeds, with
/// `k` below the number of attempts allowed, completes after `k + 1` attempts:
/// the file is renamed to its final name.
pub proof fn lemma_transfer_completes_after_failures(max_tries: nat, k: nat)
    requires
        k < max_tries,
    ensures
        transfer_end(0, max_tries, Seq::new(k, |i: int| false).push(true))
            == (TransferEnd::Completed { attempts: k + 1 }),
{
    lemma_failures_then_success(0, max_tries, k);
}

proof fn lemma_failures_then_success(tries: nat, max_tries: nat, k: nat)
    requires
        tries + k < max_tries,
    ensures
        transfer_end(tries, max_tries, Seq::new(k, |i: int| false).push(true))
            == (TransferEnd::Completed { attempts: tries + k + 1 }),
    decreases k,
{
    let o = Seq::new(k, |i: int| false).push(true);
    if k > 0 {
        assert(o.drop_first() =~= Seq::new((k - 1) as nat, |i: int| false).push(true));
        assert(o[0] == false);
        lemma_failures_then_success(tries + 1, max_tries, (k - 1) as nat);
    } else {
        assert(o[0] == true);
    }
}

/// A transfer whose allowed attempts all fail gives up after exactly that many
/// attempts, and never renames a file to its final name.
pub proof fn lemma_transfer_gives_up(max_tries: nat, outcomes: Seq<bool>)
    requires
        max_tries >= 1,
        outcomes.len() >= max_tries,
        forall|i: int| 0 <= i < max_tries ==> !(#[trigger] outcomes[i]),
    ensures
        transfer_end(0, max_tries, outcomes) == (TransferEnd::GaveUp { attempts: max_tries }),
{
    lemma_failures_give_up(0, max_tries, outcomes);
}

proof fn lemma_failures_give_up(tries: nat, max_tries: nat, outcomes: Seq<bool>)
    requires
        tries < max_tries,
        tries + outcomes.len() >= max_tries,
        forall|i: int| 0 <= i < max_tries - tries ==> !(#[trigger] outcomes[i]),
    ensures
        transfer_end(tries, max_tries, outcomes) == (TransferEnd::GaveUp { attempts: max_tries }),
    decreases outcomes.len(),
{
    assert(!outcomes[0]);
    if tries + 1 < max_tries {
        let rest = outcomes.drop_first();
        assert forall|i: int| 0 <= i < max_tries - (tries + 1) implies !(#[trigger] rest[i]) by {
            assert(rest[i] == outcomes[i + 1]);
        }
        lemma_failures_give_up(tries + 1, max_tries, rest);
    }
}

} // verus!
