//! The user store: names with their session cookies and an optional default
//! user, and the reading of a user's numeric identifier out of a cookie.

use vstd::prelude::*;

use crate::text::{
    chars_eq, chars_of, parse_u64, parse_u64_spec, split, split_once, split_once_seq, split_seq,
    strip_prefix, strip_prefix_seq, views, opt_chars,
};

verus! {

/// The identifier in one `^`-separated part of the tracking field: a part
/// `a=user_id=N` gives `N`.
pub open spec fn id_in_part(part: Seq<char>) -> Option<u64> {
    let sub = split_seq(part, "="@);
    if sub.len() > 2 && sub[1] == "user_id"@ {
        parse_u64_spec(sub[2])
    } else {
        None
    }
}

/// The first identifier found in `parts`, in order.
pub open spec fn first_id_in_parts(parts: Seq<Seq<char>>) -> Option<u64>
    decreases parts.len(),
{
    if parts.len() == 0 {
        None
    } else {
        match id_in_part(parts[0]) {
            Some(v) => Some(v),
            None => first_id_in_parts(parts.drop_first()),
        }
    }
}

/// The identifier in one cookie field, which must be the `__utmv` tracking
/// field: what follows its first `|` is a `^`-separated list of parts.
pub open spec fn id_in_field(field: Seq<char>) -> Option<u64> {
    match split_once_seq(field, "="@) {
        Some(kv) => if kv.0 == "__utmv"@ {
            match split_once_seq(kv.1, "|"@) {
                Some(u) => first_id_in_parts(split_seq(u.1, "^"@)),
                None => None,
            }
        } else {
            None
        },
        None => None,
    }
}

/// The first identifier found in `fields`, in order.
pub open spec fn first_id_in_fields(fields: Seq<Seq<char>>) -> Option<u64>
    decreases fields.len(),
{
    if fields.len() == 0 {
        None
    } else {
        match id_in_field(fields[0]) {
            Some(v) => Some(v),
            None => first_id_in_fields(fields.drop_first()),
        }
    }
}

/// The user identifier that a cookie carries: the first one found in its fields.
pub open spec fn cookie_user_id(cookie: Seq<char>) -> Option<u64> {
    first_id_in_fields(split_seq(cookie, "; "@))
}

proof fn lemma_suffix_step<A>(s: Seq<A>, k: int)
    requires
        0 <= k < s.len(),
    ensures
        s.subrange(k, s.len() as int).drop_first() == s.subrange(k + 1, s.len() as int),
        s.subrange(k, s.len() as int)[0] == s[k],
{
    assert(s.subrange(k, s.len() as int).drop_first() =~= s.subrange(k + 1, s.len() as int));
}

fn id_in_part_exec(part: &Vec<char>) -> (r: Option<u64>)
    ensures
        r == id_in_part(part@),
{
    proof {
        reveal_strlit("=");
    }
    let eq = chars_of("=");
    let sub = split(part, &eq);
    if sub.len() > 2 {
        let key = chars_of("user_id");
        if chars_eq(&sub[1], &key) {
            return parse_u64(&sub[2]);
        }
    }
    None
}

fn id_in_field_exec(field: &Vec<char>) -> (r: Option<u64>)
    ensures
        r == id_in_field(field@),
{
    proof {
        reveal_strlit("^");
    }
    let eq = chars_of("=");
    let kv = match split_once(field, &eq) {
        Some(kv) => kv,
        None => {
            return None;
        },
    };
    if !chars_eq(&kv.0, &chars_of("__utmv")) {
        return None;
    }
    let u = match split_once(&kv.1, &chars_of("|")) {
        Some(u) => u,
        None => {
            return None;
        },
    };
    let parts = split(&u.1, &chars_of("^"));
    let ghost all = views(parts@);
    assert(all.subrange(0, all.len() as int) =~= all);
    let mut k: usize = 0;
    while k < parts.len()
        invariant
            k <= parts@.len(),
            all == views(parts@),
            id_in_field(field@) == first_id_in_parts(all.subrange(k as int, all.len() as int)),
        decreases parts@.len() - k,
    {
        let found = id_in_part_exec(&parts[k]);
        proof {
            lemma_suffix_step(all, k as int);
        }
        if found.is_some() {
            return found;
        }
        k = k + 1;
    }
    None
}

/// The user identifier carried by a cookie's `__utmv` tracking field, if any.
pub fn get_user_id(cookie: &str) -> (r: Option<u64>)
    ensures
        r == cookie_user_id(cookie@),
{
    proof {
        reveal_strlit("; ");
    }
    let c = chars_of(cookie);
    let fields = split(&c, &chars_of("; "));
    let ghost all = views(fields@);
    assert(all.subrange(0, all.len() as int) =~= all);
    let mut k: usize = 0;
    while k < fields.len()
        invariant
            k <= fields@.len(),
            all == views(fields@),
            cookie_user_id(cookie@) == first_id_in_fields(all.subrange(k as int, all.len() as int)),
        decreases fields@.len() - k,
    {
        let found = id_in_field_exec(&fields[k]);
        proof {
            lemma_suffix_step(all, k as int);
        }
        if found.is_some() {
            return found;
        }
        k = k + 1;
    }
    None
}

/// A cookie without the header name it may carry.
pub open spec fn sanitized(cookie: Seq<char>) -> Seq<char> {
    strip_prefix_seq(cookie, "Cookie: "@)
}

/// Removes the header name a cookie copied from a browser may carry.
pub fn sanitize(cookie: &str) -> (r: String)
    ensures
        r@ == sanitized(cookie@),
{
    let c = chars_of(cookie);
    let stripped = strip_prefix(&c, &chars_of("Cookie: "));
    let n = cookie.unicode_len();
    let from = n - stripped.len();
    assert(stripped@ =~= cookie@.subrange(from as int, n as int));
    String::from_str(vstd::string::StrSliceExecFns::substring_char(cookie, from, n))
}

/// The cookie stored for `name`: the last entry of that name counts.
pub open spec fn cookie_of(users: Seq<(String, String)>, name: Seq<char>) -> Option<Seq<char>>
    decreases users.len(),
{
    if users.len() == 0 {
        None
    } else if users.last().0@ == name {
        Some(users.last().1@)
    } else {
        cookie_of(users.drop_last(), name)
    }
}

/// No two entries have the same name.
pub open spec fn names_unique(users: Seq<(String, String)>) -> bool {
    forall|i: int, j: int|
        0 <= i < j < users.len() ==> (#[trigger] users[i]).0@ != (#[trigger] users[j]).0@
}

/// Why the user store refused a request.
#[derive(Debug, Clone, Copy, PartialEq, Eq, Structural)]
pub enum DbError {
    /// No user of that name is stored.
    NoSuchUser,
    /// The user's cookie carries no user identifier.
    NoUserIdInCookie,
}

impl DbError {
    /// A sentence that tells the user what was wrong.
    pub fn message(&self) -> (r: String)
        ensures
            r@ == match self {
                DbError::NoSuchUser => "No such user in database !"@,
                DbError::NoUserIdInCookie => "Couldn't get user id from cookie !"@,
            },
    {
        match self {
            DbError::NoSuchUser => String::from_str("No such user in database !"),
            DbError::NoUserIdInCookie => String::from_str("Couldn't get user id from cookie !"),
        }
    }
}

/// The stored users, each with a session cookie, and the default user if any.
#[derive(Debug)]
pub struct UserDatabase {
    pub default_user: Option<String>,
    pub users: Vec<(String, String)>,
}

/// A copy of `s`.
fn copy_string(s: &String) -> (r: String)
    ensures
        r@ == s@,
{
    String::from_str(s.as_str())
}

impl UserDatabase {
    /// The store is well formed: each name is stored once.
    pub open spec fn wf(&self) -> bool {
        names_unique(self.users@)
    }

    /// A store with no users and no default.
    pub fn new() -> (r: UserDatabase)
        ensures
            r.default_user is None,
            r.users@.len() == 0,
            r.wf(),
    {
        UserDatabase { default_user: None, users: Vec::new() }
    }

    /// The index of the entry that counts for `name`.
    fn find(&self, name: &str) -> (r: Option<usize>)
        ensures
            match r {
                Some(i) => i < self.users@.len() && cookie_of(self.users@, name@) == Some(
                    self.users@[i as int].1@,
                ),
                None => cookie_of(self.users@, name@) is None,
            },
    {
        let key = String::from_str(name);
        let mut k: usize = self.users.len();
        assert(self.users@.take(k as int) =~= self.users@);
        while k > 0
            invariant
                k <= self.users@.len(),
                key@ == name@,
                cookie_of(self.users@, name@) == cookie_of(self.users@.take(k as int), name@),
            decreases k,
        {
            assert(self.users@.take(k as int).drop_last() =~= self.users@.take(k - 1));
            if self.users[k - 1].0 == key {
                return Some(k - 1);
            }
            k = k - 1;
        }
        None
    }

    /// The cookie stored for `name`.
    pub fn get_cookie(&self, name: &str) -> (r: Option<String>)
        ensures
            opt_chars(r) == cookie_of(self.users@, name@),
    {
        match self.find(name) {
            Some(i) => Some(copy_string(&self.users[i].1)),
            None => None,
        }
    }

    /// The cookie of the default user, if there is one and they are stored.
    pub fn get_default_cookie(&self) -> (r: Option<String>)
        ensures
            opt_chars(r) == match self.default_user {
                Some(u) => cookie_of(self.users@, u@),
                None => None,
            },
    {
        match &self.default_user {
            Some(u) => self.get_cookie(u.as_str()),
            None => None,
        }
    }

    /// The stored names, in order.
    pub fn user_names(&self) -> (r: Vec<String>)
        ensures
            r@.len() == self.users@.len(),
            forall|i: int| 0 <= i < r@.len() ==> (#[trigger] r@[i])@ == self.users@[i].0@,
    {
        let mut r: Vec<String> = Vec::new();
        let mut k: usize = 0;
        while k < self.users.len()
            invariant
                k <= self.users@.len(),
                r@.len() == k,
                forall|i: int| 0 <= i < k ==> (#[trigger] r@[i])@ == self.users@[i].0@,
            decreases self.users@.len() - k,
        {
            r.push(copy_string(&self.users[k].0));
            k = k + 1;
        }
        r
    }

    /// Leaves out every entry named `name`.
    fn drop_user(&mut self, name: &str)
        ensures
            final(self).default_user == old(self).default_user,
            old(self).wf() ==> final(self).wf(),
            forall|i: int| 0 <= i < final(self).users@.len() ==> (#[trigger] final(self).users@[i]).0@ != name@,
            forall|n: Seq<char>| #[trigger]
                cookie_of(final(self).users@, n) == if n == name@ {
                    None
                } else {
                    cookie_of(old(self).users@, n)
                },
    {
        let key = String::from_str(name);
        let mut kept: Vec<(String, String)> = Vec::new();
        let ghost uniq = self.wf();
        let ghost mut from: Seq<int> = Seq::empty();
        let mut k: usize = 0;
        while k < self.users.len()
            invariant
                k <= self.users@.len(),
                key@ == name@,
                uniq == names_unique(self.users@),
                from.len() == kept@.len(),
                forall|i: int|
                    0 <= i < kept@.len() ==> 0 <= #[trigger] from[i] < k && self.users@[from[i]].0@
                        == kept@[i].0@ && kept@[i].0@ != name@,
                forall|i: int, j: int| 0 <= i < j < from.len() ==> from[i] < from[j],
                uniq ==> names_unique(kept@),
                forall|n: Seq<char>| #[trigger]
                    cookie_of(kept@, n) == if n == name@ {
                        None
                    } else {
                        cookie_of(self.users@.take(k as int), n)
                    },
            decreases self.users@.len() - k,
        {
            let ghost prefix = self.users@.take(k + 1);
            assert(prefix.drop_last() =~= self.users@.take(k as int));
            assert(prefix.last() == self.users@[k as int]);
            let ghost before = kept@;
            if !(self.users[k].0 == key) {
                let entry = (copy_string(&self.users[k].0), copy_string(&self.users[k].1));
                kept.push(entry);
                proof {
                    from = from.push(k as int);
                    assert forall|i: int| 0 <= i < kept@.len() implies 0 <= #[trigger] from[i]
                        < k + 1 && self.users@[from[i]].0@ == kept@[i].0@ && kept@[i].0@
                        != name@ by {
                        if i < before.len() {
                            assert(kept@[i] == before[i]);
                        }
                    }
                    if uniq {
                        assert forall|i: int, j: int|
                            0 <= i < j < kept@.len() implies (#[trigger] kept@[i]).0@ != (
                        #[trigger] kept@[j]).0@ by {
                            assert(kept@[i] == before[i]);
                            if j < before.len() {
                                assert(kept@[j] == before[j]);
                            } else {
                                assert(self.users@[from[i]].0@ != self.users@[k as int].0@);
                            }
                        }
                    }
                }
                assert(kept@.drop_last() =~= before);
                assert forall|n: Seq<char>| #[trigger]
                    cookie_of(kept@, n) == if n == name@ {
                        None
                    } else {
                        cookie_of(prefix, n)
                    } by {
                    assert(cookie_of(before, n) == if n == name@ {
                        None
                    } else {
                        cookie_of(self.users@.take(k as int), n)
                    });
                }
            } else {
                assert forall|n: Seq<char>| #[trigger]
                    cookie_of(kept@, n) == if n == name@ {
                        None
                    } else {
                        cookie_of(prefix, n)
                    } by {
                    assert(cookie_of(before, n) == if n == name@ {
                        None
                    } else {
                        cookie_of(self.users@.take(k as int), n)
                    });
                }
            }
            k = k + 1;
        }
        assert(self.users@.take(k as int) =~= self.users@);
        assert forall|i: int| 0 <= i < kept@.len() implies (#[trigger] kept@[i]).0@ != name@ by {
            assert(0 <= from[i] < k);
        }
        self.users = kept;
    }

    /// Stores `username` with `cookie`, without its header name; a user of that
    /// name is replaced.
    pub fn add_user(&mut self, username: &str, cookie: &str)
        ensures
            final(self).default_user == old(self).default_user,
            old(self).wf() ==> final(self).wf(),
            forall|n: Seq<char>| #[trigger]
                cookie_of(final(self).users@, n) == if n == username@ {
                    Some(sanitized(cookie@))
                } else {
                    cookie_of(old(self).users@, n)
                },
    {
        self.drop_user(username);
        let ghost dropped = self.users@;
        self.users.push((String::from_str(username), sanitize(cookie)));
        assert(self.users@.drop_last() =~= dropped);
        assert forall|i: int, j: int|
            0 <= i < j < self.users@.len() && names_unique(dropped) implies (
        #[trigger] self.users@[i]).0@ != (#[trigger] self.users@[j]).0@ by {
            assert(self.users@[i] == dropped[i]);
            if j < dropped.len() {
                assert(self.users@[j] == dropped[j]);
            }
        }
        assert forall|n: Seq<char>| #[trigger]
            cookie_of(self.users@, n) == if n == username@ {
                Some(sanitized(cookie@))
            } else {
                cookie_of(old(self).users@, n)
            } by {
            assert(cookie_of(dropped, n) == if n == username@ {
                None
            } else {
                cookie_of(old(self).users@, n)
            });
        }
    }

    /// Removes `username`, and the default if it was them.
    pub fn remove_user(&mut self, username: &str) -> (r: Result<(), DbError>)
        ensures
            old(self).wf() ==> final(self).wf(),
            match r {
                Ok(()) => cookie_of(old(self).users@, username@) is Some
                    && (forall|n: Seq<char>| #[trigger]
                    cookie_of(final(self).users@, n) == if n == username@ {
                        None
                    } else {
                        cookie_of(old(self).users@, n)
                    }) && final(self).default_user == match old(self).default_user {
                    Some(d) => if d@ == username@ {
                        None
                    } else {
                        Some(d)
                    },
                    None => None,
                },
                Err(e) => e == DbError::NoSuchUser && cookie_of(old(self).users@, username@) is None
                    && final(self).users@ == old(self).users@ && final(self).default_user
                    == old(self).default_user,
            },
    {
        if self.find(username).is_none() {
            return Err(DbError::NoSuchUser);
        }
        let mut clear = false;
        if let Some(d) = &self.default_user {
            clear = *d == String::from_str(username);
        }
        if clear {
            self.default_user = None;
        }
        self.drop_user(username);
        Ok(())
    }

    /// Makes `username` the default user, if they are stored.
    pub fn set_default(&mut self, username: String) -> (r: Result<(), DbError>)
        ensures
            final(self).users@ == old(self).users@,
            match r {
                Ok(()) => cookie_of(old(self).users@, username@) is Some
                    && final(self).default_user == Some(username),
                Err(e) => e == DbError::NoSuchUser && cookie_of(old(self).users@, username@) is None
                    && final(self).default_user == old(self).default_user,
            },
    {
        if self.find(username.as_str()).is_none() {
            return Err(DbError::NoSuchUser);
        }
        self.default_user = Some(username);
        Ok(())
    }

    /// Leaves no default user.
    pub fn remove_default(&mut self)
        ensures
            final(self).users@ == old(self).users@,
            final(self).default_user is None,
    {
        self.default_user = None;
    }

    /// The numeric identifier carried by the cookie of `username`.
    pub fn user_id_of(&self, username: &str) -> (r: Result<u64, DbError>)
        ensures
            match cookie_of(self.users@, username@) {
                None => r == Err::<u64, DbError>(DbError::NoSuchUser),
                Some(c) => match cookie_user_id(c) {
                    Some(id) => r == Ok::<u64, DbError>(id),
                    None => r == Err::<u64, DbError>(DbError::NoUserIdInCookie),
                },
            },
    {
        match self.find(username) {
            None => Err(DbError::NoSuchUser),
            Some(i) => match get_user_id(self.users[i].1.as_str()) {
                Some(id) => Ok(id),
                None => Err(DbError::NoUserIdInCookie),
            },
        }
    }
}

/// The cookie to use: that of the named user, who must be stored, or else that
/// of the default user, if any.
pub fn retrieve_cookie(db: &UserDatabase, user_override: Option<String>) -> (r: Result<
    Option<String>,
    DbError,
>)
    ensures
        match user_override {
            Some(u) => match cookie_of(db.users@, u@) {
                Some(c) => r matches Ok(Some(s)) && s@ == c,
                None => r == Err::<Option<String>, DbError>(DbError::NoSuchUser),
            },
            None => r matches Ok(o) && opt_chars(o) == match db.default_user {
                Some(d) => cookie_of(db.users@, d@),
                None => None,
            },
        },
{
    match user_override {
        Some(u) => match db.get_cookie(u.as_str()) {
            Some(c) => Ok(Some(c)),
            None => Err(DbError::NoSuchUser),
        },
        None => Ok(db.get_default_cookie()),
    }
}

} // verus!
