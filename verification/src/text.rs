//! Character-level text helpers: searching for a separator, comparing
//! strings, and the pieces of a `user:password@host:port/...` URL.

use vstd::prelude::*;

verus! {

/// Index of the first occurrence of `c` in `s` at or after `from`,
/// or `-1` when there is none.
pub open spec fn first_index_from(s: Seq<char>, c: char, from: int) -> int
    decreases s.len() - from when 0 <= from
{
    if from >= s.len() {
        -1
    } else if s[from] == c {
        from
    } else {
        first_index_from(s, c, from + 1)
    }
}

/// Find the first occurrence of `c` in `s` at or after `from`.
pub fn find_from(s: &str, c: char, from: usize) -> (r: Option<usize>)
    requires
        from <= s@.len(),
    ensures
        match r {
            Some(i) => {
                &&& i == first_index_from(s@, c, from as int)
                &&& from <= i < s@.len()
                &&& s@[i as int] == c
                &&& forall|j: int| from <= j < i ==> s@[j] != c
            },
            None => {
                &&& first_index_from(s@, c, from as int) == -1
                &&& forall|j: int| from <= j < s@.len() ==> s@[j] != c
            },
        },
{
    let len = s.unicode_len();
    let mut i = from;
    while i < len
        invariant
            from <= i <= len,
            len == s@.len(),
            first_index_from(s@, c, from as int) == first_index_from(s@, c, i as int),
            forall|j: int| from <= j < i ==> s@[j] != c,
        decreases len - i,
    {
        if s.get_char(i) == c {
            return Some(i);
        }
        i = i + 1;
    }
    None
}

/// Whether two strings hold the same characters.
pub fn str_eq(a: &str, b: &str) -> (r: bool)
    ensures
        r == (a@ == b@),
{
    let a_len = a.unicode_len();
    let b_len = b.unicode_len();
    if a_len != b_len {
        return false;
    }
    let mut i: usize = 0;
    while i < a_len
        invariant
            i <= a_len,
            a_len == a@.len(),
            a_len == b@.len(),
            forall|j: int| 0 <= j < i ==> a@[j] == b@[j],
        decreases a_len - i,
    {
        if a.get_char(i) != b.get_char(i) {
            proof {
                assert(a@[i as int] != b@[i as int]);
            }
            return false;
        }
        i = i + 1;
    }
    proof {
        assert(a@ =~= b@);
    }
    true
}

/// One step of the property-list accumulation: a separating comma goes in
/// front of both the key and the value, except while the key list still
/// holds nothing but its opening parenthesis.
pub open spec fn kv_step(acc: (Seq<char>, Seq<char>), k: Seq<char>, v: Seq<char>) -> (Seq<
    char,
>, Seq<char>) {
    if acc.0.len() != 1 {
        (acc.0 + seq![','] + k, acc.1 + seq![','] + v)
    } else {
        (acc.0 + k, acc.1 + v)
    }
}

/// The key and value lists accumulated over `kv`, both starting from `(`.
pub open spec fn kv_accum(kv: Seq<(String, String)>) -> (Seq<char>, Seq<char>)
    decreases kv.len(),
{
    if kv.len() == 0 {
        (seq!['('], seq!['('])
    } else {
        kv_step(kv_accum(kv.drop_last()), kv.last().0@, kv.last().1@)
    }
}

/// The finished key list: `(k1,k2,...)`.
pub open spec fn kv_keys(kv: Seq<(String, String)>) -> Seq<char> {
    kv_accum(kv).0 + seq![')']
}

/// The finished value list: `(v1,v2,...)`.
pub open spec fn kv_values(kv: Seq<(String, String)>) -> Seq<char> {
    kv_accum(kv).1 + seq![')']
}

/// Render the keys and the values of a property list as the two
/// parenthesised, comma-separated lists that go into an insert query.
pub fn kv_lists(kv: &Vec<(String, String)>) -> (r: (String, String))
    ensures
        r.0@ == kv_keys(kv@),
        r.1@ == kv_values(kv@),
{
    proof {
        reveal_strlit("(");
        reveal_strlit(")");
        reveal_strlit(",");
        assert("("@ =~= seq!['(']);
        assert(")"@ =~= seq![')']);
        assert(","@ =~= seq![',']);
    }
    let mut keys = "(".to_owned();
    let mut values = "(".to_owned();
    let mut i: usize = 0;
    while i < kv.len()
        invariant
            i <= kv.len(),
            keys@ == kv_accum(kv@.subrange(0, i as int)).0,
            values@ == kv_accum(kv@.subrange(0, i as int)).1,
            ","@ == seq![','],
        decreases kv.len() - i,
    {
        proof {
            assert(kv@.subrange(0, i + 1).drop_last() =~= kv@.subrange(0, i as int));
            assert(kv@.subrange(0, i + 1).last() == kv@[i as int]);
        }
        if keys.unicode_len() != 1 {
            keys.append(",");
            values.append(",");
        }
        keys.append(kv[i].0.as_str());
        values.append(kv[i].1.as_str());
        i = i + 1;
    }
    proof {
        assert(kv@.subrange(0, kv@.len() as int) =~= kv@);
    }
    keys.append(")");
    values.append(")");
    (keys, values)
}

/// The part of the URL before the first `@`: `user:password`.
pub open spec fn url_userinfo(s: Seq<char>) -> Seq<char> {
    s.subrange(0, first_index_from(s, '@', 0))
}

/// A URL the parser accepts: an `@` somewhere, and a `:` before it.
pub open spec fn url_well_formed(s: Seq<char>) -> bool {
    &&& first_index_from(s, '@', 0) >= 0
    &&& first_index_from(url_userinfo(s), ':', 0) >= 0
}

/// The username: the userinfo up to its first `:`.
pub open spec fn url_username(s: Seq<char>) -> Seq<char> {
    let userinfo = url_userinfo(s);
    userinfo.subrange(0, first_index_from(userinfo, ':', 0))
}

/// The password: the userinfo between its first and second `:`, or to its
/// end when there is no second one.
pub open spec fn url_password(s: Seq<char>) -> Seq<char> {
    let userinfo = url_userinfo(s);
    let c1 = first_index_from(userinfo, ':', 0);
    let c2 = first_index_from(userinfo, ':', c1 + 1);
    if c2 < 0 {
        userinfo.subrange(c1 + 1, userinfo.len() as int)
    } else {
        userinfo.subrange(c1 + 1, c2)
    }
}

/// The address: between the first `@` and the next `@` or the end,
/// cut at the first `/`.
pub open spec fn url_address(s: Seq<char>) -> Seq<char> {
    let a1 = first_index_from(s, '@', 0);
    let a2 = first_index_from(s, '@', a1 + 1);
    let rest = s.subrange(a1 + 1, if a2 < 0 { s.len() as int } else { a2 });
    let sl = first_index_from(rest, '/', 0);
    if sl < 0 {
        rest
    } else {
        rest.subrange(0, sl)
    }
}

/// Cut the three URL pieces out of `s`: `(username, password, address)`.
pub fn parse_url(s: &str) -> (r: (String, String, String))
    requires
        url_well_formed(s@),
    ensures
        r.0@ == url_username(s@),
        r.1@ == url_password(s@),
        r.2@ == url_address(s@),
{
    let len = s.unicode_len();
    let a1 = match find_from(s, '@', 0) {
        Some(i) => i,
        None => 0,  // ruled out by url_well_formed
    };
    let userinfo = s.substring_char(0, a1);
    let c1 = match find_from(userinfo, ':', 0) {
        Some(i) => i,
        None => 0,  // ruled out by url_well_formed
    };
    let username = userinfo.substring_char(0, c1);
    let userinfo_len = userinfo.unicode_len();
    let password = match find_from(userinfo, ':', c1 + 1) {
        Some(c2) => userinfo.substring_char(c1 + 1, c2),
        None => userinfo.substring_char(c1 + 1, userinfo_len),
    };
    let rest_end = match find_from(s, '@', a1 + 1) {
        Some(a2) => a2,
        None => len,
    };
    let rest = s.substring_char(a1 + 1, rest_end);
    let address = match find_from(rest, '/', 0) {
        Some(sl) => rest.substring_char(0, sl),
        None => rest,
    };
    (username.to_owned(), password.to_owned(), address.to_owned())
}

} // verus!
