//! The one cookie this backend uses: the session token travels as
//! `accessToken=<token>`, set as an http-only, strictly same-site,
//! secure cookie scoped to the path `/`. Building the `Set-Cookie`
//! header value and finding the token in a `Cookie` request header are
//! both plain string work on a small grammar, done here in verified
//! code.

use vstd::prelude::*;

verus! {

/// The `Set-Cookie` header value that carries `token` under `name`.
pub open spec fn cookie_header(name: Seq<char>, token: Seq<char>) -> Seq<char> {
    name + "="@ + token + "; HttpOnly; SameSite=Strict; Secure; Path=/"@
}

/// Render the `Set-Cookie` header value for a session cookie: http-only,
/// same-site strict, secure, path `/`.
pub fn set_cookie(type_of_cookie: &str, token: String) -> (r: String)
    ensures
        r@ == cookie_header(type_of_cookie@, token@),
{
    let r = String::from_str(type_of_cookie).concat("=").concat(token.as_str()).concat(
        "; HttpOnly; SameSite=Strict; Secure; Path=/",
    );
    proof {
        assert(r@ =~= cookie_header(type_of_cookie@, token@));
    }
    r
}

/// The first index at or after `from` where `c` stands in `s`; the length
/// of `s` when `c` does not occur there.
pub open spec fn index_of_from(s: Seq<char>, c: char, from: int) -> int
    decreases s.len() - from,
{
    if from < 0 || from >= s.len() {
        s.len() as int
    } else if s[from] == c {
        from
    } else {
        index_of_from(s, c, from + 1)
    }
}

pub proof fn lemma_index_of_from_bounds(s: Seq<char>, c: char, from: int)
    requires
        0 <= from <= s.len(),
    ensures
        from <= index_of_from(s, c, from) <= s.len(),
        index_of_from(s, c, from) < s.len() ==> s[index_of_from(s, c, from)] == c,
        forall|k: int| from <= k < index_of_from(s, c, from) ==> s[k] != c,
    decreases s.len() - from,
{
    if from < s.len() && s[from] != c {
        lemma_index_of_from_bounds(s, c, from + 1);
    }
}

/// The value of the cookie named `name` in the request header `s`,
/// reading from position `from` on: cookie pairs are separated by `;`,
/// may be preceded by spaces, and the first pair whose name matches
/// wins.
pub open spec fn spec_cookie_value(s: Seq<char>, name: Seq<char>, from: int) -> Option<Seq<char>>
    decreases s.len() - from,
    via spec_cookie_value_decreases
{
    if from < 0 || from > s.len() {
        None
    } else {
        let start = skip_spaces(s, from);
        let end = index_of_from(s, ';', start);
        let eq = index_of_from(s, '=', start);
        let found = eq < end && s.subrange(start, eq) == name;
        if found {
            Some(s.subrange(eq + 1, end))
        } else if end >= s.len() {
            None
        } else {
            spec_cookie_value(s, name, end + 1)
        }
    }
}

#[via_fn]
proof fn spec_cookie_value_decreases(s: Seq<char>, name: Seq<char>, from: int) {
    if 0 <= from <= s.len() {
        lemma_skip_spaces_bounds(s, from);
        lemma_index_of_from_bounds(s, ';', skip_spaces(s, from));
    }
}

/// The first index at or after `from` that does not hold a space.
pub open spec fn skip_spaces(s: Seq<char>, from: int) -> int
    decreases s.len() - from,
{
    if from < 0 || from >= s.len() {
        s.len() as int
    } else if s[from] == ' ' {
        skip_spaces(s, from + 1)
    } else {
        from
    }
}

pub proof fn lemma_skip_spaces_bounds(s: Seq<char>, from: int)
    requires
        0 <= from <= s.len(),
    ensures
        from <= skip_spaces(s, from) <= s.len(),
        skip_spaces(s, from) < s.len() ==> s[skip_spaces(s, from)] != ' ',
        forall|k: int| from <= k < skip_spaces(s, from) ==> s[k] == ' ',
    decreases s.len() - from,
{
    if from < s.len() && s[from] == ' ' {
        lemma_skip_spaces_bounds(s, from + 1);
    }
}

/// The executable side of `skip_spaces`.
fn skip_spaces_exec(s: &str, from: usize) -> (r: usize)
    requires
        from <= s@.len(),
    ensures
        r as int == skip_spaces(s@, from as int),
        from <= r <= s@.len(),
{
    let n = s.unicode_len();
    let mut i: usize = from;
    while i < n
        invariant
            from <= i <= n,
            n == s@.len(),
            forall|k: int| from <= k < i ==> s@[k] == ' ',
        decreases n - i,
    {
        if s.get_char(i) != ' ' {
            proof {
                lemma_skip_spaces_bounds(s@, from as int);
            }
            return i;
        }
        i = i + 1;
    }
    proof {
        lemma_skip_spaces_bounds(s@, from as int);
    }
    i
}

/// Find the value of the cookie named `name` in a `Cookie` request
/// header.
pub fn cookie_token(header: &str, name: &str) -> (r: Option<String>)
    ensures
        match r {
            Some(v) => spec_cookie_value(header@, name@, 0) == Some(v@),
            None => spec_cookie_value(header@, name@, 0) is None,
        },
{
    let n = header.unicode_len();
    let mut from: usize = 0;
    loop
        invariant
            from <= n,
            n == header@.len(),
            spec_cookie_value(header@, name@, 0) == spec_cookie_value(
                header@,
                name@,
                from as int,
            ),
        decreases n - from,
    {
        let start = skip_spaces_exec(header, from);
        let end = crate::strutil::find_char_from(header, ';', start);
        let eq = crate::strutil::find_char_from(header, '=', start);
        if eq < end && crate::strutil::str_eq(header.substring_char(start, eq), name) {
            let v = header.substring_char(eq + 1, end).to_owned();
            return Some(v);
        }
        if end >= n {
            return None;
        }
        from = end + 1;
    }
}

} // verus!
