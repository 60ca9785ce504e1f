use vstd::prelude::*;
use vstd::string::*;

verus! {

/// Whether `pat` stands in `s` from position `i`.
pub open spec fn occurs_at(s: Seq<char>, pat: Seq<char>, i: int) -> bool {
    0 <= i && i + pat.len() <= s.len() && s.subrange(i, i + pat.len()) == pat
}

/// The first position at or after `from` where `pat` stands in `s`.
pub open spec fn is_first_from(s: Seq<char>, pat: Seq<char>, from: int, i: int) -> bool {
    from <= i && occurs_at(s, pat, i) && forall|k: int| from <= k < i ==> !occurs_at(s, pat, k)
}

/// Whether `pat` stands at position `i` of `s`.
fn matches_at(s: &str, pat: &str, i: usize) -> (r: bool)
    requires
        i <= s@.len(),
    ensures
        r == occurs_at(s@, pat@, i as int),
{
    let n = s.unicode_len();
    let m = pat.unicode_len();
    if m > n - i {
        return false;
    }
    let mut k: usize = 0;
    while k < m
        invariant
            i + m <= n,
            n == s@.len(),
            m == pat@.len(),
            k <= m,
            forall|j: int| 0 <= j < k ==> s@[i + j] == pat@[j],
        decreases m - k,
    {
        if s.get_char(i + k) != pat.get_char(k) {
            assert(s@.subrange(i as int, i + m)[k as int] != pat@[k as int]);
            return false;
        }
        k = k + 1;
    }
    assert(s@.subrange(i as int, i + m) =~= pat@);
    true
}

/// The first position at or after `from` where `pat` stands in `s`.
fn find_from(s: &str, pat: &str, from: usize) -> (r: Option<usize>)
    requires
        from <= s@.len(),
    ensures
        match r {
            Some(i) => is_first_from(s@, pat@, from as int, i as int),
            None => forall|k: int| from <= k ==> !occurs_at(s@, pat@, k),
        },
{
    let n = s.unicode_len();
    let mut i = from;
    while i <= n
        invariant
            n == s@.len(),
            from <= i <= n,
            forall|k: int| from <= k < i ==> !occurs_at(s@, pat@, k),
        decreases n + 1 - i,
    {
        if matches_at(s, pat, i) {
            return Some(i);
        }
        if i == n {
            assert forall|k: int| from <= k implies !occurs_at(s@, pat@, k) by {
                if k > n {
                    assert(!occurs_at(s@, pat@, k));
                }
            }
            return None;
        }
        i = i + 1;
    }
    None
}

/// The last position where `pat` stands in `s`.
pub open spec fn is_last(s: Seq<char>, pat: Seq<char>, j: int) -> bool {
    occurs_at(s, pat, j) && forall|k: int| j < k ==> !occurs_at(s, pat, k)
}

/// The last position where `pat` stands in `s`.
fn find_last(s: &str, pat: &str) -> (r: Option<usize>)
    ensures
        match r {
            Some(j) => is_last(s@, pat@, j as int),
            None => forall|k: int| !occurs_at(s@, pat@, k),
        },
{
    let n = s.unicode_len();
    let mut j = n;
    loop
        invariant
            n == s@.len(),
            j <= n,
            forall|k: int| j < k ==> !occurs_at(s@, pat@, k),
        decreases j,
    {
        if matches_at(s, pat, j) {
            return Some(j);
        }
        if j == 0 {
            return None;
        }
        j = j - 1;
    }
}

/// The user and token of a browser login callback: the path starts with
/// `/handshake`, the user runs from after the first `?user=` to the last
/// `&token=`, and the token is what follows the first `&token=`.
pub open spec fn handshake_parts(path: Seq<char>, user: Seq<char>, token: Seq<char>) -> bool {
    exists|i: int, f: int, l: int| #[trigger] handshake_split(path, i, f, l, user, token)
}

/// The callback path splits at `i` (the user marker), `f` (the first token
/// marker) and `l` (the last token marker).
pub open spec fn handshake_split(
    path: Seq<char>,
    i: int,
    f: int,
    l: int,
    user: Seq<char>,
    token: Seq<char>,
) -> bool {
    &&& occurs_at(path, "/handshake"@, 0)
    &&& is_first_from(path, "?user="@, 0, i)
    &&& is_first_from(path, "&token="@, 0, f)
    &&& is_last(path, "&token="@, l)
    &&& i + 6 <= l
    &&& user == path.subrange(i + 6, l)
    &&& token == path.subrange(f + 7, path.len() as int)
}

/// The user and token of a browser login callback path, if it is one.
pub fn handshake_credentials(path: &str) -> (r: Option<(String, String)>)
    ensures
        match r {
            Some((user, token)) => handshake_parts(path@, user@, token@),
            None => forall|u: Seq<char>, t: Seq<char>| !handshake_parts(path@, u, t),
        },
{
    proof {
        reveal_strlit("/handshake");
        reveal_strlit("?user=");
        reveal_strlit("&token=");
    }
    let n = path.unicode_len();
    if !matches_at(path, "/handshake", 0) {
        return None;
    }
    let i = match find_from(path, "?user=", 0) {
        Some(i) => i,
        None => {
            assert forall|u: Seq<char>, t: Seq<char>| !handshake_parts(path@, u, t) by {
                if handshake_parts(path@, u, t) {
                    let (a, f, l) = choose|a: int, f: int, l: int|
                        handshake_split(path@, a, f, l, u, t);
                    assert(occurs_at(path@, "?user="@, a));
                }
            }
            return None;
        },
    };
    let l = match find_last(path, "&token=") {
        Some(l) => l,
        None => {
            assert forall|u: Seq<char>, t: Seq<char>| !handshake_parts(path@, u, t) by {
                if handshake_parts(path@, u, t) {
                    let (a, f, b) = choose|a: int, f: int, b: int|
                        handshake_split(path@, a, f, b, u, t);
                    assert(occurs_at(path@, "&token="@, b));
                }
            }
            return None;
        },
    };
    if l < i + 6 {
        assert forall|u: Seq<char>, t: Seq<char>| !handshake_parts(path@, u, t) by {
            if handshake_parts(path@, u, t) {
                let (a, f, b) = choose|a: int, f: int, b: int| handshake_split(path@, a, f, b, u, t);
                if a < i {
                    assert(!occurs_at(path@, "?user="@, a));
                } else if i < a {
                    assert(!occurs_at(path@, "?user="@, i as int));
                }
                if b < l {
                    assert(!occurs_at(path@, "&token="@, l as int));
                } else if l < b {
                    assert(!occurs_at(path@, "&token="@, b));
                }
            }
        }
        return None;
    }
    let f = match find_from(path, "&token=", 0) {
        Some(f) => f,
        None => {
            assert(occurs_at(path@, "&token="@, l as int));
            return None;
        },
    };
    let user = String::from_str(path.substring_char(i + 6, l));
    let token = String::from_str(path.substring_char(f + 7, n));
    assert(handshake_split(path@, i as int, f as int, l as int, user@, token@));
    Some((user, token))
}

/// Whether a callback path is the one of a button: it starts with `/`
/// and the button's name.
pub fn button_matches(path: &str, button: &str) -> (r: bool)
    ensures
        r == occurs_at(path@, seq!['/'] + button@, 0),
{
    let mut prefix = String::from_str("/");
    prefix.append(button);
    proof {
        reveal_strlit("/");
    }
    assert(prefix@ =~= seq!['/'] + button@);
    matches_at(path, prefix.as_str(), 0)
}

} // verus!
