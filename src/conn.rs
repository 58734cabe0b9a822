//! The connection string: reading its `key=value` tokens, and masking its
//! password for logs.

use vstd::prelude::*;
use crate::text::{find, find_str, has_prefix, is_white, views, white};

verus! {

/// `s` with the value after its first `password=` masked, up to the next
/// space.
pub open spec fn masked(s: Seq<char>) -> Seq<char> {
    match find(s, "password="@) {
        None => s,
        Some(p) => {
            let rest = s.skip(p + "password="@.len());
            s.take(p) + "password=***"@ + match find(rest, " "@) {
                Some(q) => rest.skip(q),
                None => Seq::empty(),
            }
        },
    }
}

/// The connection string with its password replaced by `***`, fit for logs.
pub fn sanitize_connection_string(conn_str: &str) -> (r: String)
    ensures
        r@ == masked(conn_str@),
{
    match find_str(conn_str, "password=") {
        None => String::from_str(conn_str),
        Some(p) => {
            let n = conn_str.unicode_len();
            let key_len = "password=".unicode_len();
            proof {
                crate::text::lemma_find_from_occurs(conn_str@, "password="@, 0);
            }
            let mut out = String::from_str(conn_str.substring_char(0, p));
            out.append("password=***");
            let rest = conn_str.substring_char(p + key_len, n);
            match find_str(rest, " ") {
                Some(q) => {
                    proof {
                        crate::text::lemma_find_from_occurs(rest@, " "@, 0);
                    }
                    let tail_len = rest.unicode_len();
                    out.append(rest.substring_char(q, tail_len));
                    assert(rest@.subrange(q as int, tail_len as int) =~= rest@.skip(q as int));
                },
                None => {},
            }
            assert(conn_str@.subrange(0, p as int) =~= conn_str@.take(p as int));
            assert(rest@ =~= conn_str@.skip(p + key_len));
            assert(out@ =~= masked(conn_str@));
            out
        },
    }
}

/// A character that separates tokens.
pub open spec fn is_separator(c: char) -> bool {
    is_white(c)
}

/// The tokens of `s[start..]` where `s[start..i]` holds no separator.
pub open spec fn tokens_from(s: Seq<char>, i: int, start: int) -> Seq<Seq<char>>
    decreases s.len() - i,
{
    if i < 0 || i >= s.len() {
        if 0 <= start < i {
            seq![s.subrange(start, i)]
        } else {
            Seq::empty()
        }
    } else if is_separator(s[i]) {
        (if 0 <= start < i {
            seq![s.subrange(start, i)]
        } else {
            Seq::empty()
        }) + tokens_from(s, i + 1, i + 1)
    } else {
        tokens_from(s, i + 1, start)
    }
}

/// The maximal runs of non-separator characters of `s`, in order.
pub open spec fn tokens(s: Seq<char>) -> Seq<Seq<char>> {
    tokens_from(s, 0, 0)
}

/// What follows `key` in the first token that begins with it.
pub open spec fn lookup(toks: Seq<Seq<char>>, key: Seq<char>) -> Option<Seq<char>>
    decreases toks.len(),
{
    if toks.len() == 0 {
        None
    } else if has_prefix(toks[0], key) {
        Some(toks[0].skip(key.len() as int))
    } else {
        lookup(toks.skip(1), key)
    }
}

/// The value of `key` in a connection string, or `default` without one.
pub open spec fn setting(config: Seq<char>, key: Seq<char>, default: Seq<char>) -> Seq<char> {
    match lookup(tokens(config), key) {
        Some(v) => v,
        None => default,
    }
}

/// The database, user and host that a status reports for a connection
/// string.
pub open spec fn status_fields(config: Seq<char>) -> (Seq<char>, Seq<char>, Seq<char>) {
    (
        setting(config, "dbname="@, "unknown"@),
        setting(config, "user="@, "unknown"@),
        setting(config, "host="@, "localhost"@),
    )
}

/// The tokens of a connection string.
pub fn config_tokens(config: &str) -> (r: Vec<String>)
    ensures
        views(r@) == tokens(config@),
{
    let n = config.unicode_len();
    let mut r: Vec<String> = Vec::new();
    let mut start: usize = 0;
    let mut i: usize = 0;
    assert(views(r@) + tokens_from(config@, 0, 0) =~= tokens(config@));
    while i < n
        invariant
            n == config@.len(),
            start <= i <= n,
            views(r@) + tokens_from(config@, i as int, start as int) == tokens(config@),
        decreases n - i,
    {
        let c = config.get_char(i);
        let ghost before = views(r@);
        if white(c) {
            let ghost piece = if start < i {
                seq![config@.subrange(start as int, i as int)]
            } else {
                Seq::<Seq<char>>::empty()
            };
            assert(tokens_from(config@, i as int, start as int) == piece + tokens_from(
                config@,
                i + 1,
                i + 1,
            ));
            if start < i {
                r.push(String::from_str(config.substring_char(start, i)));
            }
            assert(views(r@) =~= before + piece);
            start = i + 1;
        } else {
            assert(tokens_from(config@, i as int, start as int) == tokens_from(
                config@,
                i + 1,
                start as int,
            ));
        }
        i = i + 1;
    }
    let ghost before = views(r@);
    let ghost piece = if start < n {
        seq![config@.subrange(start as int, n as int)]
    } else {
        Seq::<Seq<char>>::empty()
    };
    assert(tokens_from(config@, n as int, start as int) == piece);
    if start < n {
        r.push(String::from_str(config.substring_char(start, n)));
    }
    assert(views(r@) =~= before + piece);
    r
}

/// Whether `s` begins with `pre`.
pub fn starts_with(s: &str, pre: &str) -> (r: bool)
    ensures
        r == has_prefix(s@, pre@),
{
    let n = s.unicode_len();
    let m = pre.unicode_len();
    if m > n {
        return false;
    }
    let mut j: usize = 0;
    while j < m
        invariant
            n == s@.len(),
            m == pre@.len(),
            m <= n,
            j <= m,
            s@.subrange(0, j as int) == pre@.subrange(0, j as int),
        decreases m - j,
    {
        if s.get_char(j) != pre.get_char(j) {
            assert(s@.subrange(0, m as int)[j as int] != pre@[j as int]);
            return false;
        }
        assert(s@.subrange(0, j + 1) =~= s@.subrange(0, j as int).push(s@[j as int]));
        assert(pre@.subrange(0, j + 1) =~= pre@.subrange(0, j as int).push(pre@[j as int]));
        j = j + 1;
    }
    assert(pre@ =~= pre@.subrange(0, m as int));
    true
}

/// The value of `key` in a connection string, or `default` without one.
pub fn config_setting(config: &str, key: &str, default: &str) -> (r: String)
    ensures
        r@ == setting(config@, key@, default@),
{
    let toks = config_tokens(config);
    let ghost tv = views(toks@);
    let mut i: usize = 0;
    assert(tv.skip(0) =~= tv);
    while i < toks.len()
        invariant
            i <= toks.len(),
            tv == views(toks@),
            tv == tokens(config@),
            lookup(tv, key@) == lookup(tv.skip(i as int), key@),
        decreases toks.len() - i,
    {
        let t = toks[i].as_str();
        if starts_with(t, key) {
            let kl = key.unicode_len();
            let tl = t.unicode_len();
            assert(tv.skip(i as int)[0] == t@);
            let v = String::from_str(t.substring_char(kl, tl));
            assert(v@ =~= t@.skip(kl as int));
            assert(tv.skip(i as int).len() > 0);
            assert(lookup(tv.skip(i as int), key@) == Some(t@.skip(kl as int)));
            return v;
        }
        assert(tv.skip(i as int)[0] == t@);
        assert(tv.skip(i as int).skip(1) =~= tv.skip(i + 1));
        i = i + 1;
    }
    assert(tv.skip(i as int) =~= Seq::<Seq<char>>::empty());
    assert(lookup(tv, key@) == None::<Seq<char>>);
    String::from_str(default)
}

/// Tokens that agree everywhere but in `password=` tokens give the same
/// value for any key that a `password=` token cannot begin with.
proof fn lemma_lookup_ignores_password(a: Seq<Seq<char>>, b: Seq<Seq<char>>, key: Seq<char>)
    requires
        a.len() == b.len(),
        key.len() > 0,
        key[0] != 'p',
        forall|i: int|
            0 <= i < a.len() ==> a[i] == b[i] || (has_prefix(#[trigger] a[i], "password="@)
                && has_prefix(b[i], "password="@)),
    ensures
        lookup(a, key) == lookup(b, key),
    decreases a.len(),
{
    reveal_strlit("password=");
    if a.len() > 0 {
        if a[0] != b[0] {
            assert(a[0].subrange(0, 9)[0] == a[0][0]);
            assert(b[0].subrange(0, 9)[0] == b[0][0]);
            assert(a[0][0] == 'p');
            assert(b[0][0] == 'p');
            assert(!has_prefix(a[0], key)) by {
                if has_prefix(a[0], key) {
                    assert(a[0].subrange(0, key.len() as int)[0] == key[0]);
                }
            }
            assert(!has_prefix(b[0], key)) by {
                if has_prefix(b[0], key) {
                    assert(b[0].subrange(0, key.len() as int)[0] == key[0]);
                }
            }
        }
        assert forall|i: int| 0 <= i < a.skip(1).len() implies a.skip(1)[i] == b.skip(1)[i] || (
        has_prefix(#[trigger] a.skip(1)[i], "password="@) && has_prefix(b.skip(1)[i], "password="@)) by {
            assert(a.skip(1)[i] == a[i + 1]);
            assert(b.skip(1)[i] == b[i + 1]);
        }
        lemma_lookup_ignores_password(a.skip(1), b.skip(1), key);
    }
}

/// The connection status never depends on the password: two connection
/// strings whose tokens agree but for the values of `password=` tokens
/// report the same database, user and host.
pub proof fn status_ignores_password(a: Seq<char>, b: Seq<char>)
    requires
        tokens(a).len() == tokens(b).len(),
        forall|i: int|
            0 <= i < tokens(a).len() ==> tokens(a)[i] == tokens(b)[i] || (has_prefix(
                #[trigger] tokens(a)[i],
                "password="@,
            ) && has_prefix(tokens(b)[i], "password="@)),
    ensures
        status_fields(a) == status_fields(b),
{
    reveal_strlit("dbname=");
    reveal_strlit("user=");
    reveal_strlit("host=");
    lemma_lookup_ignores_password(tokens(a), tokens(b), "dbname="@);
    lemma_lookup_ignores_password(tokens(a), tokens(b), "user="@);
    lemma_lookup_ignores_password(tokens(a), tokens(b), "host="@);
}

} // verus!
