//! Discord invite URLs.
use vstd::prelude::*;
use crate::text::{chars_of, cut_at, cut_chars_at, has_prefix, starts_with, string_of, suffix_from};

verus! {

/// The short form of invite URLs.
pub open spec fn short_invite_prefix() -> Seq<char> {
    seq!['h', 't', 't', 'p', 's', ':', '/', '/', 'd', 'i', 's', 'c', 'o', 'r', 'd', '.', 'g', 'g', '/']
}

/// The long form of invite URLs.
pub open spec fn long_invite_prefix() -> Seq<char> {
    seq![
        'h', 't', 't', 'p', 's', ':', '/', '/', 'd', 'i', 's', 'c', 'o', 'r', 'd', '.', 'c', 'o',
        'm', '/', 'i', 'n', 'v', 'i', 't', 'e', '/',
    ]
}

/// The invite code of the invite URL `url`: what follows one of the two URL
/// prefixes (the short one tried first), up to the first `/`, then up to the first `?`.
/// `None` when the URL has neither prefix.
pub open spec fn invite_code(url: Seq<char>) -> Option<Seq<char>> {
    let rest = if starts_with(url, short_invite_prefix()) {
        Some(url.skip(short_invite_prefix().len() as int))
    } else if starts_with(url, long_invite_prefix()) {
        Some(url.skip(long_invite_prefix().len() as int))
    } else {
        None
    };
    match rest {
        Some(r) => Some(cut_at(cut_at(r, '/'), '?')),
        None => None,
    }
}

fn short_prefix_chars() -> (v: Vec<char>)
    ensures
        v@ == short_invite_prefix(),
{
    let v = vec!['h', 't', 't', 'p', 's', ':', '/', '/', 'd', 'i', 's', 'c', 'o', 'r', 'd', '.', 'g', 'g', '/'];
    assert(v@ =~= short_invite_prefix());
    v
}

fn long_prefix_chars() -> (v: Vec<char>)
    ensures
        v@ == long_invite_prefix(),
{
    let v = vec![
        'h', 't', 't', 'p', 's', ':', '/', '/', 'd', 'i', 's', 'c', 'o', 'r', 'd', '.', 'c', 'o',
        'm', '/', 'i', 'n', 'v', 'i', 't', 'e', '/',
    ];
    assert(v@ =~= long_invite_prefix());
    v
}

/// Turns a Discord invite URL into an invite code.
pub fn invite_code_from_url(url: &str) -> (res: Option<String>)
    ensures
        res is Some <==> invite_code(url@) is Some,
        res matches Some(code) ==> code@ == invite_code(url@)->0,
{
    let chars = chars_of(url);
    let short = short_prefix_chars();
    let long = long_prefix_chars();
    let rest = if has_prefix(&chars, &short) {
        suffix_from(&chars, short.len())
    } else if has_prefix(&chars, &long) {
        suffix_from(&chars, long.len())
    } else {
        return None;
    };
    let before_slash = cut_chars_at(&rest, '/');
    let code = cut_chars_at(&before_slash, '?');
    Some(string_of(code.as_slice()))
}

/// `cut_at` never keeps the character it cuts at.
pub proof fn lemma_cut_at_excludes(s: Seq<char>, c: char)
    ensures
        !cut_at(s, c).contains(c),
        cut_at(s, c).len() <= s.len(),
    decreases s.len(),
{
    if s.len() > 0 && s[0] != c {
        lemma_cut_at_excludes(s.drop_first(), c);
        let t = cut_at(s.drop_first(), c);
        assert forall|i: int| 0 <= i < (seq![s[0]] + t).len() implies (seq![s[0]] + t)[i] != c by {
            if i > 0 {
                assert((seq![s[0]] + t)[i] == t[i - 1]);
            }
        }
    }
}

/// `cut_at` keeps a string in which the character does not occur.
pub proof fn lemma_cut_at_absent(s: Seq<char>, c: char)
    requires
        !s.contains(c),
    ensures
        cut_at(s, c) == s,
    decreases s.len(),
{
    if s.len() > 0 {
        assert(s[0] != c);
        assert forall|i: int| 0 <= i < s.drop_first().len() implies s.drop_first()[i] != c by {
            assert(s.drop_first()[i] == s[i + 1]);
        }
        lemma_cut_at_absent(s.drop_first(), c);
        assert(s =~= seq![s[0]] + s.drop_first());
    }
}

/// An invite code never holds a `/` or a `?`.
pub proof fn invite_code_has_no_separators(url: Seq<char>)
    requires
        invite_code(url) is Some,
    ensures
        !invite_code(url)->0.contains('/'),
        !invite_code(url)->0.contains('?'),
{
    let rest = if starts_with(url, short_invite_prefix()) {
        url.skip(short_invite_prefix().len() as int)
    } else {
        url.skip(long_invite_prefix().len() as int)
    };
    let a = cut_at(rest, '/');
    lemma_cut_at_excludes(rest, '/');
    lemma_cut_at_excludes(a, '?');
    let b = cut_at(a, '?');
    assert forall|i: int| 0 <= i < b.len() implies b[i] != '/' by {
        lemma_cut_at_prefix_of(a, '?');
        assert(b[i] == a[i]);
        assert(a.contains(a[i]));
    }
}

/// `cut_at(s, c)` is a prefix of `s`.
pub proof fn lemma_cut_at_prefix_of(s: Seq<char>, c: char)
    ensures
        cut_at(s, c).len() <= s.len(),
        forall|i: int| 0 <= i < cut_at(s, c).len() ==> cut_at(s, c)[i] == s[i],
    decreases s.len(),
{
    if s.len() > 0 && s[0] != c {
        lemma_cut_at_prefix_of(s.drop_first(), c);
        let t = cut_at(s.drop_first(), c);
        assert(cut_at(s, c) == seq![s[0]] + t);
        assert forall|i: int| 0 <= i < cut_at(s, c).len() implies cut_at(s, c)[i] == s[i] by {
            if i > 0 {
                assert((seq![s[0]] + t)[i] == t[i - 1]);
                assert(t[i - 1] == s.drop_first()[i - 1]);
            }
        }
    }
}

/// A URL made of the short invite prefix and a code without `/` or `?` gives that code back.
pub proof fn invite_code_of_short_url(code: Seq<char>)
    requires
        !code.contains('/'),
        !code.contains('?'),
    ensures
        invite_code(short_invite_prefix() + code) == Some(code),
{
    let url = short_invite_prefix() + code;
    assert(url.take(short_invite_prefix().len() as int) =~= short_invite_prefix());
    assert(url.skip(short_invite_prefix().len() as int) =~= code);
    lemma_cut_at_absent(code, '/');
    lemma_cut_at_absent(code, '?');
}

/// A URL made of the long invite prefix and a code without `/` or `?` gives that code back.
pub proof fn invite_code_of_long_url(code: Seq<char>)
    requires
        !code.contains('/'),
        !code.contains('?'),
    ensures
        invite_code(long_invite_prefix() + code) == Some(code),
{
    let url = long_invite_prefix() + code;
    assert(url.take(long_invite_prefix().len() as int) =~= long_invite_prefix());
    assert(url.skip(long_invite_prefix().len() as int) =~= code);
    assert(!starts_with(url, short_invite_prefix())) by {
        assert(url[16] == 'c');
        assert(short_invite_prefix()[16] == 'g');
        assert(url.take(short_invite_prefix().len() as int)[16] == 'c');
    }
    lemma_cut_at_absent(code, '/');
    lemma_cut_at_absent(code, '?');
}

} // verus!
