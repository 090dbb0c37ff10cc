//! Character-level helpers shared by the message builders: conversions between
//! strings and character vectors, decimal rendering of IDs, Discord mentions and
//! markdown escaping.
use vstd::prelude::*;

verus! {

/// The view of an optional string.
pub open spec fn opt_view(o: Option<String>) -> Option<Seq<char>> {
    match o {
        Some(s) => Some(s@),
        None => None,
    }
}

/// The characters of `s`, in order.
pub(crate) fn chars_of(s: &str) -> (v: Vec<char>)
    ensures
        v@ == s@,
{
    let n = s.unicode_len();
    let mut v: Vec<char> = Vec::new();
    let mut i: usize = 0;
    while i < n
        invariant
            n == s@.len(),
            i <= n,
            v@ == s@.take(i as int),
        decreases n - i,
    {
        let c = s.get_char(i);
        v.push(c);
        i = i + 1;
        assert(v@ =~= s@.take(i as int));
    }
    assert(s@.take(n as int) =~= s@);
    v
}

/// The string made of the characters of `v`, in order.
#[verifier::external_body]
pub(crate) fn string_of(v: &[char]) -> (s: String)
    ensures
        s@ == v@,
{
    v.iter().collect()
}

/// A new string holding the characters of `s`.
pub(crate) fn owned(s: &str) -> (res: String)
    ensures
        res@ == s@,
{
    String::from_str(s)
}

/// `a` followed by `b`.
pub(crate) fn concat2(a: &str, b: &str) -> (res: String)
    ensures
        res@ == a@ + b@,
{
    let mut r = String::from_str(a);
    r.append(b);
    r
}

/// `a`, `b` and `c` one after the other.
pub(crate) fn concat3(a: &str, b: &str, c: &str) -> (res: String)
    ensures
        res@ == a@ + b@ + c@,
{
    let mut r = String::from_str(a);
    r.append(b);
    r.append(c);
    r
}

/// `a` to `d` one after the other.
pub(crate) fn concat4(a: &str, b: &str, c: &str, d: &str) -> (res: String)
    ensures
        res@ == a@ + b@ + c@ + d@,
{
    let mut r = String::from_str(a);
    r.append(b);
    r.append(c);
    r.append(d);
    r
}

/// `a` to `e` one after the other.
pub(crate) fn concat5(a: &str, b: &str, c: &str, d: &str, e: &str) -> (res: String)
    ensures
        res@ == a@ + b@ + c@ + d@ + e@,
{
    let mut r = String::from_str(a);
    r.append(b);
    r.append(c);
    r.append(d);
    r.append(e);
    r
}

/// Whether the sequences `a` and `b` of characters are the same.
pub(crate) fn chars_equal(a: &Vec<char>, b: &Vec<char>) -> (res: bool)
    ensures
        res == (a@ == b@),
{
    if a.len() != b.len() {
        return false;
    }
    let mut i: usize = 0;
    while i < a.len()
        invariant
            a.len() == b.len(),
            i <= a.len(),
            forall|j: int| 0 <= j < i ==> a@[j] == b@[j],
        decreases a.len() - i,
    {
        if a[i] != b[i] {
            return false;
        }
        i = i + 1;
    }
    assert(a@ =~= b@);
    true
}

/// Whether `s` begins with `p`.
pub open spec fn starts_with(s: Seq<char>, p: Seq<char>) -> bool {
    p.len() <= s.len() && s.take(p.len() as int) == p
}

/// Whether `v` begins with `p`.
pub(crate) fn has_prefix(v: &Vec<char>, p: &Vec<char>) -> (res: bool)
    ensures
        res == starts_with(v@, p@),
{
    if p.len() > v.len() {
        return false;
    }
    let mut i: usize = 0;
    while i < p.len()
        invariant
            p.len() <= v.len(),
            i <= p.len(),
            forall|j: int| 0 <= j < i ==> v@[j] == p@[j],
        decreases p.len() - i,
    {
        if v[i] != p[i] {
            assert(v@.take(p.len() as int)[i as int] != p@[i as int]);
            return false;
        }
        i = i + 1;
    }
    assert(v@.take(p.len() as int) =~= p@);
    true
}

/// The characters of `v` from position `start` on.
pub(crate) fn suffix_from(v: &Vec<char>, start: usize) -> (res: Vec<char>)
    requires
        start <= v.len(),
    ensures
        res@ == v@.skip(start as int),
{
    let mut r: Vec<char> = Vec::new();
    let mut i: usize = start;
    while i < v.len()
        invariant
            start <= i <= v.len(),
            r@ == v@.subrange(start as int, i as int),
        decreases v.len() - i,
    {
        r.push(v[i]);
        i = i + 1;
        assert(r@ =~= v@.subrange(start as int, i as int));
    }
    assert(r@ =~= v@.skip(start as int));
    r
}

/// The part of `s` before the first occurrence of `c`; all of `s` when `c` does not occur.
pub open spec fn cut_at(s: Seq<char>, c: char) -> Seq<char>
    decreases s.len(),
{
    if s.len() == 0 {
        s
    } else if s[0] == c {
        Seq::empty()
    } else {
        seq![s[0]] + cut_at(s.drop_first(), c)
    }
}

/// `cut_at` is the prefix that ends at the first `c`.
pub proof fn lemma_cut_at_prefix(s: Seq<char>, c: char, k: int)
    requires
        0 <= k <= s.len(),
        forall|j: int| 0 <= j < k ==> s[j] != c,
        k == s.len() || s[k] == c,
    ensures
        cut_at(s, c) == s.take(k),
    decreases s.len(),
{
    if s.len() == 0 {
        assert(s.take(k) =~= s);
    } else if s[0] == c {
        assert(k == 0);
        assert(s.take(0) =~= Seq::<char>::empty());
    } else {
        let t = s.drop_first();
        assert forall|j: int| 0 <= j < k - 1 implies t[j] != c by {
            assert(t[j] == s[j + 1]);
        }
        lemma_cut_at_prefix(t, c, k - 1);
        assert(s.take(k) =~= seq![s[0]] + t.take(k - 1));
    }
}

/// The characters of `v` before the first occurrence of `c`.
pub(crate) fn cut_chars_at(v: &Vec<char>, c: char) -> (res: Vec<char>)
    ensures
        res@ == cut_at(v@, c),
{
    let mut r: Vec<char> = Vec::new();
    let mut i: usize = 0;
    while i < v.len() && v[i] != c
        invariant
            i <= v.len(),
            r@ == v@.take(i as int),
            forall|j: int| 0 <= j < i ==> v@[j] != c,
        decreases v.len() - i,
    {
        r.push(v[i]);
        i = i + 1;
        assert(r@ =~= v@.take(i as int));
    }
    proof {
        lemma_cut_at_prefix(v@, c, i as int);
    }
    r
}

/// The character of the decimal digit `d`.
pub open spec fn digit_char(d: nat) -> char
    recommends
        d < 10,
{
    ((d + 48) as u8) as char
}

/// The decimal representation of `n`, without leading zeros.
pub open spec fn decimal(n: nat) -> Seq<char>
    decreases n,
{
    if n < 10 {
        seq![digit_char(n)]
    } else {
        decimal(n / 10).push(digit_char(n % 10))
    }
}

fn decimal_chars(n: u64) -> (res: Vec<char>)
    ensures
        res@ == decimal(n as nat),
    decreases n,
{
    let d: u8 = (n % 10) as u8;
    let ch: char = (d + 48u8) as char;
    if n < 10 {
        let mut v: Vec<char> = Vec::new();
        v.push(ch);
        v
    } else {
        let mut v = decimal_chars(n / 10);
        v.push(ch);
        v
    }
}

/// The decimal representation of `n`, as `u64`'s `Display` writes it.
pub fn decimal_string(n: u64) -> (res: String)
    ensures
        res@ == decimal(n as nat),
{
    let v = decimal_chars(n);
    string_of(v.as_slice())
}

/// How a mention of a user is written in a message.
pub open spec fn user_mention_text(id: u64) -> Seq<char> {
    seq!['<', '@'] + decimal(id as nat) + seq!['>']
}

/// How a mention of a channel is written in a message.
pub open spec fn channel_mention_text(id: u64) -> Seq<char> {
    seq!['<', '#'] + decimal(id as nat) + seq!['>']
}

/// How a mention of a role is written in a message.
pub open spec fn role_mention_text(id: u64) -> Seq<char> {
    seq!['<', '@', '&'] + decimal(id as nat) + seq!['>']
}

fn wrapped_decimal(prefix: Vec<char>, n: u64) -> (res: String)
    ensures
        res@ == prefix@ + decimal(n as nat) + seq!['>'],
{
    let mut v = prefix;
    let d = decimal_chars(n);
    let mut i: usize = 0;
    let ghost p = v@;
    while i < d.len()
        invariant
            i <= d.len(),
            v@ == p + d@.take(i as int),
        decreases d.len() - i,
    {
        v.push(d[i]);
        i = i + 1;
        assert(v@ =~= p + d@.take(i as int));
    }
    v.push('>');
    assert(d@.take(d.len() as int) =~= d@);
    string_of(v.as_slice())
}

/// The mention of the user with ID `id`.
pub fn user_mention(id: u64) -> (res: String)
    ensures
        res@ == user_mention_text(id),
{
    let mut p: Vec<char> = Vec::new();
    p.push('<');
    p.push('@');
    assert(p@ =~= seq!['<', '@']);
    wrapped_decimal(p, id)
}

/// The mention of the channel with ID `id`.
pub fn channel_mention(id: u64) -> (res: String)
    ensures
        res@ == channel_mention_text(id),
{
    let mut p: Vec<char> = Vec::new();
    p.push('<');
    p.push('#');
    assert(p@ =~= seq!['<', '#']);
    wrapped_decimal(p, id)
}

/// The mention of the role with ID `id`.
pub fn role_mention(id: u64) -> (res: String)
    ensures
        res@ == role_mention_text(id),
{
    let mut p: Vec<char> = Vec::new();
    p.push('<');
    p.push('@');
    p.push('&');
    assert(p@ =~= seq!['<', '@', '&']);
    wrapped_decimal(p, id)
}

/// `s` with every `*` preceded by a backslash, so that markdown shows it as written.
pub open spec fn escape_asterisks(s: Seq<char>) -> Seq<char>
    decreases s.len(),
{
    if s.len() == 0 {
        s
    } else {
        let c = s.last();
        escape_asterisks(s.drop_last()) + if c == '*' {
            seq!['\\', '*']
        } else {
            seq![c]
        }
    }
}

/// Escapes the asterisks of `s` (`s.replace("*", "\\*")`).
pub fn escape_markdown_asterisks(s: &str) -> (res: String)
    ensures
        res@ == escape_asterisks(s@),
{
    let v = chars_of(s);
    let mut out: Vec<char> = Vec::new();
    let mut i: usize = 0;
    while i < v.len()
        invariant
            i <= v.len(),
            out@ == escape_asterisks(v@.take(i as int)),
        decreases v.len() - i,
    {
        let c = v[i];
        proof {
            assert(v@.take(i + 1).drop_last() =~= v@.take(i as int));
        }
        if c == '*' {
            out.push('\\');
            out.push('*');
        } else {
            out.push(c);
        }
        i = i + 1;
        assert(out@ =~= escape_asterisks(v@.take(i as int)));
    }
    assert(v@.take(v.len() as int) =~= v@);
    string_of(out.as_slice())
}

/// `s` with every backtick preceded by a backslash, so that it can stand inside an
/// inline code span.
pub open spec fn escape_backticks(s: Seq<char>) -> Seq<char>
    decreases s.len(),
{
    if s.len() == 0 {
        s
    } else {
        let c = s.last();
        escape_backticks(s.drop_last()) + if c == '`' {
            seq!['\\', '`']
        } else {
            seq![c]
        }
    }
}

/// Escapes the backticks of `s` (`s.replace("`", "\\`")`).
pub fn escape_markdown_backticks(s: &str) -> (res: String)
    ensures
        res@ == escape_backticks(s@),
{
    let v = chars_of(s);
    let mut out: Vec<char> = Vec::new();
    let mut i: usize = 0;
    while i < v.len()
        invariant
            i <= v.len(),
            out@ == escape_backticks(v@.take(i as int)),
        decreases v.len() - i,
    {
        let c = v[i];
        proof {
            assert(v@.take(i + 1).drop_last() =~= v@.take(i as int));
        }
        if c == '`' {
            out.push('\\');
            out.push('`');
        } else {
            out.push(c);
        }
        i = i + 1;
        assert(out@ =~= escape_backticks(v@.take(i as int)));
    }
    assert(v@.take(v.len() as int) =~= v@);
    string_of(out.as_slice())
}

/// The UTF-8 encoding of a concatenation is the concatenation of the encodings.
pub proof fn lemma_encode_utf8_append(a: Seq<char>, b: Seq<char>)
    ensures
        vstd::utf8::encode_utf8(a + b) == vstd::utf8::encode_utf8(a) + vstd::utf8::encode_utf8(b),
    decreases a.len(),
{
    if a.len() > 0 {
        assert((a + b).drop_first() =~= a.drop_first() + b);
        assert((a + b)[0] == a[0]);
        lemma_encode_utf8_append(a.drop_first(), b);
        assert(vstd::utf8::encode_utf8(a + b) =~= vstd::utf8::encode_utf8(a) + vstd::utf8::encode_utf8(b));
    } else {
        assert(a + b =~= b);
        assert(vstd::utf8::encode_utf8(a) =~= Seq::<u8>::empty());
        assert(vstd::utf8::encode_utf8(a) + vstd::utf8::encode_utf8(b) =~= vstd::utf8::encode_utf8(b));
    }
}

fn utf8_width(c: char) -> (w: usize)
    ensures
        w == vstd::utf8::encode_scalar(c as u32).len(),
        w == vstd::utf8::encode_utf8(seq![c]).len(),
{
    let v = c as u32;
    proof {
        assert(seq![c].drop_first() =~= Seq::<char>::empty());
        assert(seq![c][0] == c);
        assert(vstd::utf8::encode_utf8(Seq::<char>::empty()) =~= Seq::<u8>::empty());
        assert(vstd::utf8::encode_utf8(seq![c]) == vstd::utf8::encode_scalar(c as u32) + vstd::utf8::encode_utf8(Seq::<char>::empty()));
        assert(vstd::utf8::encode_utf8(seq![c]) =~= vstd::utf8::encode_scalar(c as u32));
    }
    if v < 0x80 {
        1
    } else if v < 0x800 {
        2
    } else if v < 0x10000 {
        3
    } else {
        4
    }
}

/// Whether the UTF-8 encoding of `s` is longer than `limit` bytes.
pub(crate) fn utf8_longer_than(s: &str, limit: usize) -> (res: bool)
    ensures
        res == (vstd::utf8::encode_utf8(s@).len() > limit),
{
    let v = chars_of(s);
    let mut total: usize = 0;
    let mut i: usize = 0;
    while i < v.len()
        invariant
            i <= v.len(),
            total <= limit,
            v@ == s@,
            total == vstd::utf8::encode_utf8(v@.take(i as int)).len(),
        decreases v.len() - i,
    {
        let w = utf8_width(v[i]);
        proof {
            assert(v@.take(i + 1) =~= v@.take(i as int) + seq![v@[i as int]]);
            lemma_encode_utf8_append(v@.take(i as int), seq![v@[i as int]]);
        }
        if w > limit - total {
            proof {
                assert(v@ =~= v@.take(i + 1) + v@.skip(i + 1));
                lemma_encode_utf8_append(v@.take(i + 1), v@.skip(i + 1));
                assert(vstd::utf8::encode_utf8(v@.take(i + 1)).len() == total + w);
                assert(vstd::utf8::encode_utf8(v@).len() >= vstd::utf8::encode_utf8(v@.take(i + 1)).len());
                assert(total + w > limit);
                assert(vstd::utf8::encode_utf8(s@).len() > limit);
            }
            return true;
        }
        total = total + w;
        i = i + 1;
    }
    assert(v@.take(v.len() as int) =~= v@);
    false
}

} // verus!
