use vstd::prelude::*;
use vstd::relations::{sorted_by, total_ordering};

verus! {

/// The characters `0`-`9` and `a`-`f`: one digit of lowercase hexadecimal.
pub open spec fn is_lower_hex_char(c: char) -> bool {
    ('0' <= c && c <= '9') || ('a' <= c && c <= 'f')
}

/// Exactly 64 lowercase hexadecimal digits: the text of a SHA-256 digest.
pub open spec fn is_lower_sha256_hex(s: Seq<char>) -> bool {
    s.len() == 64 && forall|i: int| 0 <= i < s.len() ==> is_lower_hex_char(#[trigger] s[i])
}

/// ASCII letters and digits.
pub open spec fn is_ascii_alnum(c: char) -> bool {
    ('0' <= c && c <= '9') || ('a' <= c && c <= 'z') || ('A' <= c && c <= 'Z')
}

/// The ASCII control characters (and DEL), as `u8::is_ascii_control` counts them.
pub open spec fn is_ascii_control(c: char) -> bool {
    (c as u32) < 32 || (c as u32) == 127
}

/// The ASCII whitespace characters that `u8::is_ascii_whitespace` accepts.
pub open spec fn is_ascii_whitespace(c: char) -> bool {
    c == ' ' || c == '\t' || c == '\n' || (c as u32) == 12 || c == '\r'
}

/// `s` begins with `p`.
pub open spec fn has_prefix(s: Seq<char>, p: Seq<char>) -> bool {
    p.len() <= s.len() && s.take(p.len() as int) == p
}

/// `s` ends with `p`.
pub open spec fn has_suffix(s: Seq<char>, p: Seq<char>) -> bool {
    p.len() <= s.len() && s.skip(s.len() - p.len()) == p
}

/// What lies strictly between `prefix` and `suffix` in `s`, when `s` has both.
pub open spec fn between(s: Seq<char>, prefix: Seq<char>, suffix: Seq<char>) -> Option<Seq<char>> {
    if has_prefix(s, prefix) && has_suffix(s.skip(prefix.len() as int), suffix) {
        Some(s.subrange(prefix.len() as int, s.len() - suffix.len()))
    } else {
        None
    }
}

/// Lexicographic strict order of character sequences by code point; for strings this is
/// the byte order of their UTF-8 encodings, which is how `str` compares.
pub open spec fn seq_lt(a: Seq<char>, b: Seq<char>) -> bool
    decreases a.len(),
{
    if a.len() == 0 {
        b.len() > 0
    } else if b.len() == 0 {
        false
    } else if a[0] != b[0] {
        (a[0] as int) < (b[0] as int)
    } else {
        seq_lt(a.drop_first(), b.drop_first())
    }
}

/// The views of a sequence of character vectors.
pub open spec fn views(v: Seq<Vec<char>>) -> Seq<Seq<char>> {
    v.map_values(|x: Vec<char>| x@)
}

/// The views of a sequence of strings.
pub open spec fn string_views(v: Seq<String>) -> Seq<Seq<char>> {
    v.map_values(|x: String| x@)
}

pub fn lower_hex_char(c: char) -> (r: bool)
    ensures
        r == is_lower_hex_char(c),
{
    ('0' <= c && c <= '9') || ('a' <= c && c <= 'f')
}

pub fn ascii_alnum(c: char) -> (r: bool)
    ensures
        r == is_ascii_alnum(c),
{
    ('0' <= c && c <= '9') || ('a' <= c && c <= 'z') || ('A' <= c && c <= 'Z')
}

pub fn ascii_control(c: char) -> (r: bool)
    ensures
        r == is_ascii_control(c),
{
    (c as u32) < 32 || (c as u32) == 127
}

pub fn ascii_whitespace(c: char) -> (r: bool)
    ensures
        r == is_ascii_whitespace(c),
{
    c == ' ' || c == '\t' || c == '\n' || (c as u32) == 12 || c == '\r'
}

/// Appends one character to a string (`String::push`).
#[verifier::external_body]
fn push_char(s: &mut String, c: char)
    ensures
        final(s)@ == old(s)@.push(c),
{
    s.push(c);
}

/// The characters of a string slice, in order.
pub fn chars_of(s: &str) -> (r: Vec<char>)
    ensures
        r@ == s@,
{
    let n = s.unicode_len();
    let mut out: Vec<char> = Vec::new();
    let mut i: usize = 0;
    while i < n
        invariant
            n == s@.len(),
            i <= n,
            out@ == s@.subrange(0, i as int),
        decreases n - i,
    {
        let c = s.get_char(i);
        out.push(c);
        i = i + 1;
        assert(out@ =~= s@.subrange(0, i as int));
    }
    assert(out@ =~= s@);
    out
}

/// The string made of the given characters.
pub fn string_of(v: &Vec<char>) -> (r: String)
    ensures
        r@ == v@,
{
    let mut out = String::new();
    let mut i: usize = 0;
    while i < v.len()
        invariant
            i <= v.len(),
            out@ == v@.subrange(0, i as int),
        decreases v.len() - i,
    {
        push_char(&mut out, v[i]);
        i = i + 1;
        assert(out@ =~= v@.subrange(0, i as int));
    }
    assert(out@ =~= v@);
    out
}

/// Whether `v` is 64 lowercase hexadecimal digits.
pub fn sha256_hex_text(v: &Vec<char>) -> (r: bool)
    ensures
        r == is_lower_sha256_hex(v@),
{
    if v.len() != 64 {
        return false;
    }
    let mut i: usize = 0;
    while i < v.len()
        invariant
            v.len() == 64,
            i <= v.len(),
            forall|j: int| 0 <= j < i ==> is_lower_hex_char(#[trigger] v@[j]),
        decreases v.len() - i,
    {
        if !lower_hex_char(v[i]) {
            return false;
        }
        i = i + 1;
    }
    true
}

/// Whether two character vectors are equal.
pub fn chars_eq(a: &Vec<char>, b: &Vec<char>) -> (r: bool)
    ensures
        r == (a@ == b@),
{
    if a.len() != b.len() {
        return false;
    }
    let mut i: usize = 0;
    while i < a.len()
        invariant
            a.len() == b.len(),
            i <= a.len(),
            forall|j: int| 0 <= j < i ==> a@[j] == b@[j],
        decreases a.len() - i,
    {
        if a[i] != b[i] {
            return false;
        }
        i = i + 1;
    }
    assert(a@ =~= b@);
    true
}

/// Whether `s` begins with `p`.
pub fn starts_with(s: &Vec<char>, p: &Vec<char>) -> (r: bool)
    ensures
        r == has_prefix(s@, p@),
{
    if p.len() > s.len() {
        return false;
    }
    let mut i: usize = 0;
    while i < p.len()
        invariant
            p.len() <= s.len(),
            i <= p.len(),
            forall|j: int| 0 <= j < i ==> s@[j] == p@[j],
        decreases p.len() - i,
    {
        if s[i] != p[i] {
            assert(s@.take(p.len() as int)[i as int] != p@[i as int]);
            return false;
        }
        i = i + 1;
    }
    assert(s@.take(p.len() as int) =~= p@);
    true
}

/// The characters of `s` from `start` (inclusive) to `end` (exclusive).
pub fn slice_chars(s: &Vec<char>, start: usize, end: usize) -> (r: Vec<char>)
    requires
        start <= end <= s.len(),
    ensures
        r@ == s@.subrange(start as int, end as int),
{
    let mut out: Vec<char> = Vec::new();
    let mut i: usize = start;
    while i < end
        invariant
            start <= i <= end,
            end <= s.len(),
            out@ == s@.subrange(start as int, i as int),
        decreases end - i,
    {
        out.push(s[i]);
        i = i + 1;
        assert(out@ =~= s@.subrange(start as int, i as int));
    }
    out
}

/// Whether `s` ends with `p`.
pub fn ends_with(s: &Vec<char>, p: &Vec<char>) -> (r: bool)
    ensures
        r == has_suffix(s@, p@),
{
    if p.len() > s.len() {
        return false;
    }
    let tail = slice_chars(s, s.len() - p.len(), s.len());
    assert(s@.skip(s@.len() - p@.len()) =~= tail@);
    chars_eq(&tail, p)
}

/// What lies between `prefix` and `suffix` in `s` (`strip_prefix` then `strip_suffix`).
pub fn strip_between(s: &Vec<char>, prefix: &Vec<char>, suffix: &Vec<char>) -> (r: Option<Vec<char>>)
    ensures
        r matches Some(v) ==> between(s@, prefix@, suffix@) == Some(v@),
        r is None ==> between(s@, prefix@, suffix@) is None,
{
    if !starts_with(s, prefix) {
        return None;
    }
    let rest = slice_chars(s, prefix.len(), s.len());
    assert(rest@ =~= s@.skip(prefix@.len() as int));
    if !ends_with(&rest, suffix) {
        return None;
    }
    let mid = slice_chars(s, prefix.len(), s.len() - suffix.len());
    Some(mid)
}

/// Whether `x` has a smaller code point than `y`.
pub fn char_lt(x: char, y: char) -> (r: bool)
    ensures
        r == ((x as int) < (y as int)),
{
    x < y
}

/// Lexicographic strict order of two character vectors.
pub fn chars_lt(a: &Vec<char>, b: &Vec<char>) -> (r: bool)
    ensures
        r == seq_lt(a@, b@),
{
    let mut i: usize = 0;
    assert(a@.skip(0) =~= a@);
    assert(b@.skip(0) =~= b@);
    while i < a.len() && i < b.len()
        invariant
            i <= a.len(),
            i <= b.len(),
            seq_lt(a@, b@) == seq_lt(a@.skip(i as int), b@.skip(i as int)),
        decreases a.len() - i,
    {
        if a[i] != b[i] {
            return char_lt(a[i], b[i]);
        }
        assert(a@.skip(i as int).drop_first() =~= a@.skip(i + 1));
        assert(b@.skip(i as int).drop_first() =~= b@.skip(i + 1));
        i = i + 1;
    }
    i == a.len() && i < b.len()
}

/// Whether `v` contains the character `c`.
pub fn contains_char(v: &Vec<char>, c: char) -> (r: bool)
    ensures
        r == v@.contains(c),
{
    let mut i: usize = 0;
    while i < v.len()
        invariant
            i <= v.len(),
            forall|j: int| 0 <= j < i ==> v@[j] != c,
        decreases v.len() - i,
    {
        if v[i] == c {
            assert(v@[i as int] == c);
            return true;
        }
        i = i + 1;
    }
    false
}

/// The text order, reflexive: `a` equals `b` or comes before it.
pub open spec fn text_le(a: Seq<char>, b: Seq<char>) -> bool {
    a == b || seq_lt(a, b)
}

/// Texts in non-decreasing text order.
pub open spec fn text_sorted(s: Seq<Seq<char>>) -> bool {
    forall|i: int, j: int| 0 <= i < j < s.len() ==> text_le(#[trigger] s[i], #[trigger] s[j])
}

/// Texts in strictly increasing text order (so without repeats).
pub open spec fn text_strictly_sorted(s: Seq<Seq<char>>) -> bool {
    forall|i: int, j: int| 0 <= i < j < s.len() ==> seq_lt(#[trigger] s[i], #[trigger] s[j])
}

/// The texts of `s` in non-decreasing order: the one sorted arrangement of their multiset.
pub open spec fn sorted_texts(s: Seq<Seq<char>>) -> Seq<Seq<char>> {
    s.sort_by(|a: Seq<char>, b: Seq<char>| text_le(a, b))
}

/// The members of a finite set of texts in strictly increasing order.
pub open spec fn ordered_set(set: Set<Seq<char>>) -> Seq<Seq<char>> {
    choose|s: Seq<Seq<char>>| text_strictly_sorted(s) && s.to_set() == set
}

/// No text comes before itself.
pub proof fn lemma_seq_lt_irreflexive(a: Seq<char>)
    ensures
        !seq_lt(a, a),
    decreases a.len(),
{
    if a.len() > 0 {
        lemma_seq_lt_irreflexive(a.drop_first());
    }
}

/// The text order is transitive.
pub proof fn lemma_seq_lt_transitive(a: Seq<char>, b: Seq<char>, c: Seq<char>)
    requires
        seq_lt(a, b),
        seq_lt(b, c),
    ensures
        seq_lt(a, c),
    decreases a.len(),
{
    if a.len() > 0 && b.len() > 0 && c.len() > 0 {
        if a[0] == b[0] && b[0] == c[0] {
            lemma_seq_lt_transitive(a.drop_first(), b.drop_first(), c.drop_first());
        }
    }
}

/// Of two different texts, one comes before the other, and never both.
pub proof fn lemma_seq_lt_total(a: Seq<char>, b: Seq<char>)
    ensures
        a == b || seq_lt(a, b) || seq_lt(b, a),
        !(seq_lt(a, b) && seq_lt(b, a)),
    decreases a.len(),
{
    if a.len() > 0 && b.len() > 0 {
        if a[0] == b[0] {
            lemma_seq_lt_total(a.drop_first(), b.drop_first());
            if a.drop_first() == b.drop_first() {
                assert(a =~= seq![a[0]] + a.drop_first());
                assert(b =~= seq![b[0]] + b.drop_first());
            }
        } else {
            assert((a[0] as int) != (b[0] as int));
        }
    } else if a.len() == 0 && b.len() == 0 {
        assert(a =~= b);
    }
}

/// `text_le` is a total order.
pub proof fn lemma_text_le_total_ordering()
    ensures
        total_ordering(|a: Seq<char>, b: Seq<char>| text_le(a, b)),
{
    assert forall|x: Seq<char>, y: Seq<char>| text_le(x, y) && text_le(y, x) implies x == y by {
        lemma_seq_lt_total(x, y);
    }
    assert forall|x: Seq<char>, y: Seq<char>, z: Seq<char>| text_le(x, y) && text_le(y, z) implies text_le(x, z) by {
        if seq_lt(x, y) && seq_lt(y, z) {
            lemma_seq_lt_transitive(x, y, z);
        }
    }
    assert forall|x: Seq<char>, y: Seq<char>| text_le(x, y) || text_le(y, x) by {
        lemma_seq_lt_total(x, y);
    }
}

/// The arrangement `sorted_texts` is sorted and has the same multiset.
pub proof fn lemma_sorted_texts(s: Seq<Seq<char>>)
    ensures
        text_sorted(sorted_texts(s)),
        sorted_texts(s).to_multiset() == s.to_multiset(),
{
    lemma_text_le_total_ordering();
    s.lemma_sort_by_ensures(|a: Seq<char>, b: Seq<char>| text_le(a, b));
    let t = sorted_texts(s);
    assert forall|i: int, j: int| 0 <= i < j < t.len() implies text_le(#[trigger] t[i], #[trigger] t[j]) by {
        assert(sorted_by(t, |a: Seq<char>, b: Seq<char>| text_le(a, b)));
        assert((|a: Seq<char>, b: Seq<char>| text_le(a, b))(t[i], t[j]));
    }
}

/// A sorted arrangement of the multiset of `s` is `sorted_texts(s)`.
pub proof fn lemma_sorted_texts_unique(s: Seq<Seq<char>>, t: Seq<Seq<char>>)
    requires
        text_sorted(t),
        t.to_multiset() == s.to_multiset(),
    ensures
        t == sorted_texts(s),
{
    lemma_sorted_texts(s);
    lemma_text_le_total_ordering();
    let leq = |a: Seq<char>, b: Seq<char>| text_le(a, b);
    assert forall|i: int, j: int| 0 <= i < j < t.len() implies #[trigger] leq(t[i], t[j]) by {
        assert(text_le(t[i], t[j]));
    }
    let u = sorted_texts(s);
    assert forall|i: int, j: int| 0 <= i < j < u.len() implies #[trigger] leq(u[i], u[j]) by {
        assert(text_le(u[i], u[j]));
    }
    vstd::seq_lib::lemma_sorted_unique(t, sorted_texts(s), |a: Seq<char>, b: Seq<char>| text_le(a, b));
}

/// Two strictly sorted sequences with the same members are equal.
pub proof fn lemma_strictly_sorted_unique(x: Seq<Seq<char>>, y: Seq<Seq<char>>)
    requires
        text_strictly_sorted(x),
        text_strictly_sorted(y),
        x.to_set() == y.to_set(),
    ensures
        x == y,
    decreases x.len(),
{
    if x.len() == 0 {
        if y.len() > 0 {
            assert(y.to_set().contains(y[0]));
        }
        assert(x =~= y);
    } else if y.len() == 0 {
        assert(x.to_set().contains(x[0]));
    } else {
        assert(x.to_set().contains(x[0]));
        assert(y.to_set().contains(y[0]));
        let i = choose|i: int| 0 <= i < y.len() && y[i] == x[0];
        let j = choose|j: int| 0 <= j < x.len() && x[j] == y[0];
        if i > 0 {
            assert(seq_lt(y[0], y[i]));
            if j > 0 {
                assert(seq_lt(x[0], x[j]));
                lemma_seq_lt_total(x[0], y[0]);
            } else {
                lemma_seq_lt_irreflexive(y[0]);
            }
        }
        assert(x[0] == y[0]);
        let xs = x.drop_first();
        let ys = y.drop_first();
        assert forall|e: Seq<char>| xs.to_set().contains(e) implies ys.to_set().contains(e) by {
            let k = choose|k: int| 0 <= k < xs.len() && xs[k] == e;
            assert(x[k + 1] == e);
            assert(seq_lt(x[0], e));
            assert(y.to_set().contains(e));
            let m = choose|m: int| 0 <= m < y.len() && y[m] == e;
            if m == 0 {
                lemma_seq_lt_irreflexive(e);
            }
            assert(ys[m - 1] == e);
        }
        assert forall|e: Seq<char>| ys.to_set().contains(e) implies xs.to_set().contains(e) by {
            let k = choose|k: int| 0 <= k < ys.len() && ys[k] == e;
            assert(y[k + 1] == e);
            assert(seq_lt(y[0], e));
            assert(x.to_set().contains(e));
            let m = choose|m: int| 0 <= m < x.len() && x[m] == e;
            if m == 0 {
                lemma_seq_lt_irreflexive(e);
            }
            assert(xs[m - 1] == e);
        }
        assert(xs.to_set() =~= ys.to_set());
        lemma_strictly_sorted_unique(xs, ys);
        assert(x =~= seq![x[0]] + xs);
        assert(y =~= seq![y[0]] + ys);
    }
}

/// A strictly sorted sequence is the ordered arrangement of its members.
pub proof fn lemma_ordered_set(s: Seq<Seq<char>>)
    requires
        text_strictly_sorted(s),
    ensures
        ordered_set(s.to_set()) == s,
{
    let t = ordered_set(s.to_set());
    assert(text_strictly_sorted(s) && s.to_set() == s.to_set());
    lemma_strictly_sorted_unique(s, t);
}

/// Inserts a text into a strictly sorted list of texts, unless it is already there.
pub fn insert_sorted_unique(v: &mut Vec<Vec<char>>, x: Vec<char>)
    requires
        text_strictly_sorted(views(old(v)@)),
    ensures
        text_strictly_sorted(views(final(v)@)),
        views(final(v)@).to_set() == views(old(v)@).to_set().insert(x@),
{
    let ghost old_views = views(v@);
    let mut pos: usize = 0;
    let mut done = false;
    while !done && pos < v.len()
        invariant
            pos <= v.len(),
            views(v@) == old_views,
            text_strictly_sorted(old_views),
            forall|k: int| 0 <= k < pos ==> seq_lt(#[trigger] old_views[k], x@),
            done ==> pos < v.len() && !seq_lt(old_views[pos as int], x@),
        decreases v.len() - pos + (if done { 0int } else { 1int }),
    {
        if chars_lt(&v[pos], &x) {
            pos = pos + 1;
        } else {
            done = true;
        }
    }
    if pos < v.len() && chars_eq(&v[pos], &x) {
        assert(old_views[pos as int] == x@);
        assert(old_views.to_set().insert(x@) =~= old_views.to_set());
        return;
    }
    proof {
        if pos < old_views.len() {
            lemma_seq_lt_total(old_views[pos as int], x@);
        }
    }
    v.insert(pos, x);
    proof {
        let nv = views(v@);
        assert(nv =~= old_views.insert(pos as int, x@));
        assert forall|i: int, j: int| 0 <= i < j < nv.len() implies seq_lt(#[trigger] nv[i], #[trigger] nv[j]) by {
            if j < pos {
            } else if i < pos && j == pos {
            } else if i < pos {
                assert(seq_lt(old_views[i], x@));
                assert(seq_lt(x@, old_views[pos as int]));
                if j - 1 > pos {
                    assert(seq_lt(old_views[pos as int], old_views[j - 1]));
                    lemma_seq_lt_transitive(x@, old_views[pos as int], old_views[j - 1]);
                }
                lemma_seq_lt_transitive(old_views[i], x@, old_views[j - 1]);
            } else if i == pos {
                assert(seq_lt(x@, old_views[pos as int]));
                if j - 1 > pos {
                    assert(seq_lt(old_views[pos as int], old_views[j - 1]));
                    lemma_seq_lt_transitive(x@, old_views[pos as int], old_views[j - 1]);
                }
            } else {
                assert(seq_lt(old_views[i - 1], old_views[j - 1]));
            }
        }
        assert(nv.to_set() =~= old_views.to_set().insert(x@)) by {
            assert forall|e: Seq<char>| nv.to_set().contains(e) implies old_views.to_set().insert(x@).contains(e) by {
                let k = choose|k: int| 0 <= k < nv.len() && nv[k] == e;
                if k < pos {
                    assert(old_views[k] == e);
                } else if k > pos {
                    assert(old_views[k - 1] == e);
                }
            }
            assert forall|e: Seq<char>| old_views.to_set().insert(x@).contains(e) implies nv.to_set().contains(e) by {
                if e == x@ {
                    assert(nv[pos as int] == e);
                } else {
                    let k = choose|k: int| 0 <= k < old_views.len() && old_views[k] == e;
                    if k < pos {
                        assert(nv[k] == e);
                    } else {
                        assert(nv[k + 1] == e);
                    }
                }
            }
        }
    }
}

/// Inserts a text into a sorted list of texts, after any equal ones.
pub fn insert_sorted(v: &mut Vec<Vec<char>>, x: Vec<char>)
    requires
        text_sorted(views(old(v)@)),
    ensures
        text_sorted(views(final(v)@)),
        views(final(v)@).to_multiset() == views(old(v)@).to_multiset().insert(x@),
{
    let ghost old_views = views(v@);
    let mut pos: usize = 0;
    let mut done = false;
    while !done && pos < v.len()
        invariant
            pos <= v.len(),
            views(v@) == old_views,
            text_sorted(old_views),
            forall|k: int| 0 <= k < pos ==> text_le(#[trigger] old_views[k], x@),
            done ==> pos < v.len() && seq_lt(x@, old_views[pos as int]),
        decreases v.len() - pos + (if done { 0int } else { 1int }),
    {
        if chars_lt(&x, &v[pos]) {
            done = true;
        } else {
            proof {
                lemma_seq_lt_total(old_views[pos as int], x@);
            }
            pos = pos + 1;
        }
    }
    proof {
        if pos < old_views.len() {
            assert(seq_lt(x@, old_views[pos as int]));
        }
    }
    v.insert(pos, x);
    proof {
        let nv = views(v@);
        assert(nv =~= old_views.insert(pos as int, x@));
        assert forall|i: int, j: int| 0 <= i < j < nv.len() implies text_le(#[trigger] nv[i], #[trigger] nv[j]) by {
            if j < pos {
                assert(text_le(old_views[i], old_views[j]));
            } else if i < pos && j == pos {
            } else if i < pos {
                assert(text_le(old_views[i], old_views[j - 1]));
            } else if i == pos {
                assert(seq_lt(x@, old_views[pos as int]));
                if j - 1 > pos {
                    assert(text_le(old_views[pos as int], old_views[j - 1]));
                    if seq_lt(old_views[pos as int], old_views[j - 1]) {
                        lemma_seq_lt_transitive(x@, old_views[pos as int], old_views[j - 1]);
                    }
                }
            } else {
                assert(text_le(old_views[i - 1], old_views[j - 1]));
            }
        }
        vstd::seq_lib::to_multiset_insert(old_views, pos as int, x@);
    }
}

/// The position of the last occurrence of `c` in `s`, or -1.
pub open spec fn last_index_of(s: Seq<char>, c: char) -> int
    decreases s.len(),
{
    if s.len() == 0 {
        -1
    } else if s.last() == c {
        s.len() - 1
    } else {
        last_index_of(s.drop_last(), c)
    }
}

/// The position of the last occurrence of `c` in `s`, if any.
pub fn last_index(s: &Vec<char>, c: char) -> (r: Option<usize>)
    ensures
        r matches Some(i) ==> last_index_of(s@, c) == i as int,
        r is None ==> last_index_of(s@, c) == -1,
        -1 <= last_index_of(s@, c) < s@.len(),
{
    let mut i: usize = s.len();
    assert(s@.take(s@.len() as int) =~= s@);
    proof {
        lemma_last_index_bound(s@, c);
    }
    while i > 0
        invariant
            i <= s.len(),
            last_index_of(s@, c) == last_index_of(s@.take(i as int), c),
            -1 <= last_index_of(s@.take(i as int), c) < i,
        decreases i,
    {
        proof {
            assert(s@.take(i as int).drop_last() =~= s@.take(i - 1));
            lemma_last_index_bound(s@.take(i - 1), c);
        }
        if s[i - 1] == c {
            return Some(i - 1);
        }
        i = i - 1;
    }
    assert(s@.take(0) =~= Seq::<char>::empty());
    None
}

proof fn lemma_last_index_bound(s: Seq<char>, c: char)
    ensures
        -1 <= last_index_of(s, c) < s.len(),
    decreases s.len(),
{
    if s.len() > 0 {
        lemma_last_index_bound(s.drop_last(), c);
    }
}

/// The UTF-8 of a concatenation is the concatenation of the UTF-8.
pub proof fn lemma_encode_utf8_concat(a: Seq<char>, b: Seq<char>)
    ensures
        vstd::utf8::encode_utf8(a + b) == vstd::utf8::encode_utf8(a) + vstd::utf8::encode_utf8(b),
    decreases a.len(),
{
    if a.len() == 0 {
        assert(a + b =~= b);
        assert(vstd::utf8::encode_utf8(a) =~= Seq::<u8>::empty());
        assert(vstd::utf8::encode_utf8(a) + vstd::utf8::encode_utf8(b) =~= vstd::utf8::encode_utf8(b));
    } else {
        assert((a + b).drop_first() =~= a.drop_first() + b);
        assert((a + b)[0] == a[0]);
        lemma_encode_utf8_concat(a.drop_first(), b);
        assert(vstd::utf8::encode_utf8(a + b) =~= vstd::utf8::encode_utf8(a) + vstd::utf8::encode_utf8(b));
    }
}

} // verus!
