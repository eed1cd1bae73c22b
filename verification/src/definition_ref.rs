use vstd::prelude::*;

verus! {

/// A lowercase ASCII letter.
pub open spec fn is_lower_letter(c: char) -> bool {
    'a' <= c && c <= 'z'
}

/// A character that may continue a symbolic ID segment: lowercase letter, digit, `_` or `-`.
pub open spec fn is_segment_char(c: char) -> bool {
    is_lower_letter(c) || ('0' <= c && c <= '9') || c == '_' || c == '-'
}

/// Dot-separated symbolic segments, each a lowercase letter followed by segment characters.
pub open spec fn is_dotted_id(s: Seq<char>) -> bool {
    &&& s.len() > 0
    &&& is_lower_letter(s[0])
    &&& forall|i: int| 0 <= i < s.len() ==> is_segment_char(#[trigger] s[i]) || s[i] == '.'
    &&& forall|i: int| 0 <= i < s.len() && #[trigger] s[i] == '.' ==> i + 1 < s.len() && is_lower_letter(s[i + 1])
}

/// A version `MAJOR.MINOR.PATCH` of decimal digits.
pub open spec fn is_version(v: Seq<char>) -> bool {
    exists|i: int, j: int|
        0 < i && i + 1 < j && j + 1 < v.len() && #[trigger] v[i] == '.' && #[trigger] v[j] == '.'
            && forall|k: int|
            0 <= k < v.len() && k != i && k != j ==> '0' <= #[trigger] v[k] && v[k] <= '9'
}

/// An exact definition reference `dotted.id@MAJOR.MINOR.PATCH`.
pub open spec fn is_exact_definition_ref(s: Seq<char>) -> bool {
    exists|at: int|
        0 <= at < s.len() && #[trigger] s[at] == '@' && is_dotted_id(s.take(at)) && is_version(
            s.skip(at + 1),
        )
}

fn lower_letter(c: char) -> (r: bool)
    ensures
        r == is_lower_letter(c),
{
    'a' <= c && c <= 'z'
}

fn segment_char(c: char) -> (r: bool)
    ensures
        r == is_segment_char(c),
{
    lower_letter(c) || ('0' <= c && c <= '9') || c == '_' || c == '-'
}

/// Whether the characters `s[start..end]` form a dotted symbolic ID.
pub fn dotted_id(s: &Vec<char>, start: usize, end: usize) -> (r: bool)
    requires
        start <= end <= s.len(),
    ensures
        r == is_dotted_id(s@.subrange(start as int, end as int)),
{
    let ghost t = s@.subrange(start as int, end as int);
    if start == end || !lower_letter(s[start]) {
        return false;
    }
    let mut i: usize = start;
    while i < end
        invariant
            t == s@.subrange(start as int, end as int),
            start <= i <= end <= s.len(),
            start < end,
            is_lower_letter(t[0]),
            forall|k: int| 0 <= k < i - start ==> is_segment_char(#[trigger] t[k]) || t[k] == '.',
            forall|k: int|
                0 <= k < i - start && #[trigger] t[k] == '.' ==> k + 1 < t.len() && is_lower_letter(t[k + 1]),
        decreases end - i,
    {
        let c = s[i];
        assert(t[i - start] == c);
        if c == '.' {
            if i + 1 >= end || !lower_letter(s[i + 1]) {
                return false;
            }
            assert(t[i - start + 1] == s@[i + 1]);
        } else if !segment_char(c) {
            return false;
        }
        i = i + 1;
    }
    true
}

/// Whether the characters `s[start..]` form a version `MAJOR.MINOR.PATCH`.
fn version_at(s: &Vec<char>, start: usize) -> (r: bool)
    requires
        start <= s.len(),
    ensures
        r == is_version(s@.skip(start as int)),
{
    let ghost v = s@.skip(start as int);
    let mut dots: usize = 0;
    let mut first: usize = 0;
    let mut second: usize = 0;
    let mut i: usize = start;
    while i < s.len()
        invariant
            v == s@.skip(start as int),
            start <= i <= s.len(),
            dots <= 2,
            dots >= 1 ==> start <= first < i && s@[first as int] == '.',
            dots >= 2 ==> first < second < i && s@[second as int] == '.',
            forall|k: int|
                start <= k < i && (dots < 1 || k != first) && (dots < 2 || k != second) ==> '0'
                    <= #[trigger] s@[k] && s@[k] <= '9',
        decreases s.len() - i,
    {
        let c = s[i];
        if c == '.' {
            if dots == 0 {
                first = i;
                dots = 1;
            } else if dots == 1 {
                second = i;
                dots = 2;
            } else {
                proof {
                    if is_version(v) {
                        let (a, b) = choose|a: int, b: int|
                            0 < a && a + 1 < b && b + 1 < v.len() && #[trigger] v[a] == '.'
                                && #[trigger] v[b] == '.' && forall|k: int|
                                0 <= k < v.len() && k != a && k != b ==> '0' <= #[trigger] v[k]
                                    && v[k] <= '9';
                        assert(v[first - start] == '.');
                        assert(v[second - start] == '.');
                        assert(v[i - start] == '.');
                    }
                }
                return false;
            }
        } else if !('0' <= c && c <= '9') {
            proof {
                if is_version(v) {
                    let (a, b) = choose|a: int, b: int|
                        0 < a && a + 1 < b && b + 1 < v.len() && #[trigger] v[a] == '.'
                            && #[trigger] v[b] == '.' && forall|k: int|
                            0 <= k < v.len() && k != a && k != b ==> '0' <= #[trigger] v[k] && v[k]
                                <= '9';
                    assert(v[i - start] == c);
                }
            }
            return false;
        }
        i = i + 1;
    }
    let ok = dots == 2 && first > start && first + 1 < second && second + 1 < s.len();
    proof {
        if ok {
            let a = first - start;
            let b = second - start;
            assert(v[a] == '.' && v[b] == '.');
            assert forall|k: int| 0 <= k < v.len() && k != a && k != b implies '0' <= #[trigger] v[k]
                && v[k] <= '9' by {
                assert(v[k] == s@[k + start]);
            }
        } else if is_version(v) {
            let (a, b) = choose|a: int, b: int|
                0 < a && a + 1 < b && b + 1 < v.len() && #[trigger] v[a] == '.' && #[trigger] v[b]
                    == '.' && forall|k: int|
                    0 <= k < v.len() && k != a && k != b ==> '0' <= #[trigger] v[k] && v[k] <= '9';
            assert(s@[a + start] == '.');
            assert(s@[b + start] == '.');
            if dots >= 1 {
                assert(v[first - start] == '.');
            }
            if dots >= 2 {
                assert(v[second - start] == '.');
            }
        }
    }
    ok
}

/// Whether a text is an exact definition reference `dotted.id@MAJOR.MINOR.PATCH`.
pub fn exact_definition_ref(s: &Vec<char>) -> (r: bool)
    ensures
        r == is_exact_definition_ref(s@),
{
    let mut at: usize = 0;
    while at < s.len()
        invariant
            at <= s.len(),
            forall|k: int| 0 <= k < at ==> #[trigger] s@[k] != '@',
        decreases s.len() - at,
    {
        if s[at] == '@' {
            let ok = dotted_id(s, 0, at) && version_at(s, at + 1);
            proof {
                assert(s@.subrange(0, at as int) =~= s@.take(at as int));
                if is_exact_definition_ref(s@) {
                    let a = choose|a: int|
                        0 <= a < s@.len() && #[trigger] s@[a] == '@' && is_dotted_id(s@.take(a))
                            && is_version(s@.skip(a + 1));
                    if a > at {
                        assert(s@.take(a)[at as int] == '@');
                    }
                }
            }
            return ok;
        }
        at = at + 1;
    }
    false
}

} // verus!
