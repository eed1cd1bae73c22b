use vstd::prelude::*;
use crate::charter_lifecycle::{is_blank, is_blank_text};
use crate::digest::{
    content_fingerprint, fingerprint_of_bytes, is_fingerprint, is_fingerprint_chars, sha256_prefix,
    sha256_prefix_chars,
};
use crate::json::{
    encode_jcs_lf, fingerprint_json, jcs_lf_bytes, json_fingerprint, json_null, json_string, json_str,
};
use crate::text::{
    chars_eq, chars_of, ends_with, has_prefix, has_suffix, last_index, last_index_of, slice_chars,
    starts_with, string_of,
};

verus! {

// ---------------------------------------------------------------------------
// JSON values
// ---------------------------------------------------------------------------

/// A JSON value as the fixture parser gives it. A number keeps the text that the parser
/// writes for it, and an object keeps its members in the parser's (key) order.
#[derive(Debug, PartialEq, Eq)]
pub enum JsonValue {
    Null,
    Bool(bool),
    Number(String),
    Str(String),
    Array(Vec<JsonValue>),
    Object(Vec<JsonMember>),
}

/// One member of a JSON object.
#[derive(Debug, PartialEq, Eq)]
pub struct JsonMember {
    pub key: String,
    pub value: JsonValue,
}

/// The JSON text of a value: members and items in order, strings escaped, numbers as written.
pub open spec fn value_text(v: JsonValue) -> Seq<char>
    decreases v, 0nat,
{
    match v {
        JsonValue::Null => json_null(),
        JsonValue::Bool(b) => if b {
            seq!['t', 'r', 'u', 'e']
        } else {
            seq!['f', 'a', 'l', 's', 'e']
        },
        JsonValue::Number(n) => n@,
        JsonValue::Str(s) => json_string(s@),
        JsonValue::Array(items) => seq!['['] + items_text(items@, items@.len()) + seq![']'],
        JsonValue::Object(members) => seq!['{'] + members_text(members@, members@.len()) + seq!['}'],
    }
}

/// The first `n` items, encoded and separated by commas.
pub open spec fn items_text(items: Seq<JsonValue>, n: nat) -> Seq<char>
    decreases items, n,
{
    if n == 0 || n > items.len() {
        Seq::empty()
    } else if n == 1 {
        value_text(items[0])
    } else {
        items_text(items, (n - 1) as nat) + seq![','] + value_text(items[n - 1])
    }
}

/// The first `n` members, encoded as `"key":value` and separated by commas.
pub open spec fn members_text(members: Seq<JsonMember>, n: nat) -> Seq<char>
    decreases members, n,
{
    if n == 0 || n > members.len() {
        Seq::empty()
    } else if n == 1 {
        json_string(members[0].key@) + seq![':'] + value_text(members[0].value)
    } else {
        members_text(members, (n - 1) as nat) + seq![','] + json_string(members[n - 1].key@) + seq![':']
            + value_text(members[n - 1].value)
    }
}

fn push_all(out: &mut Vec<char>, more: &Vec<char>)
    ensures
        final(out)@ == old(out)@ + more@,
{
    let mut i: usize = 0;
    let ghost start = out@;
    while i < more.len()
        invariant
            i <= more.len(),
            out@ == start + more@.take(i as int),
        decreases more.len() - i,
    {
        out.push(more[i]);
        assert(more@.take(i + 1) =~= more@.take(i as int).push(more@[i as int]));
        i = i + 1;
    }
    assert(more@.take(more@.len() as int) =~= more@);
}

/// The JSON text of a value.
pub fn value_text_of(v: &JsonValue) -> (r: Vec<char>)
    ensures
        r@ == value_text(*v),
    decreases v, 0nat,
{
    match v {
        JsonValue::Null => {
            let mut out: Vec<char> = Vec::new();
            out.push('n');
            out.push('u');
            out.push('l');
            out.push('l');
            assert(out@ =~= json_null());
            out
        },
        JsonValue::Bool(b) => {
            let mut out: Vec<char> = Vec::new();
            if *b {
                out.push('t');
                out.push('r');
                out.push('u');
                out.push('e');
            } else {
                out.push('f');
                out.push('a');
                out.push('l');
                out.push('s');
                out.push('e');
            }
            assert(out@ =~= value_text(*v));
            out
        },
        JsonValue::Number(n) => crate::text::chars_of(n.as_str()),
        JsonValue::Str(s) => json_str(s.as_str()),
        JsonValue::Array(items) => {
            let mut out: Vec<char> = Vec::new();
            out.push('[');
            let inner = items_text_of(items, items.len());
            push_all(&mut out, &inner);
            out.push(']');
            assert(out@ =~= value_text(*v));
            out
        },
        JsonValue::Object(members) => {
            let mut out: Vec<char> = Vec::new();
            out.push('{');
            let inner = members_text_of(members, members.len());
            push_all(&mut out, &inner);
            out.push('}');
            assert(out@ =~= value_text(*v));
            out
        },
    }
}

fn items_text_of(items: &Vec<JsonValue>, n: usize) -> (r: Vec<char>)
    requires
        n <= items.len(),
    ensures
        r@ == items_text(items@, n as nat),
    decreases items@, n,
{
    if n == 0 {
        Vec::new()
    } else if n == 1 {
        value_text_of(&items[0])
    } else {
        let mut out = items_text_of(items, n - 1);
        out.push(',');
        let last = value_text_of(&items[n - 1]);
        push_all(&mut out, &last);
        out
    }
}

fn members_text_of(members: &Vec<JsonMember>, n: usize) -> (r: Vec<char>)
    requires
        n <= members.len(),
    ensures
        r@ == members_text(members@, n as nat),
    decreases members@, n,
{
    if n == 0 {
        Vec::new()
    } else {
        let mut out: Vec<char> = if n == 1 {
            Vec::new()
        } else {
            let mut prefix = members_text_of(members, n - 1);
            prefix.push(',');
            prefix
        };
        let key = json_str(members[n - 1].key.as_str());
        push_all(&mut out, &key);
        out.push(':');
        let value = value_text_of(&members[n - 1].value);
        push_all(&mut out, &value);
        assert(out@ =~= members_text(members@, n as nat));
        out
    }
}


// ---------------------------------------------------------------------------
// Field access
// ---------------------------------------------------------------------------

/// The position of the first occurrence of `c` in `s`, or -1.
pub open spec fn first_index_of(s: Seq<char>, c: char) -> int
    decreases s.len(),
{
    if s.len() == 0 {
        -1
    } else if s[0] == c {
        0
    } else {
        let k = first_index_of(s.drop_first(), c);
        if k < 0 {
            -1
        } else {
            k + 1
        }
    }
}

/// The first occurrence of `c` lies inside `s`, holds `c`, and no `c` comes before it.
pub proof fn lemma_first_index(s: Seq<char>, c: char)
    ensures
        -1 <= first_index_of(s, c) < s.len(),
        first_index_of(s, c) >= 0 ==> s[first_index_of(s, c)] == c,
        forall|j: int| 0 <= j < s.len() && (first_index_of(s, c) < 0 || j < first_index_of(s, c)) ==> s[j]
            != c,
    decreases s.len(),
{
    if s.len() > 0 {
        lemma_first_index(s.drop_first(), c);
        assert forall|j: int|
            0 <= j < s.len() && (first_index_of(s, c) < 0 || j < first_index_of(s, c)) implies s[j]
            != c by {
            if j > 0 {
                assert(s[j] == s.drop_first()[j - 1]);
            }
        }
    }
}

proof fn lemma_first_index_at(s: Seq<char>, c: char, k: int)
    requires
        -1 <= k < s.len(),
        k >= 0 ==> s[k] == c,
        forall|j: int| 0 <= j < s.len() && (k < 0 || j < k) ==> s[j] != c,
    ensures
        first_index_of(s, c) == k,
    decreases s.len(),
{
    if s.len() > 0 && k != 0 {
        assert(s[0] != c);
        assert forall|j: int| 0 <= j < s.len() - 1 && (k - 1 < 0 || j < k - 1) implies s.drop_first()[j]
            != c by {
            assert(s.drop_first()[j] == s[j + 1]);
        }
        if k > 0 {
            assert(s.drop_first()[k - 1] == s[k]);
            lemma_first_index_at(s.drop_first(), c, k - 1);
        } else {
            lemma_first_index_at(s.drop_first(), c, -1);
        }
    }
}

/// The value of the first member of an object, from position `i` on, whose key is `key`.
pub open spec fn first_member(members: Seq<JsonMember>, key: Seq<char>, i: int) -> Option<JsonValue>
    decreases members.len() - i,
{
    if i < 0 || i >= members.len() {
        None
    } else if members[i].key@ == key {
        Some(members[i].value)
    } else {
        first_member(members, key, i + 1)
    }
}

/// The member `key` of an object; nothing for other values.
pub open spec fn member_get(v: JsonValue, key: Seq<char>) -> Option<JsonValue> {
    match v {
        JsonValue::Object(members) => first_member(members@, key, 0),
        _ => None,
    }
}

/// The item at `i` of an array; nothing for other values or past the end.
pub open spec fn element_get(v: JsonValue, i: nat) -> Option<JsonValue> {
    match v {
        JsonValue::Array(items) => if i < items@.len() {
            Some(items@[i as int])
        } else {
            None
        },
        _ => None,
    }
}

/// The ASCII decimal digits.
pub open spec fn is_decimal_digit(c: char) -> bool {
    '0' <= c && c <= '9'
}

/// A non-empty run of decimal digits.
pub open spec fn all_digits(s: Seq<char>) -> bool {
    s.len() > 0 && forall|i: int| 0 <= i < s.len() ==> is_decimal_digit(#[trigger] s[i])
}

/// The number that a run of decimal digits writes.
pub open spec fn digits_value(s: Seq<char>) -> nat
    decreases s.len(),
{
    if s.len() == 0 {
        0
    } else {
        digits_value(s.drop_last()) * 10 + ((s.last() as int - 48) as nat)
    }
}

/// An index as `usize::from_str` reads it: an optional `+`, then decimal digits whose value
/// fits in `usize`.
pub open spec fn parse_index(s: Seq<char>) -> Option<nat> {
    let digits = if s.len() > 0 && s[0] == '+' {
        s.drop_first()
    } else {
        s
    };
    if all_digits(digits) && digits_value(digits) <= usize::MAX {
        Some(digits_value(digits))
    } else {
        None
    }
}

/// One accessor segment: `key`, or `key[index]`.
pub open spec fn segment_get(v: JsonValue, segment: Seq<char>) -> Option<JsonValue> {
    let k = first_index_of(segment, '[');
    if k >= 0 {
        let suffix = segment.skip(k + 1);
        if suffix.len() >= 1 && suffix.last() == ']' {
            match parse_index(suffix.drop_last()) {
                Some(i) => match member_get(v, segment.take(k)) {
                    Some(c) => element_get(c, i),
                    None => None,
                },
                None => None,
            }
        } else {
            None
        }
    } else {
        member_get(v, segment)
    }
}

/// The value that a dotted accessor such as `a.b[2].c` reaches, segment by segment.
pub open spec fn path_get(v: JsonValue, accessor: Seq<char>) -> Option<JsonValue>
    decreases accessor.len(),
{
    let k = first_index_of(accessor, '.');
    if k >= 0 {
        proof {
            lemma_first_index(accessor, '.');
        }
        match segment_get(v, accessor.take(k)) {
            Some(c) => path_get(c, accessor.skip(k + 1)),
            None => None,
        }
    } else {
        segment_get(v, accessor)
    }
}

/// The string that an accessor reaches, if it reaches a string.
pub open spec fn str_at(v: JsonValue, accessor: Seq<char>) -> Option<Seq<char>> {
    match path_get(v, accessor) {
        Some(JsonValue::Str(s)) => Some(s@),
        _ => None,
    }
}

/// The unsigned integer that an accessor reaches, if it reaches a number written as decimal
/// digits whose value fits in `u64`.
pub open spec fn u64_at(v: JsonValue, accessor: Seq<char>) -> Option<nat> {
    match path_get(v, accessor) {
        Some(JsonValue::Number(t)) => if all_digits(t@) && digits_value(t@) <= u64::MAX {
            Some(digits_value(t@))
        } else {
            None
        },
        _ => None,
    }
}

proof fn lemma_digits_value_prefix(s: Seq<char>, i: int)
    requires
        0 <= i <= s.len(),
    ensures
        digits_value(s.take(i)) <= digits_value(s),
    decreases s.len(),
{
    if i < s.len() {
        assert(s.drop_last().take(i) =~= s.take(i));
        lemma_digits_value_prefix(s.drop_last(), i);
    } else {
        assert(s.take(i) =~= s);
    }
}

/// The first position at or after `from` where `c` occurs.
fn find_char(s: &Vec<char>, from: usize, c: char) -> (r: Option<usize>)
    requires
        from <= s.len(),
    ensures
        r matches Some(i) ==> from <= i < s.len() && first_index_of(s@.skip(from as int), c) == i - from,
        r is None ==> first_index_of(s@.skip(from as int), c) == -1,
{
    let mut i: usize = from;
    while i < s.len()
        invariant
            from <= i <= s.len(),
            forall|j: int| from <= j < i ==> s@[j] != c,
        decreases s.len() - i,
    {
        if s[i] == c {
            proof {
                lemma_first_index_at(s@.skip(from as int), c, i - from);
            }
            return Some(i);
        }
        i = i + 1;
    }
    proof {
        lemma_first_index_at(s@.skip(from as int), c, -1);
    }
    None
}

/// The value of decimal digits `s[start..end]`, when they are all digits and their value is at
/// most `max`.
fn decimal_value(s: &Vec<char>, start: usize, end: usize, max: u64) -> (r: Option<u64>)
    requires
        start <= end <= s.len(),
    ensures
        r matches Some(x) ==> all_digits(s@.subrange(start as int, end as int)) && x == digits_value(
            s@.subrange(start as int, end as int),
        ) && x <= max,
        r is None ==> !(all_digits(s@.subrange(start as int, end as int)) && digits_value(
            s@.subrange(start as int, end as int),
        ) <= max),
{
    let ghost d = s@.subrange(start as int, end as int);
    if start == end {
        return None;
    }
    let mut k: usize = start;
    while k < end
        invariant
            start <= k <= end <= s.len(),
            d == s@.subrange(start as int, end as int),
            forall|j: int| 0 <= j < k - start ==> is_decimal_digit(#[trigger] d[j]),
        decreases end - k,
    {
        if !('0' <= s[k] && s[k] <= '9') {
            assert(!is_decimal_digit(d[k - start]));
            return None;
        }
        k = k + 1;
    }
    assert(all_digits(d));
    let mut value: u64 = 0;
    let mut i: usize = start;
    while i < end
        invariant
            start <= i <= end <= s.len(),
            d == s@.subrange(start as int, end as int),
            all_digits(d),
            value == digits_value(d.take(i - start)),
            value <= max,
        decreases end - i,
    {
        assert(d.take(i - start + 1).drop_last() =~= d.take(i - start));
        assert(d.take(i - start + 1).last() == d[i - start]);
        assert(is_decimal_digit(d[i - start]));
        assert(d[i - start] == s@[i as int]);
        let digit: u64 = ((s[i] as u32) - 48) as u64;
        if digit > max || value > (max - digit) / 10 {
            proof {
                lemma_digits_value_prefix(d, i - start + 1);
                assert(digits_value(d.take(i - start + 1)) == value * 10 + digit);
            }
            return None;
        }
        value = value * 10 + digit;
        i = i + 1;
    }
    assert(d.take(d.len() as int) =~= d);
    Some(value)
}

/// The member `key` of an object.
pub fn member_of<'a>(v: &'a JsonValue, key: &Vec<char>) -> (r: Option<&'a JsonValue>)
    ensures
        r matches Some(x) ==> member_get(*v, key@) == Some(*x),
        r is None ==> member_get(*v, key@) is None,
{
    match v {
        JsonValue::Object(members) => {
            let mut i: usize = 0;
            while i < members.len()
                invariant
                    i <= members.len(),
                    member_get(*v, key@) == first_member(members@, key@, i as int),
                decreases members.len() - i,
            {
                if chars_eq(&chars_of(members[i].key.as_str()), key) {
                    assert(members@[i as int].key@ == key@);
                    return Some(&members[i].value);
                }
                i = i + 1;
            }
            None
        },
        _ => None,
    }
}

/// One accessor segment `s[start..end]`: `key` or `key[index]`.
fn segment_of<'a>(v: &'a JsonValue, s: &Vec<char>, start: usize, end: usize) -> (r: Option<&'a JsonValue>)
    requires
        start <= end <= s.len(),
    ensures
        r matches Some(x) ==> segment_get(*v, s@.subrange(start as int, end as int)) == Some(*x),
        r is None ==> segment_get(*v, s@.subrange(start as int, end as int)) is None,
{
    let segment = slice_chars(s, start, end);
    match find_char(&segment, 0, '[') {
        Some(k) => {
            assert(segment@.skip(0) =~= segment@);
            let n = segment.len();
            if n - k < 2 || segment[n - 1] != ']' {
                return None;
            }
            let plus = segment[k + 1] == '+';
            let digits_start: usize = if plus && k + 2 < n {
                k + 2
            } else {
                k + 1
            };
            proof {
                let inner = segment@.skip(k + 1).drop_last();
                assert(inner =~= segment@.subrange(k + 1, n - 1));
                if plus && k + 2 < n {
                    assert(inner.drop_first() =~= segment@.subrange(k + 2, n - 1));
                }
                if plus && k + 2 == n {
                    assert(inner.len() == 0);
                }
            }
            let index = match decimal_value(&segment, digits_start, n - 1, usize::MAX as u64) {
                Some(x) => x as usize,
                None => {
                    return None;
                },
            };
            let key = slice_chars(&segment, 0, k);
            assert(key@ =~= segment@.take(k as int));
            match member_of(v, &key) {
                Some(c) => match c {
                    JsonValue::Array(items) => {
                        if index < items.len() {
                            Some(&items[index])
                        } else {
                            None
                        }
                    },
                    _ => None,
                },
                None => None,
            }
        },
        None => {
            assert(segment@.skip(0) =~= segment@);
            member_of(v, &segment)
        },
    }
}

/// The value that a dotted accessor reaches, as `serde_json` navigation by segments gives it.
pub fn field<'a>(v: &'a JsonValue, accessor: &str) -> (r: Option<&'a JsonValue>)
    ensures
        r matches Some(x) ==> path_get(*v, accessor@) == Some(*x),
        r is None ==> path_get(*v, accessor@) is None,
{
    let s = chars_of(accessor);
    let mut current: &JsonValue = v;
    let mut pos: usize = 0;
    assert(s@.skip(0) =~= s@);
    loop
        invariant
            pos <= s.len(),
            s@ == accessor@,
            path_get(*v, accessor@) == path_get(*current, s@.skip(pos as int)),
        decreases s.len() - pos,
    {
        let ghost rest = s@.skip(pos as int);
        match find_char(&s, pos, '.') {
            Some(i) => {
                assert(rest.take(i - pos) =~= s@.subrange(pos as int, i as int));
                assert(rest.skip(i - pos + 1) =~= s@.skip(i + 1));
                match segment_of(current, &s, pos, i) {
                    Some(c) => {
                        current = c;
                        pos = i + 1;
                    },
                    None => {
                        return None;
                    },
                }
            },
            None => {
                assert(rest =~= s@.subrange(pos as int, s.len() as int));
                return segment_of(current, &s, pos, s.len());
            },
        }
    }
}

/// The string that an accessor reaches.
pub fn str_field<'a>(v: &'a JsonValue, accessor: &str) -> (r: Option<&'a String>)
    ensures
        r matches Some(x) ==> str_at(*v, accessor@) == Some(x@),
        r is None ==> str_at(*v, accessor@) is None,
{
    match field(v, accessor) {
        Some(JsonValue::Str(s)) => Some(s),
        _ => None,
    }
}

/// The unsigned integer that an accessor reaches.
pub fn u64_field(v: &JsonValue, accessor: &str) -> (r: Option<u64>)
    ensures
        r matches Some(x) ==> u64_at(*v, accessor@) == Some(x as nat),
        r is None ==> u64_at(*v, accessor@) is None,
{
    match field(v, accessor) {
        Some(JsonValue::Number(t)) => {
            let digits = chars_of(t.as_str());
            assert(digits@.subrange(0, digits@.len() as int) =~= digits@);
            decimal_value(&digits, 0, digits.len(), u64::MAX)
        },
        _ => None,
    }
}


// ---------------------------------------------------------------------------
// Runtime record vectors
// ---------------------------------------------------------------------------

/// What a successful check of a vector fixture counted.
#[derive(Clone, Debug, PartialEq, Eq)]
pub struct RuntimeRecordVectorReport {
    pub vector_count: usize,
    pub cross_record_binding_count: usize,
    pub external_reference_binding_count: usize,
}

/// Why a vector fixture was refused.
#[derive(Clone, Debug, PartialEq, Eq)]
pub struct RuntimeRecordVectorError {
    detail: String,
}

impl RuntimeRecordVectorError {
    /// The text that explains the refusal.
    pub closed spec fn error_detail(&self) -> Seq<char> {
        self.detail@
    }

    pub fn new(detail: &str) -> (r: Self)
        ensures
            r.error_detail() == detail@,
    {
        Self { detail: detail.to_owned() }
    }

    pub fn detail(&self) -> (r: &str)
        ensures
            r@ == self.error_detail(),
    {
        self.detail.as_str()
    }
}

/// One record vector: a runtime record, the preimage its fingerprint is taken over, and the
/// identity and document witnesses expected of it.
#[derive(Debug)]
pub struct RecordVector {
    pub record_class: String,
    pub schema_contract: String,
    pub audit_only_excluded_fields: Vec<String>,
    pub fingerprint_field: String,
    pub id_field: Option<String>,
    pub id_location: String,
    pub expected_fingerprint: String,
    pub expected_id: String,
    pub fingerprint_preimage: JsonValue,
    pub record: JsonValue,
    pub candidate_subject_fingerprint_preimage: Option<JsonValue>,
    pub expected_candidate_subject_fingerprint: Option<String>,
    pub expected_document_byte_length: Option<usize>,
    pub expected_document_sha256: Option<String>,
}

/// A reference from a field of one vector's record to the record of another vector.
#[derive(Debug)]
pub struct CrossRecordBinding {
    pub source_record_class: String,
    pub source_field: String,
    pub target_record_class: String,
    pub expected_ref: String,
    pub declared_fingerprint_field: Option<String>,
    pub expected_target_id: String,
    pub expected_target_fingerprint: String,
    pub declared_document_sha256_field: Option<String>,
    pub expected_target_document_sha256: Option<String>,
    pub declared_byte_length_field: Option<String>,
    pub expected_target_byte_length: Option<usize>,
    pub transitive_exact_document_authority: Option<String>,
}

/// A reference from a field of one vector's record to an artifact of an outside producer.
#[derive(Debug)]
pub struct ExternalReferenceBinding {
    pub source_record_class: String,
    pub source_field: String,
    pub expected_ref: String,
    pub producer_kind: String,
    pub expected_producer_fingerprint: String,
    pub declared_fingerprint_field: Option<String>,
}

/// A runtime record fingerprint vector fixture, as read from its closed JSON document.
#[derive(Debug)]
pub struct RuntimeVectorFixture {
    pub schema_id: String,
    pub schema_version: String,
    pub normalization: String,
    pub id_rule: String,
    pub vectors: Vec<RecordVector>,
    pub cross_record_contract: JsonValue,
    pub cross_record_bindings: Vec<CrossRecordBinding>,
    pub external_reference_contract: JsonValue,
    pub external_reference_bindings: Vec<ExternalReferenceBinding>,
    pub candidate_1_3_exact_result_contract: JsonValue,
    pub historical_candidate_1_2_contract: JsonValue,
    pub exact_result_negative_vectors: JsonValue,
    pub candidate_1_3_amendment_chain_contract: JsonValue,
    pub author_inventory_contract: JsonValue,
    pub author_inventory_boundary_vectors: JsonValue,
}

/// The text of one object member, `"key":value`.
pub open spec fn member_text(m: JsonMember) -> Seq<char> {
    json_string(m.key@) + seq![':'] + value_text(m.value)
}

/// The first `n` members whose keys are not in `excluded`, encoded and separated by commas.
pub open spec fn kept_members_text(members: Seq<JsonMember>, excluded: Seq<Seq<char>>, n: nat) -> Seq<char>
    decreases n,
{
    if n == 0 || n > members.len() {
        Seq::empty()
    } else {
        let before = kept_members_text(members, excluded, (n - 1) as nat);
        let m = members[n - 1];
        if excluded.contains(m.key@) {
            before
        } else if before.len() == 0 {
            member_text(m)
        } else {
            before + seq![','] + member_text(m)
        }
    }
}

/// The members a vector's record drops before its fingerprint is taken: the fingerprint
/// field, the ID field when the record holds one, and the audit-only fields.
pub open spec fn excluded_keys(v: RecordVector) -> Seq<Seq<char>> {
    seq![v.fingerprint_field@] + match v.id_field {
        Some(f) => seq![f@],
        None => Seq::empty(),
    } + v.audit_only_excluded_fields@.map_values(|f: String| f@)
}

/// The classes whose vectors carry a candidate-subject witness.
pub open spec fn is_candidate_class(c: Seq<char>) -> bool {
    c == "candidate"@ || c == "candidate-amendment"@
}

/// The classes whose vectors carry an exact-document witness.
pub open spec fn is_result_class(c: Seq<char>) -> bool {
    c == "lifecycle-validation-result"@ || c == "lifecycle-validation-result-amendment"@
}

/// The candidate-subject witness is present exactly for candidate classes, and there its
/// preimage's fingerprint is the expected one and the record declares it.
pub open spec fn candidate_witness_ok(v: RecordVector) -> bool {
    match (v.candidate_subject_fingerprint_preimage, v.expected_candidate_subject_fingerprint) {
        (Some(p), Some(e)) => is_candidate_class(v.record_class@) && json_fingerprint(value_text(p)) == Some(
            e@,
        ) && str_at(v.record, "candidate_subject_fingerprint"@) == Some(e@),
        (None, None) => !is_candidate_class(v.record_class@),
        _ => false,
    }
}

/// The exact-document witness is present exactly for result classes, and there the record's
/// canonical bytes and one line feed have the expected length and digest.
pub open spec fn document_witness_ok(v: RecordVector) -> bool {
    match (v.expected_document_byte_length, v.expected_document_sha256) {
        (Some(n), Some(h)) => is_result_class(v.record_class@) && match jcs_lf_bytes(value_text(v.record)) {
            Some(doc) => doc.len() == n && content_fingerprint(doc) == h@,
            None => false,
        },
        (None, None) => !is_result_class(v.record_class@),
        _ => false,
    }
}

/// The record's ID is where the vector says: in the ID field, or derived from its path.
pub open spec fn id_location_ok(v: RecordVector) -> bool {
    match v.id_field {
        Some(f) => v.id_location@ == "record"@ && str_at(v.record, f@) == Some(v.expected_id@),
        None => v.id_location@ == "derived_content_addressed_path"@,
    }
}

/// The record, with its excluded members removed, writes the same JSON as the preimage
/// (for values as the fixture parser gives them, that is the same value).
pub open spec fn reproduces_preimage(v: RecordVector) -> bool {
    match v.record {
        JsonValue::Object(ms) => seq!['{'] + kept_members_text(ms@, excluded_keys(v), ms@.len()) + seq!['}']
            == value_text(v.fingerprint_preimage),
        _ => false,
    }
}

/// A vector whose fingerprint recomputes from its preimage, whose ID ends with the
/// fingerprint's hex, whose record declares both, reproduces the preimage, and carries
/// exactly the witnesses of its class.
pub open spec fn vector_ok(v: RecordVector) -> bool {
    &&& json_fingerprint(value_text(v.fingerprint_preimage)) == Some(v.expected_fingerprint@)
    &&& has_prefix(v.expected_fingerprint@, sha256_prefix())
    &&& has_suffix(v.expected_id@, v.expected_fingerprint@.skip(7))
    &&& str_at(v.record, v.fingerprint_field@) == Some(v.expected_fingerprint@)
    &&& id_location_ok(v)
    &&& reproduces_preimage(v)
    &&& candidate_witness_ok(v)
    &&& document_witness_ok(v)
}

fn text_is(a: &str, b: &str) -> (r: bool)
    ensures
        r == (a@ == b@),
{
    chars_eq(&chars_of(a), &chars_of(b))
}

fn strings_contain(keys: &Vec<Vec<char>>, k: &Vec<char>) -> (r: bool)
    ensures
        r == crate::text::views(keys@).contains(k@),
{
    let ghost vs = crate::text::views(keys@);
    let mut i: usize = 0;
    while i < keys.len()
        invariant
            i <= keys.len(),
            vs == crate::text::views(keys@),
            forall|j: int| 0 <= j < i ==> vs[j] != k@,
        decreases keys.len() - i,
    {
        if chars_eq(&keys[i], k) {
            assert(vs[i as int] == k@);
            return true;
        }
        i = i + 1;
    }
    false
}

fn excluded_keys_of(v: &RecordVector) -> (r: Vec<Vec<char>>)
    ensures
        crate::text::views(r@) == excluded_keys(*v),
{
    let mut keys: Vec<Vec<char>> = Vec::new();
    keys.push(chars_of(v.fingerprint_field.as_str()));
    match &v.id_field {
        Some(f) => keys.push(chars_of(f.as_str())),
        None => {},
    }
    let ghost head = crate::text::views(keys@);
    let ghost audit = v.audit_only_excluded_fields@.map_values(|f: String| f@);
    assert(head =~= seq![v.fingerprint_field@] + match v.id_field {
        Some(f) => seq![f@],
        None => Seq::<Seq<char>>::empty(),
    });
    let mut i: usize = 0;
    while i < v.audit_only_excluded_fields.len()
        invariant
            i <= v.audit_only_excluded_fields.len(),
            audit == v.audit_only_excluded_fields@.map_values(|f: String| f@),
            crate::text::views(keys@) == head + audit.take(i as int),
        decreases v.audit_only_excluded_fields.len() - i,
    {
        let ghost before = crate::text::views(keys@);
        keys.push(chars_of(v.audit_only_excluded_fields[i].as_str()));
        assert(crate::text::views(keys@) =~= before.push(audit[i as int]));
        assert(audit.take(i + 1) =~= audit.take(i as int).push(audit[i as int]));
        assert(crate::text::views(keys@) =~= head + audit.take(i + 1));
        i = i + 1;
    }
    assert(audit.take(audit.len() as int) =~= audit);
    keys
}

fn member_text_of(m: &JsonMember) -> (r: Vec<char>)
    ensures
        r@ == member_text(*m),
{
    let mut out = json_str(m.key.as_str());
    out.push(':');
    let value = value_text_of(&m.value);
    push_all(&mut out, &value);
    out
}

/// The record text with the excluded members removed.
fn kept_object_text(members: &Vec<JsonMember>, excluded: &Vec<Vec<char>>) -> (r: Vec<char>)
    ensures
        r@ == seq!['{'] + kept_members_text(members@, crate::text::views(excluded@), members@.len())
            + seq!['}'],
{
    let ghost ex = crate::text::views(excluded@);
    let mut inner: Vec<char> = Vec::new();
    let mut i: usize = 0;
    while i < members.len()
        invariant
            i <= members.len(),
            ex == crate::text::views(excluded@),
            inner@ == kept_members_text(members@, ex, i as nat),
        decreases members.len() - i,
    {
        let key = chars_of(members[i].key.as_str());
        if !strings_contain(excluded, &key) {
            let text = member_text_of(&members[i]);
            if inner.len() > 0 {
                inner.push(',');
            }
            push_all(&mut inner, &text);
        }
        i = i + 1;
    }
    let mut out: Vec<char> = Vec::new();
    out.push('{');
    push_all(&mut out, &inner);
    out.push('}');
    out
}

fn is_candidate_class_text(c: &str) -> (r: bool)
    ensures
        r == is_candidate_class(c@),
{
    text_is(c, "candidate") || text_is(c, "candidate-amendment")
}

fn is_result_class_text(c: &str) -> (r: bool)
    ensures
        r == is_result_class(c@),
{
    text_is(c, "lifecycle-validation-result") || text_is(c, "lifecycle-validation-result-amendment")
}

fn str_field_is(v: &JsonValue, accessor: &str, expected: &str) -> (r: bool)
    ensures
        r == (str_at(*v, accessor@) == Some(expected@)),
{
    match str_field(v, accessor) {
        Some(s) => text_is(s.as_str(), expected),
        None => false,
    }
}

fn vector_error(detail: &str) -> (r: Result<(), RuntimeRecordVectorError>)
    ensures
        r is Err,
{
    Err(RuntimeRecordVectorError::new(detail))
}

/// Checks one record vector.
#[verifier::rlimit(40)]
pub fn validate_vector(vector: &RecordVector) -> (r: Result<(), RuntimeRecordVectorError>)
    ensures
        r is Ok <==> vector_ok(*vector),
{
    let preimage_text = value_text_of(&vector.fingerprint_preimage);
    let fingerprint = match fingerprint_json(&preimage_text) {
        Some(f) => f,
        None => {
            return vector_error("runtime preimage cannot be canonicalized");
        },
    };
    let expected = chars_of(vector.expected_fingerprint.as_str());
    if !chars_eq(&fingerprint, &expected) {
        return vector_error("fingerprint does not recompute");
    }
    let prefix = sha256_prefix_chars();
    proof {
        crate::digest::lemma_sha256_prefix();
    }
    if !starts_with(&expected, &prefix) {
        return vector_error("expected fingerprint is not lowercase sha256");
    }
    let hex = slice_chars(&expected, 7, expected.len());
    assert(hex@ =~= expected@.skip(7));
    if !ends_with(&chars_of(vector.expected_id.as_str()), &hex) {
        return vector_error("ID does not bind its fingerprint");
    }
    if !str_field_is(&vector.record, vector.fingerprint_field.as_str(), vector.expected_fingerprint.as_str()) {
        return vector_error("record fingerprint field disagrees");
    }
    let id_ok = match &vector.id_field {
        Some(f) => text_is(vector.id_location.as_str(), "record") && str_field_is(
            &vector.record,
            f.as_str(),
            vector.expected_id.as_str(),
        ),
        None => text_is(vector.id_location.as_str(), "derived_content_addressed_path"),
    };
    if !id_ok {
        return vector_error("record ID field disagrees");
    }
    let reconstructed = match &vector.record {
        JsonValue::Object(members) => kept_object_text(members, &excluded_keys_of(vector)),
        _ => {
            return vector_error("runtime record must have an object root");
        },
    };
    if !chars_eq(&reconstructed, &preimage_text) {
        return vector_error("record does not reproduce its exact preimage after exclusions");
    }
    let candidate = is_candidate_class_text(vector.record_class.as_str());
    match (&vector.candidate_subject_fingerprint_preimage, &vector.expected_candidate_subject_fingerprint) {
        (Some(preimage), Some(expected_subject)) => {
            if !candidate {
                return vector_error("candidate subject witness presence is not class-exact");
            }
            let observed = match fingerprint_json(&value_text_of(preimage)) {
                Some(f) => f,
                None => {
                    return vector_error("candidate subject preimage cannot be canonicalized");
                },
            };
            if !chars_eq(&observed, &chars_of(expected_subject.as_str())) || !str_field_is(
                &vector.record,
                "candidate_subject_fingerprint",
                expected_subject.as_str(),
            ) {
                return vector_error("candidate subject fingerprint witness does not recompute");
            }
        },
        (None, None) => {
            if candidate {
                return vector_error("candidate subject witness presence is not class-exact");
            }
        },
        _ => {
            return vector_error("candidate subject witness presence is not class-exact");
        },
    }
    let result = is_result_class_text(vector.record_class.as_str());
    match (vector.expected_document_byte_length, &vector.expected_document_sha256) {
        (Some(expected_length), Some(expected_sha256)) => {
            if !result {
                return vector_error("exact result document witness presence is not class-exact");
            }
            let document = match encode_jcs_lf(&value_text_of(&vector.record)) {
                Some(d) => d,
                None => {
                    return vector_error("runtime result document cannot be canonicalized");
                },
            };
            if document.len() != expected_length || !chars_eq(
                &fingerprint_of_bytes(document.as_slice()),
                &chars_of(expected_sha256.as_str()),
            ) {
                return vector_error("runtime result exact JCS-plus-LF witness does not recompute");
            }
        },
        (None, None) => {
            if result {
                return vector_error("exact result document witness presence is not class-exact");
            }
        },
        _ => {
            return vector_error("exact result document witness presence is not class-exact");
        },
    }
    Ok(())
}


/// The first vector, from position `i` on, of the given record class.
pub open spec fn class_vector(vs: Seq<RecordVector>, class: Seq<char>, i: int) -> Option<RecordVector>
    decreases vs.len() - i,
{
    if i < 0 || i >= vs.len() {
        None
    } else if vs[i].record_class@ == class {
        Some(vs[i])
    } else {
        class_vector(vs, class, i + 1)
    }
}

/// The last path segment of a reference without its `.json` suffix, when it has one.
pub open spec fn ref_stem(r: Seq<char>) -> Option<Seq<char>> {
    let base = r.skip(last_index_of(r, '/') + 1);
    if has_suffix(base, ".json"@) {
        Some(base.take(base.len() - ".json"@.len()))
    } else {
        None
    }
}

/// The exact-document part of a cross-record binding: all four witnesses, agreeing between the
/// source record and the target vector, or none of them.
pub open spec fn document_binding_ok(b: CrossRecordBinding, source: RecordVector, target: RecordVector) -> bool {
    match (
        b.declared_document_sha256_field,
        b.expected_target_document_sha256,
        b.declared_byte_length_field,
        b.expected_target_byte_length,
    ) {
        (Some(df), Some(ed), Some(lf), Some(el)) => {
            &&& str_at(source.record, df@) == Some(ed@)
            &&& u64_at(source.record, lf@) == Some(el as nat)
            &&& target.expected_document_sha256 matches Some(t) && t@ == ed@
            &&& target.expected_document_byte_length == Some(el)
        },
        (None, None, None, None) => true,
        _ => false,
    }
}

/// A cross-record binding whose source and target classes have vectors, whose target identity
/// is the expected one and is what the source field references, by a `.json` path named after
/// the target ID, with agreeing declared fingerprint and document witnesses.
pub open spec fn cross_binding_ok(b: CrossRecordBinding, vs: Seq<RecordVector>) -> bool {
    match (class_vector(vs, b.source_record_class@, 0), class_vector(vs, b.target_record_class@, 0)) {
        (Some(source), Some(target)) => {
            &&& target.expected_id@ == b.expected_target_id@
            &&& target.expected_fingerprint@ == b.expected_target_fingerprint@
            &&& str_at(source.record, b.source_field@) == Some(b.expected_ref@)
            &&& ref_stem(b.expected_ref@) == Some(b.expected_target_id@)
            &&& match b.declared_fingerprint_field {
                Some(d) => str_at(source.record, d@) == Some(b.expected_target_fingerprint@),
                None => true,
            }
            &&& document_binding_ok(b, source, target)
            &&& match b.transitive_exact_document_authority {
                Some(d) => !is_blank(d@),
                None => true,
            }
        },
        _ => false,
    }
}

/// An outside-producer binding whose source class has a vector whose record references the
/// expected artifact, with a non-blank producer kind and a well-formed producer fingerprint
/// that a declared fingerprint field repeats.
pub open spec fn external_binding_ok(b: ExternalReferenceBinding, vs: Seq<RecordVector>) -> bool {
    match class_vector(vs, b.source_record_class@, 0) {
        Some(source) => {
            &&& !is_blank(b.producer_kind@)
            &&& str_at(source.record, b.source_field@) == Some(b.expected_ref@)
            &&& is_fingerprint(b.expected_producer_fingerprint@)
            &&& match b.declared_fingerprint_field {
                Some(d) => str_at(source.record, d@) == Some(b.expected_producer_fingerprint@),
                None => true,
            }
        },
        None => false,
    }
}

/// The fixture's identity and the shapes of its contract sections.
pub open spec fn fixture_identity_ok(f: RuntimeVectorFixture) -> bool {
    &&& f.schema_id@ == "hcm-2.2-runtime-record-fingerprint-vectors"@
    &&& f.schema_version@ == "1.0"@
    &&& f.normalization@ == "RFC8785-JCS-UTF8"@
    &&& !is_blank(f.id_rule@)
    &&& f.cross_record_contract is Object
    &&& f.external_reference_contract is Object
    &&& f.candidate_1_3_exact_result_contract is Object
    &&& f.historical_candidate_1_2_contract is Object
    &&& f.exact_result_negative_vectors is Array
    &&& f.candidate_1_3_amendment_chain_contract is Object
    &&& f.author_inventory_contract is Object
    &&& f.author_inventory_boundary_vectors is Array
}

/// Every vector is valid and schema-bound, and no two vectors share a record class.
pub open spec fn vectors_ok(vs: Seq<RecordVector>) -> bool {
    &&& forall|i: int| 0 <= i < vs.len() ==> vector_ok(#[trigger] vs[i]) && !is_blank(vs[i].schema_contract@)
    &&& forall|i: int, j: int|
        0 <= j < i < vs.len() ==> #[trigger] vs[j].record_class@ != #[trigger] vs[i].record_class@
}

/// A fixture that the check accepts.
pub open spec fn fixture_ok(f: RuntimeVectorFixture) -> bool {
    &&& fixture_identity_ok(f)
    &&& vectors_ok(f.vectors@)
    &&& forall|i: int| 0 <= i < f.cross_record_bindings@.len() ==> cross_binding_ok(
        #[trigger] f.cross_record_bindings@[i],
        f.vectors@,
    )
    &&& forall|i: int| 0 <= i < f.external_reference_bindings@.len() ==> external_binding_ok(
        #[trigger] f.external_reference_bindings@[i],
        f.vectors@,
    )
}

fn find_class(vs: &Vec<RecordVector>, class: &str) -> (r: Option<usize>)
    ensures
        r matches Some(i) ==> i < vs.len() && class_vector(vs@, class@, 0) == Some(vs@[i as int]),
        r is None ==> class_vector(vs@, class@, 0) is None,
{
    let mut i: usize = 0;
    while i < vs.len()
        invariant
            i <= vs.len(),
            class_vector(vs@, class@, 0) == class_vector(vs@, class@, i as int),
        decreases vs.len() - i,
    {
        if text_is(vs[i].record_class.as_str(), class) {
            return Some(i);
        }
        i = i + 1;
    }
    None
}

fn binding_error() -> (r: Result<(), RuntimeRecordVectorError>)
    ensures
        r is Err,
{
    Err(RuntimeRecordVectorError::new("cross-record binding disagrees"))
}

fn opt_str_field_is(v: &JsonValue, accessor: &Option<String>, expected: &str) -> (r: bool)
    ensures
        r == match accessor {
            Some(d) => str_at(*v, d@) == Some(expected@),
            None => true,
        },
{
    match accessor {
        Some(d) => str_field_is(v, d.as_str(), expected),
        None => true,
    }
}

fn reference_stem(reference: &str) -> (r: Option<Vec<char>>)
    ensures
        r matches Some(x) ==> ref_stem(reference@) == Some(x@),
        r is None ==> ref_stem(reference@) is None,
{
    let s = chars_of(reference);
    let start: usize = match last_index(&s, '/') {
        Some(i) => i + 1,
        None => 0,
    };
    let base = slice_chars(&s, start, s.len());
    assert(base@ =~= s@.skip(last_index_of(s@, '/') + 1));
    let suffix = chars_of(".json");
    if !ends_with(&base, &suffix) {
        return None;
    }
    let stem = slice_chars(&base, 0, base.len() - suffix.len());
    assert(stem@ =~= base@.take(base@.len() - suffix@.len()));
    Some(stem)
}

/// Checks one cross-record binding against the vectors.
#[verifier::rlimit(30)]
pub fn validate_cross_binding(binding: &CrossRecordBinding, vectors: &Vec<RecordVector>) -> (r: Result<
    (),
    RuntimeRecordVectorError,
>)
    ensures
        r is Ok <==> cross_binding_ok(*binding, vectors@),
{
    let source = match find_class(vectors, binding.source_record_class.as_str()) {
        Some(i) => &vectors[i],
        None => {
            return Err(RuntimeRecordVectorError::new("cross-record source class is missing"));
        },
    };
    let target = match find_class(vectors, binding.target_record_class.as_str()) {
        Some(i) => &vectors[i],
        None => {
            return Err(RuntimeRecordVectorError::new("cross-record target class is missing"));
        },
    };
    if !text_is(target.expected_id.as_str(), binding.expected_target_id.as_str()) || !text_is(
        target.expected_fingerprint.as_str(),
        binding.expected_target_fingerprint.as_str(),
    ) || !str_field_is(&source.record, binding.source_field.as_str(), binding.expected_ref.as_str()) {
        return binding_error();
    }
    match reference_stem(binding.expected_ref.as_str()) {
        Some(stem) => {
            if !chars_eq(&stem, &chars_of(binding.expected_target_id.as_str())) {
                return binding_error();
            }
        },
        None => {
            return binding_error();
        },
    }
    if !opt_str_field_is(
        &source.record,
        &binding.declared_fingerprint_field,
        binding.expected_target_fingerprint.as_str(),
    ) {
        return binding_error();
    }
    match (
        &binding.declared_document_sha256_field,
        &binding.expected_target_document_sha256,
        &binding.declared_byte_length_field,
        binding.expected_target_byte_length,
    ) {
        (Some(digest_field), Some(expected_digest), Some(length_field), Some(expected_length)) => {
            let target_digest_ok = match &target.expected_document_sha256 {
                Some(t) => text_is(t.as_str(), expected_digest.as_str()),
                None => false,
            };
            let length_ok = match u64_field(&source.record, length_field.as_str()) {
                Some(n) => n as usize == expected_length && n == expected_length as u64,
                None => false,
            };
            if !str_field_is(&source.record, digest_field.as_str(), expected_digest.as_str()) || !length_ok
                || !target_digest_ok || target.expected_document_byte_length != Some(expected_length) {
                return binding_error();
            }
        },
        (None, None, None, None) => {},
        _ => {
            return binding_error();
        },
    }
    match &binding.transitive_exact_document_authority {
        Some(d) => {
            if is_blank_text(d.as_str()) {
                return binding_error();
            }
        },
        None => {},
    }
    Ok(())
}

/// Checks one outside-producer binding against the vectors.
pub fn validate_external_binding(binding: &ExternalReferenceBinding, vectors: &Vec<RecordVector>) -> (r: Result<
    (),
    RuntimeRecordVectorError,
>)
    ensures
        r is Ok <==> external_binding_ok(*binding, vectors@),
{
    let source = match find_class(vectors, binding.source_record_class.as_str()) {
        Some(i) => &vectors[i],
        None => {
            return Err(RuntimeRecordVectorError::new("external binding source class is missing"));
        },
    };
    if is_blank_text(binding.producer_kind.as_str()) || !str_field_is(
        &source.record,
        binding.source_field.as_str(),
        binding.expected_ref.as_str(),
    ) || !is_fingerprint_chars(&chars_of(binding.expected_producer_fingerprint.as_str())) {
        return Err(RuntimeRecordVectorError::new("external producer binding identity disagrees"));
    }
    if !opt_str_field_is(
        &source.record,
        &binding.declared_fingerprint_field,
        binding.expected_producer_fingerprint.as_str(),
    ) {
        return Err(RuntimeRecordVectorError::new("external producer declared fingerprint disagrees"));
    }
    Ok(())
}

fn is_object(v: &JsonValue) -> (r: bool)
    ensures
        r == (*v is Object),
{
    match v {
        JsonValue::Object(_) => true,
        _ => false,
    }
}

fn is_array(v: &JsonValue) -> (r: bool)
    ensures
        r == (*v is Array),
{
    match v {
        JsonValue::Array(_) => true,
        _ => false,
    }
}

/// Checks a runtime record fingerprint vector fixture: its identity and contract sections,
/// every vector, and every cross-record and outside-producer binding.
#[verifier::rlimit(30)]
pub fn validate_runtime_record_fingerprint_vectors(fixture: &RuntimeVectorFixture) -> (r: Result<
    RuntimeRecordVectorReport,
    RuntimeRecordVectorError,
>)
    ensures
        r is Ok <==> fixture_ok(*fixture),
        r matches Ok(report) ==> report.vector_count == fixture.vectors@.len()
            && report.cross_record_binding_count == fixture.cross_record_bindings@.len()
            && report.external_reference_binding_count == fixture.external_reference_bindings@.len(),
{
    if !text_is(fixture.schema_id.as_str(), "hcm-2.2-runtime-record-fingerprint-vectors") || !text_is(
        fixture.schema_version.as_str(),
        "1.0",
    ) || !text_is(fixture.normalization.as_str(), "RFC8785-JCS-UTF8") || is_blank_text(
        fixture.id_rule.as_str(),
    ) || !is_object(&fixture.cross_record_contract) || !is_object(&fixture.external_reference_contract)
        || !is_object(&fixture.candidate_1_3_exact_result_contract) || !is_object(
        &fixture.historical_candidate_1_2_contract,
    ) || !is_array(&fixture.exact_result_negative_vectors) || !is_object(
        &fixture.candidate_1_3_amendment_chain_contract,
    ) || !is_object(&fixture.author_inventory_contract) || !is_array(
        &fixture.author_inventory_boundary_vectors,
    ) {
        return Err(
            RuntimeRecordVectorError::new("runtime vector fixture identity or contract metadata is invalid"),
        );
    }
    let vs = &fixture.vectors;
    let mut i: usize = 0;
    while i < vs.len()
        invariant
            i <= vs.len(),
            vs@ == fixture.vectors@,
            forall|k: int| 0 <= k < i ==> vector_ok(#[trigger] vs@[k]) && !is_blank(vs@[k].schema_contract@),
            forall|k: int, j: int| 0 <= j < k < i ==> #[trigger] vs@[j].record_class@ != #[trigger] vs@[k].record_class@,
        decreases vs.len() - i,
    {
        match validate_vector(&vs[i]) {
            Ok(()) => {},
            Err(e) => {
                return Err(e);
            },
        }
        if is_blank_text(vs[i].schema_contract.as_str()) {
            return Err(RuntimeRecordVectorError::new("runtime vector classes must be unique and schema-bound"));
        }
        let mut j: usize = 0;
        while j < i
            invariant
                j <= i < vs.len(),
                vs@ == fixture.vectors@,
                forall|l: int| 0 <= l < j ==> vs@[l].record_class@ != vs@[i as int].record_class@,
            decreases i - j,
        {
            if text_is(vs[j].record_class.as_str(), vs[i].record_class.as_str()) {
                assert(vs@[j as int].record_class@ == vs@[i as int].record_class@);
                return Err(
                    RuntimeRecordVectorError::new("runtime vector classes must be unique and schema-bound"),
                );
            }
            j = j + 1;
        }
        i = i + 1;
    }
    let cross = &fixture.cross_record_bindings;
    let mut c: usize = 0;
    while c < cross.len()
        invariant
            c <= cross.len(),
            cross@ == fixture.cross_record_bindings@,
            vs@ == fixture.vectors@,
            forall|k: int| 0 <= k < c ==> cross_binding_ok(#[trigger] cross@[k], vs@),
        decreases cross.len() - c,
    {
        match validate_cross_binding(&cross[c], vs) {
            Ok(()) => {},
            Err(e) => {
                return Err(e);
            },
        }
        c = c + 1;
    }
    let external = &fixture.external_reference_bindings;
    let mut x: usize = 0;
    while x < external.len()
        invariant
            x <= external.len(),
            external@ == fixture.external_reference_bindings@,
            vs@ == fixture.vectors@,
            forall|k: int| 0 <= k < x ==> external_binding_ok(#[trigger] external@[k], vs@),
        decreases external.len() - x,
    {
        match validate_external_binding(&external[x], vs) {
            Ok(()) => {},
            Err(e) => {
                return Err(e);
            },
        }
        x = x + 1;
    }
    Ok(
        RuntimeRecordVectorReport {
            vector_count: vs.len(),
            cross_record_binding_count: cross.len(),
            external_reference_binding_count: external.len(),
        },
    )
}

} // verus!
