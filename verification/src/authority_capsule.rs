use vstd::prelude::*;
use vstd::utf8::encode_utf8;
use crate::charter_intake::{escape_pointer, pointer_escaped};
use crate::charter_runtime_vectors::{first_member, JsonMember, JsonValue};
use crate::json::{decimal_of, decimal_text};
use crate::text::{chars_eq, chars_of};

verus! {

/// The most bytes that the escapes of an authority capsule's declaration and payload may
/// decode to together.
pub const MAX_ESCAPE_EXPANSION_BYTES: usize = 16384;

/// The bound on an ordinary string, and on a member name, of authority JSON, in UTF-8 bytes.
pub const MAX_ORDINARY_STRING_BYTES: usize = 8192;

/// The most object members that authority JSON may hold in all.
pub const MAX_MEMBER_COUNT: usize = 192;

/// The deepest nesting of objects and arrays that authority JSON may have.
pub const MAX_JSON_DEPTH: usize = 12;

// ---------------------------------------------------------------------------
// Escape accounting
// ---------------------------------------------------------------------------

/// An ASCII hexadecimal digit, of either case.
pub open spec fn is_hex_byte(b: u8) -> bool {
    (48 <= b && b <= 57) || (97 <= b && b <= 102) || (65 <= b && b <= 70)
}

/// The value of a hexadecimal digit.
pub open spec fn hex_byte_value(b: u8) -> nat {
    if b <= 57 {
        (b - 48) as nat
    } else if b >= 97 {
        (b - 87) as nat
    } else {
        (b - 55) as nat
    }
}

/// The value of `n` hexadecimal digits ending before position `end`.
pub open spec fn hex_digits_value(b: Seq<u8>, end: int, n: nat) -> nat
    decreases n,
{
    if n == 0 {
        0
    } else {
        hex_digits_value(b, end - 1, (n - 1) as nat) * 16 + hex_byte_value(b[end - 1])
    }
}

/// The four bytes at `i` read as `u16::from_str_radix(_, 16)` reads them: four hexadecimal
/// digits, or a `+` and three.
pub open spec fn hex4(b: Seq<u8>, i: int) -> Option<nat> {
    if 0 <= i && i + 4 <= b.len() {
        if b[i] == 43u8 {
            if is_hex_byte(b[i + 1]) && is_hex_byte(b[i + 2]) && is_hex_byte(b[i + 3]) {
                Some(hex_digits_value(b, i + 4, 3))
            } else {
                None
            }
        } else if is_hex_byte(b[i]) && is_hex_byte(b[i + 1]) && is_hex_byte(b[i + 2]) && is_hex_byte(
            b[i + 3],
        ) {
            Some(hex_digits_value(b, i + 4, 4))
        } else {
            None
        }
    } else {
        None
    }
}

/// The length of the UTF-8 encoding of a scalar value.
pub open spec fn utf8_width(scalar: nat) -> nat {
    if scalar < 0x80 {
        1
    } else if scalar < 0x800 {
        2
    } else if scalar < 0x10000 {
        3
    } else {
        4
    }
}

/// The escape markers that stand for one byte: `"`, `\`, `/`, `b`, `f`, `n`, `r`, `t`.
pub open spec fn is_short_escape(m: u8) -> bool {
    m == 34u8 || m == 92u8 || m == 47u8 || m == 98u8 || m == 102u8 || m == 110u8 || m == 114u8 || m == 116u8
}

/// `k` more than a count, when there is one.
pub open spec fn plus(k: nat, rest: Option<nat>) -> Option<nat> {
    match rest {
        Some(t) => Some(k + t),
        None => None,
    }
}

/// The bytes that the JSON escapes from position `i` on decode to, in UTF-8: one for each
/// short escape, the width of the scalar for each `\u` escape, and four for each surrogate
/// pair; nothing where an escape is truncated, unknown, invalid or an unpaired surrogate.
pub open spec fn escapes_from(b: Seq<u8>, i: int) -> Option<nat>
    decreases b.len() - i,
{
    if i < 0 || i >= b.len() {
        Some(0)
    } else if b[i] != 92u8 {
        escapes_from(b, i + 1)
    } else if i + 1 >= b.len() {
        None
    } else if is_short_escape(b[i + 1]) {
        plus(1, escapes_from(b, i + 2))
    } else if b[i + 1] == 117u8 {
        match hex4(b, i + 2) {
            None => None,
            Some(first) => if 0xd800 <= first && first <= 0xdbff {
                if !(i + 8 <= b.len() && b[i + 6] == 92u8 && b[i + 7] == 117u8) {
                    None
                } else {
                    match hex4(b, i + 8) {
                        Some(second) => if 0xdc00 <= second && second <= 0xdfff {
                            plus(4, escapes_from(b, i + 12))
                        } else {
                            None
                        },
                        None => None,
                    }
                }
            } else if 0xdc00 <= first && first <= 0xdfff {
                None
            } else {
                plus(utf8_width(first), escapes_from(b, i + 6))
            },
        }
    } else {
        None
    }
}

fn hex_byte(b: u8) -> (r: Option<u32>)
    ensures
        r matches Some(v) ==> is_hex_byte(b) && v == hex_byte_value(b),
        r is None ==> !is_hex_byte(b),
{
    if 48 <= b && b <= 57 {
        Some((b - 48) as u32)
    } else if 97 <= b && b <= 102 {
        Some((b - 87) as u32)
    } else if 65 <= b && b <= 70 {
        Some((b - 55) as u32)
    } else {
        None
    }
}

fn hex4_at(b: &[u8], i: usize) -> (r: Option<u32>)
    requires
        i + 4 <= b.len(),
    ensures
        r matches Some(v) ==> hex4(b@, i as int) == Some(v as nat) && v <= 0xffff,
        r is None ==> hex4(b@, i as int) is None,
{
    let plus_sign = b[i] == 43u8;
    let start: usize = if plus_sign {
        i + 1
    } else {
        i
    };
    let mut value: u32 = 0;
    let mut k: usize = start;
    while k < i + 4
        invariant
            start <= k <= i + 4 <= b.len(),
            start == if plus_sign {
                i + 1
            } else {
                i as int
            },
            plus_sign == (b@[i as int] == 43u8),
            forall|j: int| start <= j < k ==> is_hex_byte(#[trigger] b@[j]),
            value == hex_digits_value(b@, k as int, (k - start) as nat),
            value < pow16((k - start) as nat),
        decreases i + 4 - k,
    {
        match hex_byte(b[k]) {
            Some(d) => {
                assert(pow16((k + 1 - start) as nat) == pow16((k - start) as nat) * 16);
                assert(pow16((k - start) as nat) <= 65536) by {
                    lemma_pow16_bound((k - start) as nat);
                }
                value = value * 16 + d;
            },
            None => {
                return None;
            },
        }
        k = k + 1;
    }
    proof {
        lemma_pow16_bound((k - start) as nat);
    }
    Some(value)
}

/// Sixteen to the power `n`.
pub open spec fn pow16(n: nat) -> nat
    decreases n,
{
    if n == 0 {
        1
    } else {
        pow16((n - 1) as nat) * 16
    }
}

proof fn lemma_pow16_bound(n: nat)
    requires
        n <= 4,
    ensures
        pow16(n) <= 65536,
{
    reveal_with_fuel(pow16, 5);
}

/// The bytes that the escapes of a JSON text decode to, in UTF-8.
pub fn escaped_output_bytes(bytes: &[u8]) -> (r: Result<usize, String>)
    ensures
        match escapes_from(bytes@, 0) {
            Some(t) => r matches Ok(n) && n == t,
            None => r is Err,
        },
{
    let mut total: usize = 0;
    let mut index: usize = 0;
    while index < bytes.len()
        invariant
            index <= bytes.len(),
            total <= index,
            escapes_from(bytes@, 0) == plus(total as nat, escapes_from(bytes@, index as int)),
        decreases bytes.len() - index,
    {
        if bytes[index] != 92u8 {
            index = index + 1;
            continue;
        }
        if index + 1 >= bytes.len() {
            return Err("truncated JSON escape".to_owned());
        }
        let marker = bytes[index + 1];
        if marker == 34u8 || marker == 92u8 || marker == 47u8 || marker == 98u8 || marker == 102u8 || marker
            == 110u8 || marker == 114u8 || marker == 116u8 {
            total = total + 1;
            index = index + 2;
        } else if marker == 117u8 {
            if bytes.len() - index < 6 {
                return Err("truncated unicode escape".to_owned());
            }
            let first = match hex4_at(bytes, index + 2) {
                Some(v) => v,
                None => {
                    return Err("invalid unicode escape".to_owned());
                },
            };
            if 0xd800 <= first && first <= 0xdbff {
                if bytes.len() - index < 8 || bytes[index + 6] != 92u8 || bytes[index + 7] != 117u8 {
                    return Err("unpaired high surrogate".to_owned());
                }
                if bytes.len() - index < 12 {
                    return Err("truncated surrogate pair".to_owned());
                }
                match hex4_at(bytes, index + 8) {
                    Some(second) => {
                        if !(0xdc00 <= second && second <= 0xdfff) {
                            return Err("invalid low surrogate".to_owned());
                        }
                    },
                    None => {
                        return Err("invalid low surrogate".to_owned());
                    },
                }
                total = total + 4;
                index = index + 12;
            } else if 0xdc00 <= first && first <= 0xdfff {
                return Err("unpaired low surrogate".to_owned());
            } else {
                let width: usize = if first < 0x80 {
                    1
                } else if first < 0x800 {
                    2
                } else {
                    3
                };
                total = total + width;
                index = index + 6;
            }
        } else {
            return Err("unknown JSON escape".to_owned());
        }
    }
    Ok(total)
}


// ---------------------------------------------------------------------------
// Size limits of authority JSON
// ---------------------------------------------------------------------------

/// A value that opens a level of nesting.
pub open spec fn nests(v: JsonValue) -> bool {
    v is Object || v is Array
}

/// The depth of a child of a value at `depth`: one more for an object or array.
pub open spec fn child_depth(depth: nat, child: JsonValue) -> nat {
    depth + if nests(child) {
        1nat
    } else {
        0nat
    }
}

/// The check of authority JSON against its limits, from a value at `depth` under JSON pointer
/// `pointer`, with `count` members counted before it: the depth bound, the running member
/// bound, the bound on member names, and the bound on every string but the one at the exempt
/// pointer. Gives the member count after the value, or nothing where a limit is broken.
pub open spec fn limits(
    v: JsonValue,
    depth: nat,
    count: nat,
    exempt: Option<Seq<char>>,
    pointer: Seq<char>,
) -> Option<nat>
    decreases v, 0nat,
{
    if depth > MAX_JSON_DEPTH {
        None
    } else {
        match v {
            JsonValue::Object(members) => {
                let c = count + members@.len();
                if c > MAX_MEMBER_COUNT {
                    None
                } else {
                    members_limits(members@, members@.len(), depth, c, exempt, pointer)
                }
            },
            JsonValue::Array(items) => items_limits(items@, items@.len(), depth, count, exempt, pointer),
            JsonValue::Str(s) => if exempt != Some(pointer) && encode_utf8(s@).len() > MAX_ORDINARY_STRING_BYTES {
                None
            } else {
                Some(count)
            },
            _ => Some(count),
        }
    }
}

/// The limits over the first `n` members of an object at `depth`, in order.
pub open spec fn members_limits(
    members: Seq<JsonMember>,
    n: nat,
    depth: nat,
    count: nat,
    exempt: Option<Seq<char>>,
    pointer: Seq<char>,
) -> Option<nat>
    decreases members, n,
{
    if n == 0 || n > members.len() {
        Some(count)
    } else {
        match members_limits(members, (n - 1) as nat, depth, count, exempt, pointer) {
            Some(c) => {
                let m = members[n - 1];
                if encode_utf8(m.key@).len() > MAX_ORDINARY_STRING_BYTES {
                    None
                } else {
                    limits(m.value, child_depth(depth, m.value), c, exempt, pointer + seq!['/'] + pointer_escaped(m.key@))
                }
            },
            None => None,
        }
    }
}

/// The limits over the first `n` items of an array at `depth`, in order.
pub open spec fn items_limits(
    items: Seq<JsonValue>,
    n: nat,
    depth: nat,
    count: nat,
    exempt: Option<Seq<char>>,
    pointer: Seq<char>,
) -> Option<nat>
    decreases items, n,
{
    if n == 0 || n > items.len() {
        Some(count)
    } else {
        match items_limits(items, (n - 1) as nat, depth, count, exempt, pointer) {
            Some(c) => limits(items[n - 1], child_depth(depth, items[n - 1]), c, exempt, pointer + seq!['/'] + decimal_of((n - 1) as nat)),
            None => None,
        }
    }
}

/// An optional text as its view.
pub open spec fn opt_view(o: Option<&str>) -> Option<Seq<char>> {
    match o {
        Some(s) => Some(s@),
        None => None,
    }
}

fn push_all(out: &mut Vec<char>, more: &Vec<char>)
    ensures
        final(out)@ == old(out)@ + more@,
{
    let mut i: usize = 0;
    let ghost start = out@;
    while i < more.len()
        invariant
            i <= more.len(),
            out@ == start + more@.take(i as int),
        decreases more.len() - i,
    {
        out.push(more[i]);
        assert(more@.take(i + 1) =~= more@.take(i as int).push(more@[i as int]));
        i = i + 1;
    }
    assert(more@.take(more@.len() as int) =~= more@);
}

fn nests_value(v: &JsonValue) -> (r: bool)
    ensures
        r == nests(*v),
{
    match v {
        JsonValue::Object(_) => true,
        JsonValue::Array(_) => true,
        _ => false,
    }
}

/// Checks authority JSON against its size limits, counting its members into `member_count`.
pub fn json_limits(
    value: &JsonValue,
    depth: usize,
    member_count: &mut usize,
    exempt_string_pointer: Option<&str>,
    pointer: &Vec<char>,
) -> (r: Result<(), String>)
    ensures
        match limits(*value, depth as nat, *old(member_count) as nat, opt_view(exempt_string_pointer), pointer@) {
            Some(c) => r is Ok && *final(member_count) == c,
            None => r is Err,
        },
    decreases value, 0nat,
{
    if depth > MAX_JSON_DEPTH {
        return Err("authority JSON exceeds maximum depth".to_owned());
    }
    match value {
        JsonValue::Object(members) => {
            if members.len() > MAX_MEMBER_COUNT || *member_count > MAX_MEMBER_COUNT - members.len() {
                return Err("authority JSON exceeds aggregate member count".to_owned());
            }
            *member_count = *member_count + members.len();
            members_limits_of(members, members.len(), depth, member_count, exempt_string_pointer, pointer)
        },
        JsonValue::Array(items) => items_limits_of(
            items,
            items.len(),
            depth,
            member_count,
            exempt_string_pointer,
            pointer,
        ),
        JsonValue::Str(s) => {
            let exempt = match exempt_string_pointer {
                Some(e) => chars_eq(&chars_of(e), pointer),
                None => false,
            };
            if !exempt && s.as_str().as_bytes().len() > MAX_ORDINARY_STRING_BYTES {
                return Err("authority ordinary string exceeds bound".to_owned());
            }
            Ok(())
        },
        _ => Ok(()),
    }
}

fn members_limits_of(
    members: &Vec<JsonMember>,
    n: usize,
    depth: usize,
    member_count: &mut usize,
    exempt_string_pointer: Option<&str>,
    pointer: &Vec<char>,
) -> (r: Result<(), String>)
    requires
        n <= members.len(),
        depth <= MAX_JSON_DEPTH,
    ensures
        match members_limits(
            members@,
            n as nat,
            depth as nat,
            *old(member_count) as nat,
            opt_view(exempt_string_pointer),
            pointer@,
        ) {
            Some(c) => r is Ok && *final(member_count) == c,
            None => r is Err,
        },
    decreases members@, n,
{
    if n == 0 {
        return Ok(());
    }
    match members_limits_of(members, n - 1, depth, member_count, exempt_string_pointer, pointer) {
        Ok(()) => {},
        Err(e) => {
            return Err(e);
        },
    }
    let member = &members[n - 1];
    if member.key.as_str().as_bytes().len() > MAX_ORDINARY_STRING_BYTES {
        return Err("authority member name exceeds string bound".to_owned());
    }
    let mut child_pointer: Vec<char> = Vec::new();
    push_all(&mut child_pointer, pointer);
    child_pointer.push('/');
    push_all(&mut child_pointer, &chars_of(escape_pointer(member.key.as_str()).as_str()));
    let next_depth: usize = if nests_value(&member.value) {
        depth + 1
    } else {
        depth
    };
    assert(child_pointer@ =~= pointer@ + seq!['/'] + pointer_escaped(members@[n - 1].key@));
    assert(next_depth as nat == child_depth(depth as nat, members@[n - 1].value));
    json_limits(&member.value, next_depth, member_count, exempt_string_pointer, &child_pointer)
}

fn items_limits_of(
    items: &Vec<JsonValue>,
    n: usize,
    depth: usize,
    member_count: &mut usize,
    exempt_string_pointer: Option<&str>,
    pointer: &Vec<char>,
) -> (r: Result<(), String>)
    requires
        n <= items.len(),
        depth <= MAX_JSON_DEPTH,
    ensures
        match items_limits(
            items@,
            n as nat,
            depth as nat,
            *old(member_count) as nat,
            opt_view(exempt_string_pointer),
            pointer@,
        ) {
            Some(c) => r is Ok && *final(member_count) == c,
            None => r is Err,
        },
    decreases items@, n,
{
    if n == 0 {
        return Ok(());
    }
    match items_limits_of(items, n - 1, depth, member_count, exempt_string_pointer, pointer) {
        Ok(()) => {},
        Err(e) => {
            return Err(e);
        },
    }
    let item = &items[n - 1];
    let mut child_pointer: Vec<char> = Vec::new();
    push_all(&mut child_pointer, pointer);
    child_pointer.push('/');
    push_all(&mut child_pointer, &decimal_text((n - 1) as u64));
    let next_depth: usize = if nests_value(item) {
        depth + 1
    } else {
        depth
    };
    assert(child_pointer@ =~= pointer@ + seq!['/'] + decimal_of((n - 1) as nat));
    assert(next_depth as nat == child_depth(depth as nat, items@[n - 1]));
    json_limits(item, next_depth, member_count, exempt_string_pointer, &child_pointer)
}

// ---------------------------------------------------------------------------
// Shape of authority JSON
// ---------------------------------------------------------------------------

/// The semantic leaves of a value: an empty object or array, and every scalar, counts one; a
/// non-empty object or array counts the leaves of its children.
pub open spec fn leaf_count(v: JsonValue) -> nat
    decreases v, 0nat,
{
    match v {
        JsonValue::Object(members) => if members@.len() > 0 {
            members_leaves(members@, members@.len())
        } else {
            1
        },
        JsonValue::Array(items) => if items@.len() > 0 {
            items_leaves(items@, items@.len())
        } else {
            1
        },
        _ => 1,
    }
}

/// The leaves under the first `n` members.
pub open spec fn members_leaves(members: Seq<JsonMember>, n: nat) -> nat
    decreases members, n,
{
    if n == 0 || n > members.len() {
        0
    } else {
        members_leaves(members, (n - 1) as nat) + leaf_count(members[n - 1].value)
    }
}

/// The leaves under the first `n` items.
pub open spec fn items_leaves(items: Seq<JsonValue>, n: nat) -> nat
    decreases items, n,
{
    if n == 0 || n > items.len() {
        0
    } else {
        items_leaves(items, (n - 1) as nat) + leaf_count(items[n - 1])
    }
}

/// Counts the semantic leaves of a value.
pub fn semantic_leaf_count(value: &JsonValue) -> (r: usize)
    requires
        leaf_count(*value) <= usize::MAX,
    ensures
        r == leaf_count(*value),
    decreases value, 0nat,
{
    match value {
        JsonValue::Object(members) => if members.len() > 0 {
            members_leaf_count(members, members.len())
        } else {
            1
        },
        JsonValue::Array(items) => if items.len() > 0 {
            items_leaf_count(items, items.len())
        } else {
            1
        },
        _ => 1,
    }
}

fn members_leaf_count(members: &Vec<JsonMember>, n: usize) -> (r: usize)
    requires
        n <= members.len(),
        members_leaves(members@, n as nat) <= usize::MAX,
    ensures
        r == members_leaves(members@, n as nat),
    decreases members@, n,
{
    if n == 0 {
        0
    } else {
        let before = members_leaf_count(members, n - 1);
        let last = semantic_leaf_count(&members[n - 1].value);
        before + last
    }
}

fn items_leaf_count(items: &Vec<JsonValue>, n: usize) -> (r: usize)
    requires
        n <= items.len(),
        items_leaves(items@, n as nat) <= usize::MAX,
    ensures
        r == items_leaves(items@, n as nat),
    decreases items@, n,
{
    if n == 0 {
        0
    } else {
        let before = items_leaf_count(items, n - 1);
        let last = semantic_leaf_count(&items[n - 1]);
        before + last
    }
}

/// An object with exactly the given member names: as many members as names, and every name
/// among them.
pub open spec fn exact_object_spec(v: JsonValue, expected: Seq<Seq<char>>) -> bool {
    match v {
        JsonValue::Object(members) => members@.len() == expected.len() && forall|i: int|
            0 <= i < expected.len() ==> first_member(members@, #[trigger] expected[i], 0) is Some,
        _ => false,
    }
}

/// Whether a value is an object with exactly the given member names.
pub fn exact_object(value: &JsonValue, expected: &Vec<&str>) -> (r: bool)
    ensures
        r == exact_object_spec(*value, expected@.map_values(|s: &str| s@)),
{
    let ghost names = expected@.map_values(|s: &str| s@);
    match value {
        JsonValue::Object(members) => {
            if members.len() != expected.len() {
                return false;
            }
            let mut i: usize = 0;
            while i < expected.len()
                invariant
                    i <= expected.len(),
                    names == expected@.map_values(|s: &str| s@),
                    *value == JsonValue::Object(*members),
                    forall|k: int| 0 <= k < i ==> first_member(members@, #[trigger] names[k], 0) is Some,
                decreases expected.len() - i,
            {
                let key = chars_of(expected[i]);
                assert(names[i as int] == key@);
                match crate::charter_runtime_vectors::member_of(value, &key) {
                    Some(_) => {},
                    None => {
                        return false;
                    },
                }
                assert(names[i as int] == key@);
                i = i + 1;
            }
            true
        },
        _ => false,
    }
}

} // verus!
