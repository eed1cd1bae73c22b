use vstd::prelude::*;
use vstd::utf8::encode_utf8;
use crate::digest::{content_fingerprint, fingerprint_of_bytes, hex_digit, is_fingerprint};
use crate::text::{chars_of, string_of, views};

verus! {

/// The JSON escape of one character: quote, backslash and control characters are escaped.
pub open spec fn json_escape_char(c: char) -> Seq<char> {
    if c == '"' {
        seq!['\\', '"']
    } else if c == '\\' {
        seq!['\\', '\\']
    } else if (c as u32) < 32 {
        seq!['\\', 'u', '0', '0', hex_digit(((c as u32) / 16) as u8), hex_digit(((c as u32) % 16) as u8)]
    } else {
        seq![c]
    }
}

/// The JSON escape of a text, character by character.
pub open spec fn json_escaped(s: Seq<char>) -> Seq<char>
    decreases s.len(),
{
    if s.len() == 0 {
        Seq::empty()
    } else {
        json_escaped(s.drop_last()) + json_escape_char(s.last())
    }
}

/// A JSON string literal.
pub open spec fn json_string(s: Seq<char>) -> Seq<char> {
    seq!['"'] + json_escaped(s) + seq!['"']
}

/// The decimal digit of a value below ten.
pub open spec fn decimal_digit(n: nat) -> char {
    (48 + n) as char
}

/// The decimal text of a natural number, without leading zeros.
pub open spec fn decimal_of(n: nat) -> Seq<char>
    decreases n,
{
    if n < 10 {
        seq![decimal_digit(n)]
    } else {
        decimal_of(n / 10).push(decimal_digit(n % 10))
    }
}

/// Items separated by commas.
pub open spec fn json_join(items: Seq<Seq<char>>) -> Seq<char>
    decreases items.len(),
{
    if items.len() == 0 {
        Seq::empty()
    } else if items.len() == 1 {
        items[0]
    } else {
        json_join(items.drop_last()) + seq![','] + items.last()
    }
}

/// A JSON array of already encoded items.
pub open spec fn json_array(items: Seq<Seq<char>>) -> Seq<char> {
    seq!['['] + json_join(items) + seq![']']
}

/// One member of a JSON object.
pub open spec fn json_member(key: Seq<char>, value: Seq<char>) -> Seq<char> {
    json_string(key) + seq![':'] + value
}

/// A JSON object of already encoded members.
pub open spec fn json_object(members: Seq<Seq<char>>) -> Seq<char> {
    seq!['{'] + json_join(members) + seq!['}']
}

/// The JSON `null`.
pub open spec fn json_null() -> Seq<char> {
    seq!['n', 'u', 'l', 'l']
}

/// A JSON array of strings.
pub open spec fn json_string_array(items: Seq<Seq<char>>) -> Seq<char> {
    json_array(items.map_values(|s: Seq<char>| json_string(s)))
}

/// A JSON string, or `null` when absent.
pub open spec fn json_opt_string(v: Option<Seq<char>>) -> Seq<char> {
    match v {
        Some(s) => json_string(s),
        None => json_null(),
    }
}

/// A JSON number, or `null` when absent.
pub open spec fn json_opt_number(v: Option<nat>) -> Seq<char> {
    match v {
        Some(n) => decimal_of(n),
        None => json_null(),
    }
}

/// The RFC 8785 canonical form of a JSON text, as `serde_json_canonicalizer::pipe` gives it;
/// `None` where the text is not JSON that it accepts.
pub uninterp spec fn jcs_of(json: Seq<char>) -> Option<Seq<char>>;

/// `serde_json_canonicalizer::pipe`: parses a JSON text and writes it in RFC 8785 canonical
/// form. Its result depends on the text alone and is named, not restated; an error is
/// reported as `None`.
#[verifier::external_body]
fn jcs_pipe(json: &str) -> (r: Option<String>)
    ensures
        r matches Some(c) ==> jcs_of(json@) == Some(c@),
        r is None ==> jcs_of(json@) is None,
{
    serde_json_canonicalizer::pipe(json).ok()
}

/// The canonical bytes of a JSON text: the UTF-8 of its canonical form.
pub open spec fn jcs_bytes(json: Seq<char>) -> Option<Seq<u8>> {
    match jcs_of(json) {
        Some(c) => Some(encode_utf8(c)),
        None => None,
    }
}

/// The fingerprint of a JSON value: the content fingerprint of its canonical bytes.
pub open spec fn json_fingerprint(json: Seq<char>) -> Option<Seq<char>> {
    match jcs_bytes(json) {
        Some(b) => Some(content_fingerprint(b)),
        None => None,
    }
}

/// The bytes of a record file: the canonical bytes of its JSON and one line feed.
pub open spec fn jcs_lf_bytes(json: Seq<char>) -> Option<Seq<u8>> {
    match jcs_bytes(json) {
        Some(b) => Some(b.push(10u8)),
        None => None,
    }
}

fn json_escape_into(out: &mut Vec<char>, c: char)
    ensures
        final(out)@ == old(out)@ + json_escape_char(c),
{
    if c == '"' {
        out.push('\\');
        out.push('"');
        assert(final(out)@ =~= old(out)@ + json_escape_char(c));
    } else if c == '\\' {
        out.push('\\');
        out.push('\\');
        assert(final(out)@ =~= old(out)@ + json_escape_char(c));
    } else if (c as u32) < 32 {
        let n: u32 = c as u32;
        let hi: u8 = (n / 16) as u8;
        let lo: u8 = (n % 16) as u8;
        out.push('\\');
        out.push('u');
        out.push('0');
        out.push('0');
        out.push(if hi < 10 { (48 + hi) as char } else { (87 + hi) as char });
        out.push(if lo < 10 { (48 + lo) as char } else { (87 + lo) as char });
        assert(final(out)@ =~= old(out)@ + json_escape_char(c));
    } else {
        out.push(c);
        assert(final(out)@ =~= old(out)@ + json_escape_char(c));
    }
}

/// A JSON string literal for the given characters.
pub fn json_string_text(s: &Vec<char>) -> (r: Vec<char>)
    ensures
        r@ == json_string(s@),
{
    let mut out: Vec<char> = Vec::new();
    out.push('"');
    let mut i: usize = 0;
    assert(s@.take(0) =~= Seq::<char>::empty());
    while i < s.len()
        invariant
            i <= s.len(),
            out@ == seq!['"'] + json_escaped(s@.take(i as int)),
        decreases s.len() - i,
    {
        json_escape_into(&mut out, s[i]);
        assert(s@.take(i + 1).drop_last() =~= s@.take(i as int));
        assert(out@ =~= seq!['"'] + json_escaped(s@.take(i + 1)));
        i = i + 1;
    }
    assert(s@.take(s@.len() as int) =~= s@);
    out.push('"');
    out
}

/// A JSON string literal for a string.
pub fn json_str(s: &str) -> (r: Vec<char>)
    ensures
        r@ == json_string(s@),
{
    json_string_text(&chars_of(s))
}

/// The decimal text of a number.
pub fn decimal_text(n: u64) -> (r: Vec<char>)
    ensures
        r@ == decimal_of(n as nat),
    decreases n,
{
    let d: u64 = n % 10;
    let c: char = (48 + (d as u8)) as char;
    if n < 10 {
        let mut out: Vec<char> = Vec::new();
        out.push(c);
        assert(out@ =~= decimal_of(n as nat));
        out
    } else {
        let mut out = decimal_text(n / 10);
        out.push(c);
        out
    }
}

/// The JSON `null`.
pub fn null_text() -> (r: Vec<char>)
    ensures
        r@ == json_null(),
{
    let mut out: Vec<char> = Vec::new();
    out.push('n');
    out.push('u');
    out.push('l');
    out.push('l');
    assert(out@ =~= json_null());
    out
}

/// Encoded items joined by commas.
pub fn join_text(items: &Vec<Vec<char>>) -> (r: Vec<char>)
    ensures
        r@ == json_join(views(items@)),
{
    let mut out: Vec<char> = Vec::new();
    let mut i: usize = 0;
    assert(views(items@.take(0)) =~= Seq::<Seq<char>>::empty());
    while i < items.len()
        invariant
            i <= items.len(),
            out@ == json_join(views(items@.take(i as int))),
        decreases items.len() - i,
    {
        let ghost before = out@;
        if i > 0 {
            out.push(',');
        }
        let mut item = copy_text(&items[i]);
        out.append(&mut item);
        assert(views(items@.take(i + 1)).drop_last() =~= views(items@.take(i as int)));
        assert(views(items@.take(i + 1)).last() == items@[i as int]@);
        if i == 0 {
            assert(views(items@.take(1))[0] == items@[0]@);
            assert(out@ =~= json_join(views(items@.take(i + 1))));
        } else {
            assert(out@ =~= json_join(views(items@.take(i + 1))));
        }
        i = i + 1;
    }
    assert(items@.take(items@.len() as int) =~= items@);
    out
}

/// A copy of a character vector.
pub fn copy_text(v: &Vec<char>) -> (r: Vec<char>)
    ensures
        r@ == v@,
{
    let mut out: Vec<char> = Vec::new();
    let mut i: usize = 0;
    while i < v.len()
        invariant
            i <= v.len(),
            out@ == v@.take(i as int),
        decreases v.len() - i,
    {
        out.push(v[i]);
        assert(out@ =~= v@.take(i + 1));
        i = i + 1;
    }
    assert(v@.take(v@.len() as int) =~= v@);
    out
}

/// A JSON array of encoded items.
pub fn array_text(items: &Vec<Vec<char>>) -> (r: Vec<char>)
    ensures
        r@ == json_array(views(items@)),
{
    let mut out: Vec<char> = Vec::new();
    out.push('[');
    let mut inner = join_text(items);
    out.append(&mut inner);
    out.push(']');
    assert(out@ =~= json_array(views(items@)));
    out
}

/// A JSON object of encoded members.
pub fn object_text(members: &Vec<Vec<char>>) -> (r: Vec<char>)
    ensures
        r@ == json_object(views(members@)),
{
    let mut out: Vec<char> = Vec::new();
    out.push('{');
    let mut inner = join_text(members);
    out.append(&mut inner);
    out.push('}');
    assert(out@ =~= json_object(views(members@)));
    out
}

/// One JSON object member.
pub fn member_text(key: &str, value: Vec<char>) -> (r: Vec<char>)
    ensures
        r@ == json_member(key@, value@),
{
    let ghost v = value@;
    let mut out = json_str(key);
    out.push(':');
    let mut value = value;
    out.append(&mut value);
    assert(out@ =~= json_member(key@, v));
    out
}

/// A JSON array of the given strings.
pub fn string_array_text(items: &Vec<String>) -> (r: Vec<char>)
    ensures
        r@ == json_string_array(items@.map_values(|s: String| s@)),
{
    let mut encoded: Vec<Vec<char>> = Vec::new();
    let mut i: usize = 0;
    while i < items.len()
        invariant
            i <= items.len(),
            views(encoded@) == items@.take(i as int).map_values(|s: String| s@).map_values(
                |s: Seq<char>| json_string(s),
            ),
        decreases items.len() - i,
    {
        let ghost before = views(encoded@);
        let item = json_str(items[i].as_str());
        encoded.push(item);
        assert(views(encoded@) =~= before.push(json_string(items@[i as int]@)));
        assert(views(encoded@) =~= items@.take(i + 1).map_values(|s: String| s@).map_values(
            |s: Seq<char>| json_string(s),
        ));
        i = i + 1;
    }
    assert(items@.take(items@.len() as int) =~= items@);
    array_text(&encoded)
}

/// A JSON string for an optional string, `null` when absent.
pub fn opt_string_text(v: &Option<String>) -> (r: Vec<char>)
    ensures
        r@ == json_opt_string(
            match v {
                Some(s) => Some(s@),
                None => None,
            },
        ),
{
    match v {
        Some(s) => json_str(s.as_str()),
        None => null_text(),
    }
}

/// The canonical (RFC 8785) form of a JSON text, or `None` where it is refused.
pub fn canonical_json(json: &Vec<char>) -> (r: Option<String>)
    ensures
        r matches Some(c) ==> jcs_of(json@) == Some(c@),
        r is None ==> jcs_of(json@) is None,
{
    let text = string_of(json);
    jcs_pipe(text.as_str())
}

/// A copy of a byte slice.
pub fn bytes_to_vec(s: &[u8]) -> (r: Vec<u8>)
    ensures
        r@ == s@,
{
    let mut out: Vec<u8> = Vec::new();
    let mut i: usize = 0;
    while i < s.len()
        invariant
            i <= s.len(),
            out@ == s@.take(i as int),
        decreases s.len() - i,
    {
        out.push(s[i]);
        assert(out@ =~= s@.take(i + 1));
        i = i + 1;
    }
    assert(s@.take(s@.len() as int) =~= s@);
    out
}

/// The canonical bytes of a JSON text.
pub fn canonical_json_bytes(json: &Vec<char>) -> (r: Option<Vec<u8>>)
    ensures
        r matches Some(b) ==> jcs_bytes(json@) == Some(b@),
        r is None ==> jcs_bytes(json@) is None,
{
    match canonical_json(json) {
        Some(c) => Some(bytes_to_vec(c.as_str().as_bytes())),
        None => None,
    }
}

/// The fingerprint of a JSON value: the content fingerprint of its canonical bytes.
pub fn fingerprint_json(json: &Vec<char>) -> (r: Option<Vec<char>>)
    ensures
        r matches Some(f) ==> json_fingerprint(json@) == Some(f@) && is_fingerprint(f@) && f@.len()
            == 71,
        r is None ==> json_fingerprint(json@) is None,
{
    match canonical_json_bytes(json) {
        Some(b) => Some(fingerprint_of_bytes(b.as_slice())),
        None => None,
    }
}

/// The bytes of a record file: canonical JSON and one line feed.
pub fn encode_jcs_lf(json: &Vec<char>) -> (r: Option<Vec<u8>>)
    ensures
        r matches Some(b) ==> jcs_lf_bytes(json@) == Some(b@),
        r is None ==> jcs_lf_bytes(json@) is None,
{
    match canonical_json_bytes(json) {
        Some(b) => {
            let mut b = b;
            b.push(10u8);
            Some(b)
        },
        None => None,
    }
}

} // verus!
