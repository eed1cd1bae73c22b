use vstd::prelude::*;
use vstd::utf8::encode_utf8;
use crate::charter_lifecycle::{is_unicode_whitespace, strings_contain};
use crate::digest::{
    commit_marker, content_fingerprint, fingerprint_hex, fingerprint_of_bytes, is_fingerprint,
    is_fingerprint_chars, lemma_sha256_prefix, marker_of, sha256_prefix, sha256_prefix_chars,
};
use crate::json::{encode_jcs_lf, fingerprint_json, jcs_lf_bytes, json_fingerprint};
pub use crate::posture_records::{
    AuthorityHeadV1, CanonicalDocumentV1, EmptyExtensionsV1, KernelReplayDimensionV1,
    KernelReplayV1, OutputRecordV1, PairV1, PostureChangeV1, PostureReassessmentV1,
    PostureTransitionDraftV1, PostureTransitionRecordV1, ValidatedPostureTransitionV1,
};
pub use crate::posture_records::{
    PostureAuthorityInputsV1, PostureTransactionIntentV1, PostureTransactionOutputsV1,
    PostureTransactionRecoveryV1, ValidatedPostureTransactionIntentV1,
};
use crate::posture_records::{
    change_json, change_json_text, head_json_text, output_json, output_json_text, pair_json,
    pair_json_text, pairs_json, pairs_json_text, reassessment_json, reassessment_json_text,
    replay_json_text, dimension_json, dimensions_json, head_json, intent_preimage_json, intent_preimage_json_text,
    intent_preimage_members, intent_record_json, intent_record_json_text, replay_json,
    canonical_json, canonical_json_text, posture_preimage_json, posture_preimage_json_text,
    posture_preimage_members, posture_record_json, posture_record_json_text,
};
use crate::charter_lifecycle_transition_v11::{
    copy_pairs, copy_reassessment, lemma_same_reassessment, lifecycle_bindings_valid,
    lifecycle_transition_output_record_v11, same_reassessment,
    validate_lifecycle_transition_bindings_v11, LifecycleTransitionRecordV11,
    ValidatedLifecycleTransitionV11,
};
use crate::text::{
    between, chars_eq, chars_lt, chars_of, is_lower_sha256_hex, seq_lt, sha256_hex_text,
    string_of, string_views, strip_between,
};
use crate::utc::{is_utc_second, utc_second};

verus! {

pub const MAX_POSTURE_RECORD_BYTES_V1: usize = 262144;

pub const MAX_POSTURE_CANONICAL_BYTES_V1: u64 = 1048576;

pub const CANONICAL_CHARTER_REF: &'static str = ".handbook/project/charter.yaml";


/// A refused posture record, with the reason.
#[derive(Clone, Debug, PartialEq, Eq)]
pub struct PostureRecordValidationErrorV1 {
    detail: String,
}

impl PostureRecordValidationErrorV1 {
    /// The text that explains the refusal.
    pub closed spec fn error_detail(&self) -> Seq<char> {
        self.detail@
    }

    pub fn new(detail: &str) -> (r: Self)
        ensures
            r.error_detail() == detail@,
    {
        Self { detail: detail.to_owned() }
    }

    pub fn detail(&self) -> (r: &str)
        ensures
            r@ == self.error_detail(),
    {
        self.detail.as_str()
    }
}

/// A refusal whose reason names the refused value.
pub fn invalid(label: &str, text: &str) -> (r: PostureRecordValidationErrorV1)
    ensures
        r.error_detail() == label@ + text@,
{
    let mut all = chars_of(label);
    let mut rest = chars_of(text);
    all.append(&mut rest);
    let s = string_of(&all);
    PostureRecordValidationErrorV1 { detail: s }
}

/// A control character (Unicode general category Cc).
pub open spec fn is_control_char(c: char) -> bool {
    (c as int) < 0x20 || (0x7f <= (c as int) && (c as int) <= 0x9f)
}

/// No path segment of `s` is empty, `.` or `..`.
pub open spec fn segments_are_proper(s: Seq<char>) -> bool {
    &&& s.len() > 0
    &&& s[0] != '/'
    &&& s.last() != '/'
    &&& forall|i: int| 0 <= i < s.len() - 1 && #[trigger] s[i] == '/' ==> s[i + 1] != '/'
    &&& forall|i: int|
        0 <= i < s.len() && #[trigger] s[i] == '.' && (i == 0 || s[i - 1] == '/') ==> !(i + 1
            == s.len() || s[i + 1] == '/') && !(i + 1 < s.len() && s[i + 1] == '.' && (i + 2
            == s.len() || s[i + 2] == '/'))
}

/// A safe bounded reference: non-empty, at most `max` UTF-8 bytes, without surrounding
/// whitespace, backslashes or control characters, and with proper path segments.
pub open spec fn is_safe_ref(s: Seq<char>, max: nat) -> bool {
    &&& s.len() > 0
    &&& encode_utf8(s).len() <= max
    &&& !is_unicode_whitespace(s[0])
    &&& !is_unicode_whitespace(s.last())
    &&& forall|i: int| 0 <= i < s.len() ==> #[trigger] s[i] != '\\' && !is_control_char(s[i])
    &&& segments_are_proper(s)
}

fn control_char(c: char) -> (r: bool)
    ensures
        r == is_control_char(c),
{
    c < '\u{20}' || ('\u{7f}' <= c && c <= '\u{9f}')
}

fn whitespace_char(c: char) -> (r: bool)
    ensures
        r == is_unicode_whitespace(c),
{
    ('\u{9}' <= c && c <= '\u{d}') || c == ' ' || c == '\u{85}' || c == '\u{a0}' || c == '\u{1680}'
        || ('\u{2000}' <= c && c <= '\u{200a}') || c == '\u{2028}' || c == '\u{2029}' || c
        == '\u{202f}' || c == '\u{205f}' || c == '\u{3000}'
}

/// Whether a text is a safe bounded reference of at most `max_bytes` bytes.
pub fn safe_ref(value: &str, max_bytes: usize) -> (r: bool)
    ensures
        r == is_safe_ref(value@, max_bytes as nat),
{
    let s = chars_of(value);
    let byte_length = value.as_bytes().len();
    if s.len() == 0 || byte_length > max_bytes || whitespace_char(s[0]) || whitespace_char(
        s[s.len() - 1],
    ) || s[0] == '/' || s[s.len() - 1] == '/' {
        return false;
    }
    let n = s.len();
    let mut i: usize = 0;
    while i < n
        invariant
            s@ == value@,
            n == s.len(),
            n > 0,
            s@[0] != '/',
            s@[n - 1] != '/',
            i <= n,
            forall|k: int| 0 <= k < i ==> #[trigger] s@[k] != '\\' && !is_control_char(s@[k]),
            forall|k: int| 0 <= k < i && k < n - 1 && #[trigger] s@[k] == '/' ==> s@[k + 1] != '/',
            forall|k: int|
                0 <= k < i && #[trigger] s@[k] == '.' && (k == 0 || s@[k - 1] == '/') ==> !(k + 1
                    == n || s@[k + 1] == '/') && !(k + 1 < n && s@[k + 1] == '.' && (k + 2 == n
                    || s@[k + 2] == '/')),
        decreases n - i,
    {
        let c = s[i];
        if c == '\\' || control_char(c) {
            return false;
        }
        if c == '/' && i + 1 < n && s[i + 1] == '/' {
            return false;
        }
        if c == '.' && (i == 0 || s[i - 1] == '/') {
            if i + 1 == n || s[i + 1] == '/' {
                return false;
            }
            if s[i + 1] == '.' && (i + 2 == n || s[i + 2] == '/') {
                return false;
            }
        }
        i = i + 1;
    }
    proof {
        assert(s@.last() == s@[n - 1]);
    }
    true
}

/// Requires a safe bounded reference.
pub fn validate_safe_ref_v1(value: &str, max_bytes: usize, label: &str) -> (r: Result<
    (),
    PostureRecordValidationErrorV1,
>)
    ensures
        r is Ok <==> is_safe_ref(value@, max_bytes as nat),
{
    if !safe_ref(value, max_bytes) {
        return Err(invalid(label, " is not a safe bounded reference"));
    }
    Ok(())
}

/// Requires a lowercase SHA-256 fingerprint.
pub fn validate_fingerprint_v1(value: &str, label: &str) -> (r: Result<(), PostureRecordValidationErrorV1>)
    ensures
        r is Ok <==> is_fingerprint(value@),
{
    if !is_fingerprint_chars(&chars_of(value)) {
        return Err(invalid(label, " is not a lowercase SHA-256 fingerprint"));
    }
    Ok(())
}

/// A well-formed pair: a safe reference of at most 512 bytes and a fingerprint.
pub open spec fn pair_valid(p: PairV1) -> bool {
    is_safe_ref(p.reference@, 512) && is_fingerprint(p.fingerprint@)
}

pub fn validate_pair_v1(value: &PairV1, label: &str) -> (r: Result<(), PostureRecordValidationErrorV1>)
    ensures
        r is Ok <==> pair_valid(*value),
{
    validate_safe_ref_v1(value.reference.as_str(), 512, label)?;
    validate_fingerprint_v1(value.fingerprint.as_str(), label)
}

/// A content-addressed pair: a well-formed pair whose reference is `prefix`, 64 lowercase hex
/// digits and `suffix`, and whose fingerprint is `sha256:` and those digits.
pub open spec fn content_ref_valid(p: PairV1, prefix: Seq<char>, suffix: Seq<char>) -> bool {
    &&& pair_valid(p)
    &&& between(p.reference@, prefix, suffix) matches Some(hex)
    &&& is_lower_sha256_hex(hex)
    &&& p.fingerprint@ == sha256_prefix() + hex
}

pub fn validate_content_ref_v1(value: &PairV1, prefix: &str, suffix: &str, label: &str) -> (r:
    Result<(), PostureRecordValidationErrorV1>)
    ensures
        r is Ok <==> content_ref_valid(*value, prefix@, suffix@),
{
    validate_pair_v1(value, label)?;
    let hex = match strip_between(&chars_of(value.reference.as_str()), &chars_of(prefix), &chars_of(suffix)) {
        Some(hex) => hex,
        None => {
            return Err(invalid(label, " has an invalid content reference grammar"));
        },
    };
    let mut expected = sha256_prefix_chars();
    let mut tail = crate::json::copy_text(&hex);
    expected.append(&mut tail);
    if !sha256_hex_text(&hex) || !chars_eq(&chars_of(value.fingerprint.as_str()), &expected) {
        return Err(invalid(label, " content reference and fingerprint disagree"));
    }
    Ok(())
}

/// A well-formed output record: a content-addressed reference and fingerprint, a document
/// hash, and a length of one byte to the record bound.
pub open spec fn output_record_valid(o: OutputRecordV1, prefix: Seq<char>, suffix: Seq<char>) -> bool {
    &&& content_ref_valid(PairV1 { reference: o.reference, fingerprint: o.fingerprint }, prefix, suffix)
    &&& is_fingerprint(o.document_sha256@)
    &&& 1 <= o.byte_length <= MAX_POSTURE_RECORD_BYTES_V1
}

pub fn validate_output_record_v1(value: &OutputRecordV1, prefix: &str, suffix: &str, label: &str) -> (r:
    Result<(), PostureRecordValidationErrorV1>)
    ensures
        r is Ok <==> output_record_valid(*value, prefix@, suffix@),
{
    validate_content_ref_v1(
        &PairV1 { reference: value.reference.clone(), fingerprint: value.fingerprint.clone() },
        prefix,
        suffix,
        label,
    )?;
    validate_fingerprint_v1(value.document_sha256.as_str(), label)?;
    if value.byte_length == 0 || value.byte_length > MAX_POSTURE_RECORD_BYTES_V1 as u64 {
        return Err(invalid(label, " has an invalid byte length"));
    }
    Ok(())
}

/// The canonical Charter binding: its fixed reference, equal fingerprint and document hash,
/// and a length of one byte to the canonical bound.
pub open spec fn canonical_document_valid(c: CanonicalDocumentV1) -> bool {
    &&& c.reference@ == CANONICAL_CHARTER_REF@
    &&& c.fingerprint@ == c.document_sha256@
    &&& 1 <= c.byte_length <= MAX_POSTURE_CANONICAL_BYTES_V1
    &&& is_safe_ref(c.reference@, 512)
    &&& is_fingerprint(c.fingerprint@)
}

pub fn validate_canonical_document_v1(value: &CanonicalDocumentV1, label: &str) -> (r: Result<
    (),
    PostureRecordValidationErrorV1,
>)
    ensures
        r is Ok <==> canonical_document_valid(*value),
{
    if !chars_eq(&chars_of(value.reference.as_str()), &chars_of(CANONICAL_CHARTER_REF)) || !(
    value.fingerprint == value.document_sha256) || value.byte_length == 0 || value.byte_length
        > MAX_POSTURE_CANONICAL_BYTES_V1 {
        return Err(invalid(label, " has an invalid canonical binding"));
    }
    validate_safe_ref_v1(value.reference.as_str(), 512, label)?;
    validate_fingerprint_v1(value.fingerprint.as_str(), label)?;
    validate_fingerprint_v1(value.document_sha256.as_str(), label)
}

/// A posture level, one to five.
pub open spec fn is_level(v: u8) -> bool {
    1 <= v <= 5
}

pub fn level(v: u8) -> (r: bool)
    ensures
        r == is_level(v),
{
    1 <= v && v <= 5
}

/// The nine posture dimensions, by index.
pub open spec fn dimension_id_at(i: int) -> Seq<char> {
    if i == 0 {
        "speed_vs_quality"@
    } else if i == 1 {
        "type_safety_static_analysis"@
    } else if i == 2 {
        "testing_rigor"@
    } else if i == 3 {
        "scalability_performance"@
    } else if i == 4 {
        "reliability_operability"@
    } else if i == 5 {
        "security_privacy"@
    } else if i == 6 {
        "observability"@
    } else if i == 7 {
        "dx_tooling_automation"@
    } else {
        "ux_polish_api_usability"@
    }
}

/// The authority path of a dimension's level override, by index.
pub open spec fn dimension_path_at(i: int) -> Seq<char> {
    if i == 0 {
        "/engineering_posture/dimensions/0/level_override"@
    } else if i == 1 {
        "/engineering_posture/dimensions/1/level_override"@
    } else if i == 2 {
        "/engineering_posture/dimensions/2/level_override"@
    } else if i == 3 {
        "/engineering_posture/dimensions/3/level_override"@
    } else if i == 4 {
        "/engineering_posture/dimensions/4/level_override"@
    } else if i == 5 {
        "/engineering_posture/dimensions/5/level_override"@
    } else if i == 6 {
        "/engineering_posture/dimensions/6/level_override"@
    } else if i == 7 {
        "/engineering_posture/dimensions/7/level_override"@
    } else {
        "/engineering_posture/dimensions/8/level_override"@
    }
}

fn dimension_id(i: u8) -> (r: &'static str)
    ensures
        r@ == dimension_id_at(i as int),
{
    if i == 0 {
        "speed_vs_quality"
    } else if i == 1 {
        "type_safety_static_analysis"
    } else if i == 2 {
        "testing_rigor"
    } else if i == 3 {
        "scalability_performance"
    } else if i == 4 {
        "reliability_operability"
    } else if i == 5 {
        "security_privacy"
    } else if i == 6 {
        "observability"
    } else if i == 7 {
        "dx_tooling_automation"
    } else {
        "ux_polish_api_usability"
    }
}

fn dimension_path(i: u8) -> (r: &'static str)
    ensures
        r@ == dimension_path_at(i as int),
{
    if i == 0 {
        "/engineering_posture/dimensions/0/level_override"
    } else if i == 1 {
        "/engineering_posture/dimensions/1/level_override"
    } else if i == 2 {
        "/engineering_posture/dimensions/2/level_override"
    } else if i == 3 {
        "/engineering_posture/dimensions/3/level_override"
    } else if i == 4 {
        "/engineering_posture/dimensions/4/level_override"
    } else if i == 5 {
        "/engineering_posture/dimensions/5/level_override"
    } else if i == 6 {
        "/engineering_posture/dimensions/6/level_override"
    } else if i == 7 {
        "/engineering_posture/dimensions/7/level_override"
    } else {
        "/engineering_posture/dimensions/8/level_override"
    }
}

/// The stored value of a level override, or the baseline where there is none.
pub open spec fn effective(stored: Option<u8>, baseline: u8) -> u8 {
    match stored {
        Some(l) => l,
        None => baseline,
    }
}

/// A posture change that follows the fixed leaf algebra: a known dimension at its fixed path,
/// a `replace` of valid levels whose effective levels follow from stored values and baseline,
/// and a change of the effective level.
pub open spec fn change_valid(c: PostureChangeV1) -> bool {
    &&& c.dimension_index < 9
    &&& c.dimension_id@ == dimension_id_at(c.dimension_index as int)
    &&& c.authority_path@ == dimension_path_at(c.dimension_index as int)
    &&& c.operation@ == "replace"@
    &&& is_level(c.baseline_level)
    &&& is_level(c.expected_effective_level)
    &&& is_level(c.proposed_effective_level)
    &&& (c.expected_stored_value matches Some(l) ==> is_level(l))
    &&& (c.proposed_stored_value matches Some(l) ==> is_level(l))
    &&& c.expected_effective_level == effective(c.expected_stored_value, c.baseline_level)
    &&& c.proposed_effective_level == effective(c.proposed_stored_value, c.baseline_level)
    &&& c.expected_effective_level != c.proposed_effective_level
}

pub fn validate_change_v1(value: &PostureChangeV1) -> (r: Result<(), PostureRecordValidationErrorV1>)
    ensures
        r is Ok <==> change_valid(*value),
{
    if value.dimension_index >= 9 {
        return Err(invalid("posture change dimension index", " is out of bounds"));
    }
    let expected_stored_ok = match value.expected_stored_value {
        Some(l) => level(l),
        None => true,
    };
    let proposed_stored_ok = match value.proposed_stored_value {
        Some(l) => level(l),
        None => true,
    };
    let expected_effective = match value.expected_stored_value {
        Some(l) => l,
        None => value.baseline_level,
    };
    let proposed_effective = match value.proposed_stored_value {
        Some(l) => l,
        None => value.baseline_level,
    };
    if !chars_eq(&chars_of(value.dimension_id.as_str()), &chars_of(dimension_id(value.dimension_index)))
        || !chars_eq(&chars_of(value.authority_path.as_str()), &chars_of(dimension_path(value.dimension_index)))
        || !chars_eq(&chars_of(value.operation.as_str()), &chars_of("replace"))
        || !level(value.baseline_level) || !level(value.expected_effective_level) || !level(
        value.proposed_effective_level,
    ) || !expected_stored_ok || !proposed_stored_ok || value.expected_effective_level
        != expected_effective || value.proposed_effective_level != proposed_effective
        || value.expected_effective_level == value.proposed_effective_level {
        return Err(invalid("posture change", " does not match its fixed leaf algebra"));
    }
    Ok(())
}

/// Pair order: by reference, then by fingerprint, both as byte strings.
pub open spec fn pair_lt(a: PairV1, b: PairV1) -> bool {
    seq_lt(a.reference@, b.reference@) || (a.reference@ == b.reference@ && seq_lt(
        a.fingerprint@,
        b.fingerprint@,
    ))
}

/// Between `min` and `max` well-formed pairs, unique and strictly pair-sorted.
pub open spec fn sorted_pairs_valid(s: Seq<PairV1>, min: nat, max: nat) -> bool {
    &&& min <= s.len() <= max
    &&& forall|i: int| 0 <= i < s.len() ==> pair_valid(#[trigger] s[i])
    &&& forall|i: int| 0 <= i < s.len() - 1 ==> pair_lt(#[trigger] s[i], s[i + 1])
}

fn pair_order_lt(a: &PairV1, b: &PairV1) -> (r: bool)
    ensures
        r == pair_lt(*a, *b),
{
    let ar = chars_of(a.reference.as_str());
    let br = chars_of(b.reference.as_str());
    chars_lt(&ar, &br) || (chars_eq(&ar, &br) && chars_lt(
        &chars_of(a.fingerprint.as_str()),
        &chars_of(b.fingerprint.as_str()),
    ))
}

pub fn validate_sorted_pairs_v1(values: &Vec<PairV1>, min: usize, max: usize, label: &str) -> (r:
    Result<(), PostureRecordValidationErrorV1>)
    ensures
        r is Ok <==> sorted_pairs_valid(values@, min as nat, max as nat),
{
    if values.len() < min || values.len() > max {
        return Err(invalid(label, " has an invalid cardinality"));
    }
    let mut i: usize = 0;
    while i < values.len()
        invariant
            i <= values.len(),
            forall|k: int| 0 <= k < i ==> pair_valid(#[trigger] values@[k]),
        decreases values.len() - i,
    {
        validate_pair_v1(&values[i], label)?;
        i = i + 1;
    }
    let mut j: usize = 1;
    while j < values.len()
        invariant
            1 <= j,
            forall|k: int| 0 <= k < values.len() ==> pair_valid(#[trigger] values@[k]),
            forall|k: int| 0 <= k < j - 1 && k < values.len() - 1 ==> pair_lt(#[trigger] values@[k], values@[k + 1]),
        decreases values.len() - j,
    {
        if !pair_order_lt(&values[j - 1], &values[j]) {
            return Err(invalid(label, " must be unique and strictly pair-sorted"));
        }
        j = j + 1;
    }
    Ok(())
}

/// Between `min` and `max` safe references, unique and strictly byte-sorted.
pub open spec fn sorted_refs_valid(s: Seq<Seq<char>>, min: nat, max: nat) -> bool {
    &&& min <= s.len() <= max
    &&& forall|i: int| 0 <= i < s.len() ==> is_safe_ref(#[trigger] s[i], 512)
    &&& forall|i: int| 0 <= i < s.len() - 1 ==> seq_lt(#[trigger] s[i], s[i + 1])
}

pub fn validate_sorted_refs_v1(values: &Vec<String>, min: usize, max: usize, label: &str) -> (r:
    Result<(), PostureRecordValidationErrorV1>)
    ensures
        r is Ok <==> sorted_refs_valid(string_views(values@), min as nat, max as nat),
{
    let ghost v = string_views(values@);
    if values.len() < min || values.len() > max {
        return Err(invalid(label, " has an invalid cardinality"));
    }
    let mut i: usize = 0;
    while i < values.len()
        invariant
            v == string_views(values@),
            i <= values.len(),
            forall|k: int| 0 <= k < i ==> is_safe_ref(#[trigger] v[k], 512),
        decreases values.len() - i,
    {
        assert(v[i as int] == values@[i as int]@);
        validate_safe_ref_v1(values[i].as_str(), 512, label)?;
        i = i + 1;
    }
    let mut j: usize = 1;
    while j < values.len()
        invariant
            v == string_views(values@),
            1 <= j,
            forall|k: int| 0 <= k < v.len() ==> is_safe_ref(#[trigger] v[k], 512),
            forall|k: int| 0 <= k < j - 1 && k < v.len() - 1 ==> seq_lt(#[trigger] v[k], v[k + 1]),
        decreases values.len() - j,
    {
        assert(v[j - 1] == values@[j - 1]@ && v[j as int] == values@[j as int]@);
        if !chars_lt(&chars_of(values[j - 1].as_str()), &chars_of(values[j].as_str())) {
            return Err(invalid(label, " must be unique and strictly byte-sorted"));
        }
        j = j + 1;
    }
    Ok(())
}

/// The reassessment that a posture change must carry: a well-formed intake binding, the
/// posture-dimension coverage, and one to sixteen sorted validation-result inputs.
pub open spec fn reassessment_valid(r: PostureReassessmentV1) -> bool {
    &&& string_views(r.affected_coverage_ids@) == seq!["engineering_posture.dimensions"@]
    &&& pair_valid(r.intake_definition)
    &&& sorted_pairs_valid(r.validation_result_inputs@, 1, 16)
}

pub fn validate_reassessment_v1(value: &PostureReassessmentV1) -> (r: Result<
    (),
    PostureRecordValidationErrorV1,
>)
    ensures
        r is Ok <==> reassessment_valid(*value),
{
    let coverage_ok = value.affected_coverage_ids.len() == 1 && chars_eq(
        &chars_of(value.affected_coverage_ids[0].as_str()),
        &chars_of("engineering_posture.dimensions"),
    );
    proof {
        let sv = string_views(value.affected_coverage_ids@);
        if value.affected_coverage_ids.len() == 1 {
            assert(sv =~= seq![value.affected_coverage_ids@[0]@]);
        }
        if !coverage_ok && sv == seq!["engineering_posture.dimensions"@] {
            assert(sv.len() == 1);
            assert(sv[0] == value.affected_coverage_ids@[0]@);
        }
    }
    if !coverage_ok {
        return Err(invalid("posture reassessment", " constants are invalid"));
    }
    validate_pair_v1(&value.intake_definition, "posture intake definition")?;
    validate_sorted_pairs_v1(&value.validation_result_inputs, 1, 16, "posture validation result inputs")
}

/// An identifier made of a fixed prefix and 64 lowercase hex digits.
pub open spec fn hex_id_valid(value: Seq<char>, prefix: Seq<char>) -> bool {
    value.len() >= prefix.len() && value.take(prefix.len() as int) == prefix && is_lower_sha256_hex(
        value.skip(prefix.len() as int),
    )
}

pub fn validate_transition_id_v1(value: &str, prefix: &str, label: &str) -> (r: Result<
    (),
    PostureRecordValidationErrorV1,
>)
    ensures
        r is Ok <==> hex_id_valid(value@, prefix@),
{
    let v = chars_of(value);
    let p = chars_of(prefix);
    if !crate::text::starts_with(&v, &p) {
        return Err(invalid(label, " prefix is invalid"));
    }
    let hex = crate::text::slice_chars(&v, p.len(), v.len());
    assert(hex@ =~= value@.skip(prefix@.len() as int));
    if !sha256_hex_text(&hex) {
        return Err(invalid(label, " must end in 64 lowercase hex characters"));
    }
    Ok(())
}

/// A posture transaction ID: `posture-transaction_` and 32 lowercase hex digits.
pub open spec fn transaction_id_valid(value: Seq<char>) -> bool {
    let prefix = "posture-transaction_"@;
    &&& value.len() >= prefix.len()
    &&& value.take(prefix.len() as int) == prefix
    &&& value.skip(prefix.len() as int).len() == 32
    &&& forall|i: int|
        0 <= i < 32 ==> crate::text::is_lower_hex_char(#[trigger] value.skip(prefix.len() as int)[i])
}

pub fn validate_transaction_id_v1(value: &str) -> (r: Result<(), PostureRecordValidationErrorV1>)
    ensures
        r is Ok <==> transaction_id_valid(value@),
{
    let v = chars_of(value);
    let p = chars_of("posture-transaction_");
    if !crate::text::starts_with(&v, &p) {
        return Err(invalid("posture transaction ID", " prefix is invalid"));
    }
    let hex = crate::text::slice_chars(&v, p.len(), v.len());
    assert(hex@ =~= value@.skip("posture-transaction_"@.len() as int));
    if hex.len() != 32 {
        return Err(invalid("posture transaction ID", " must carry exactly 128 random bits"));
    }
    let mut i: usize = 0;
    while i < 32
        invariant
            hex.len() == 32,
            hex@ =~= value@.skip("posture-transaction_"@.len() as int),
            i <= 32,
            forall|k: int| 0 <= k < i ==> crate::text::is_lower_hex_char(#[trigger] hex@[k]),
        decreases 32 - i,
    {
        if !crate::text::lower_hex_char(hex[i]) {
            return Err(invalid("posture transaction ID", " must carry exactly 128 random bits"));
        }
        i = i + 1;
    }
    Ok(())
}

/// Requires canonical second-precision UTC text.
pub fn validate_utc_second_v1(value: &str, label: &str) -> (r: Result<(), PostureRecordValidationErrorV1>)
    ensures
        r is Ok <==> is_utc_second(encode_utf8(value@)),
{
    if !utc_second(value.as_bytes()) {
        return Err(invalid(label, " is not a valid UTC second"));
    }
    Ok(())
}

/// A well-formed authority head: a promotion or posture-transition source, a canonical
/// binding, and content-addressed lifecycle transition and promotion ancestor.
pub open spec fn head_valid(h: AuthorityHeadV1) -> bool {
    &&& ((h.kind@ == "promotion"@ && content_ref_valid(h.source, "promotions/promotion_"@, ".json"@))
        || (h.kind@ == "posture_transition"@ && content_ref_valid(
        h.source,
        "posture-transitions/posture-transition_"@,
        ".json"@,
    )))
    &&& canonical_document_valid(h.canonical)
    &&& content_ref_valid(h.lifecycle_transition, "lifecycle-transitions/lifecycle-transition_"@, ".json"@)
    &&& content_ref_valid(h.promotion_ancestor, "promotions/promotion_"@, ".json"@)
}

pub fn validate_authority_head_v1(value: &AuthorityHeadV1) -> (r: Result<(), PostureRecordValidationErrorV1>)
    ensures
        r is Ok <==> head_valid(*value),
{
    let kind = chars_of(value.kind.as_str());
    proof {
        reveal_strlit("promotion");
        reveal_strlit("posture_transition");
        assert("promotion"@.len() != "posture_transition"@.len());
    }
    if chars_eq(&kind, &chars_of("promotion")) {
        validate_content_ref_v1(&value.source, "promotions/promotion_", ".json", "authority head promotion source")?;
    } else if chars_eq(&kind, &chars_of("posture_transition")) {
        validate_content_ref_v1(
            &value.source,
            "posture-transitions/posture-transition_",
            ".json",
            "authority head posture source",
        )?;
    } else {
        return Err(invalid("authority head kind", " is unsupported"));
    }
    validate_canonical_document_v1(&value.canonical, "authority head canonical")?;
    validate_content_ref_v1(
        &value.lifecycle_transition,
        "lifecycle-transitions/lifecycle-transition_",
        ".json",
        "authority head lifecycle transition",
    )?;
    validate_content_ref_v1(&value.promotion_ancestor, "promotions/promotion_", ".json", "authority head promotion ancestor")
}

/// One replayed dimension: the dimension at its index, valid levels, unchanged unless it is
/// the changed dimension, which moves from the expected to the proposed level, and sorted
/// references.
pub open spec fn dimension_valid(d: KernelReplayDimensionV1, index: int, change: PostureChangeV1) -> bool {
    &&& d.dimension_id@ == dimension_id_at(index)
    &&& is_level(d.source_effective_level)
    &&& is_level(d.resulting_effective_level)
    &&& is_level(d.floor)
    &&& (index != change.dimension_index ==> d.source_effective_level == d.resulting_effective_level)
    &&& (index == change.dimension_index ==> d.source_effective_level == change.expected_effective_level
        && d.resulting_effective_level == change.proposed_effective_level)
    &&& sorted_refs_valid(string_views(d.red_line_refs@), 0, 256)
    &&& sorted_refs_valid(string_views(d.trigger_refs@), 0, 256)
    &&& sorted_refs_valid(string_views(d.allowed_shortcut_refs@), 0, 256)
    &&& sorted_refs_valid(string_views(d.proof_obligation_refs@), 0, 256)
}

/// A kernel replay bound to the canonical Charter before and after the change, with
/// well-formed inputs and the fixed nine-row dimension map.
pub open spec fn replay_valid(
    k: KernelReplayV1,
    change: PostureChangeV1,
    expected: CanonicalDocumentV1,
    resulting: CanonicalDocumentV1,
) -> bool {
    &&& k.constitutional_artifact_ref@ == CANONICAL_CHARTER_REF@
    &&& k.source_authority_fingerprint@ == expected.fingerprint@
    &&& k.resulting_authority_fingerprint@ == resulting.fingerprint@
    &&& is_safe_ref(k.constitutional_artifact_ref@, 512)
    &&& is_fingerprint(k.source_authority_fingerprint@)
    &&& is_fingerprint(k.resulting_authority_fingerprint@)
    &&& is_fingerprint(k.source_input_fingerprint@)
    &&& is_fingerprint(k.resulting_input_fingerprint@)
    &&& pair_valid(k.profile_input)
    &&& sorted_pairs_valid(k.override_inputs@, 0, 256)
    &&& sorted_pairs_valid(k.condition_inputs@, 0, 256)
    &&& sorted_pairs_valid(k.contract_inputs@, 0, 256)
    &&& sorted_pairs_valid(k.evidence_inputs@, 0, 256)
    &&& sorted_pairs_valid(k.snapshot_inputs@, 0, 256)
    &&& (k.freshness_basis matches Some(p) ==> pair_valid(p))
    &&& k.dimensions.len() == 9
    &&& forall|i: int| 0 <= i < 9 ==> dimension_valid(#[trigger] k.dimensions@[i], i, change)
    &&& sorted_refs_valid(string_views(k.applicable_scope_refs@), 0, 256)
    &&& sorted_refs_valid(string_views(k.omitted_condition_refs@), 0, 256)
    &&& sorted_refs_valid(string_views(k.unresolved_condition_refs@), 0, 256)
}

fn validate_dimension(d: &KernelReplayDimensionV1, index: usize, change: &PostureChangeV1) -> (r: Result<
    (),
    PostureRecordValidationErrorV1,
>)
    requires
        index < 9,
    ensures
        r is Ok <==> dimension_valid(*d, index as int, *change),
{
    let same = d.source_effective_level == d.resulting_effective_level;
    let moved = d.source_effective_level == change.expected_effective_level
        && d.resulting_effective_level == change.proposed_effective_level;
    let is_changed = index == change.dimension_index as usize;
    if !chars_eq(&chars_of(d.dimension_id.as_str()), &chars_of(dimension_id(index as u8))) || !level(
        d.source_effective_level,
    ) || !level(d.resulting_effective_level) || !level(d.floor) || (!is_changed && !same) || (
    is_changed && !moved) {
        return Err(invalid("kernel replay dimension values", " are invalid or substituted"));
    }
    validate_sorted_refs_v1(&d.red_line_refs, 0, 256, "kernel replay red-line refs")?;
    validate_sorted_refs_v1(&d.trigger_refs, 0, 256, "kernel replay trigger refs")?;
    validate_sorted_refs_v1(&d.allowed_shortcut_refs, 0, 256, "kernel replay allowed-shortcut refs")?;
    validate_sorted_refs_v1(&d.proof_obligation_refs, 0, 256, "kernel replay proof-obligation refs")
}

pub fn validate_kernel_replay_v1(
    value: &KernelReplayV1,
    change: &PostureChangeV1,
    expected_canonical: &CanonicalDocumentV1,
    resulting_canonical: &CanonicalDocumentV1,
) -> (r: Result<(), PostureRecordValidationErrorV1>)
    ensures
        r is Ok <==> replay_valid(*value, *change, *expected_canonical, *resulting_canonical),
{
    if !chars_eq(&chars_of(value.constitutional_artifact_ref.as_str()), &chars_of(CANONICAL_CHARTER_REF))
        || !(value.source_authority_fingerprint == expected_canonical.fingerprint)
        || !(value.resulting_authority_fingerprint == resulting_canonical.fingerprint) {
        return Err(invalid("kernel replay authority bindings", " are invalid"));
    }
    validate_safe_ref_v1(value.constitutional_artifact_ref.as_str(), 512, "kernel replay constitutional ref")?;
    validate_fingerprint_v1(value.source_authority_fingerprint.as_str(), "kernel replay source authority fingerprint")?;
    validate_fingerprint_v1(value.resulting_authority_fingerprint.as_str(), "kernel replay resulting authority fingerprint")?;
    validate_fingerprint_v1(value.source_input_fingerprint.as_str(), "kernel replay source input fingerprint")?;
    validate_fingerprint_v1(value.resulting_input_fingerprint.as_str(), "kernel replay resulting input fingerprint")?;
    validate_pair_v1(&value.profile_input, "kernel replay profile input")?;
    validate_sorted_pairs_v1(&value.override_inputs, 0, 256, "kernel replay override inputs")?;
    validate_sorted_pairs_v1(&value.condition_inputs, 0, 256, "kernel replay condition inputs")?;
    validate_sorted_pairs_v1(&value.contract_inputs, 0, 256, "kernel replay contract inputs")?;
    validate_sorted_pairs_v1(&value.evidence_inputs, 0, 256, "kernel replay evidence inputs")?;
    validate_sorted_pairs_v1(&value.snapshot_inputs, 0, 256, "kernel replay snapshot inputs")?;
    match &value.freshness_basis {
        Some(basis) => {
            validate_pair_v1(basis, "kernel replay freshness basis")?;
        },
        None => {},
    }
    if value.dimensions.len() != 9 {
        return Err(invalid("kernel replay dimensions", " are not the fixed nine-row map"));
    }
    let mut i: usize = 0;
    while i < 9
        invariant
            value.dimensions.len() == 9,
            i <= 9,
            forall|k: int| 0 <= k < i ==> dimension_valid(#[trigger] value.dimensions@[k], k, *change),
        decreases 9 - i,
    {
        validate_dimension(&value.dimensions[i], i, change)?;
        i = i + 1;
    }
    validate_sorted_refs_v1(&value.applicable_scope_refs, 0, 256, "kernel replay applicable-scope refs")?;
    validate_sorted_refs_v1(&value.omitted_condition_refs, 0, 256, "kernel replay omitted-condition refs")?;
    validate_sorted_refs_v1(&value.unresolved_condition_refs, 0, 256, "kernel replay unresolved-condition refs")
}

/// An identifier made of `prefix` and the hex digits of a fingerprint.
pub fn id_from_fingerprint(prefix: &str, fingerprint: &Vec<char>) -> (r: String)
    requires
        is_fingerprint(fingerprint@),
    ensures
        r@ == prefix@ + fingerprint_hex(fingerprint@),
{
    proof {
        lemma_sha256_prefix();
    }
    let mut out = chars_of(prefix);
    let mut hex = crate::text::slice_chars(fingerprint, 7, fingerprint.len());
    assert(hex@ =~= fingerprint_hex(fingerprint@));
    out.append(&mut hex);
    string_of(&out)
}

/// A valid posture transition: fixed schema and target, well-formed bindings, a change that
/// follows the leaf algebra, a replay bound to both canonical documents, a valid effective
/// time, and a fingerprint and ID that derive from the semantic preimage.
pub open spec fn posture_record_valid(r: PostureTransitionRecordV1) -> bool {
    &&& r.schema_id@ == "handbook.posture-transition"@
    &&& r.schema_version@ == "1.0"@
    &&& r.target_authority_ref@ == CANONICAL_CHARTER_REF@
    &&& r.target_authority_class@ == "constitutional_root"@
    &&& hex_id_valid(r.transition_id@, "posture-transition_"@)
    &&& pair_valid(r.recommendation)
    &&& pair_valid(r.repository_identity)
    &&& pair_valid(r.source_kernel)
    &&& pair_valid(r.evaluation_policy)
    &&& head_valid(r.prior_authority_head)
    &&& canonical_document_valid(r.expected_canonical)
    &&& canonical_json(r.prior_authority_head.canonical) == canonical_json(r.expected_canonical)
    &&& change_valid(r.change)
    &&& sorted_pairs_valid(r.approval_inputs@, 1, 16)
    &&& is_safe_ref(r.authorized_by_ref@, 256)
    &&& reassessment_valid(r.reassessment)
    &&& canonical_document_valid(r.resulting_canonical)
    &&& r.resulting_canonical.fingerprint@ != r.expected_canonical.fingerprint@
    &&& replay_valid(r.kernel_replay, r.change, r.expected_canonical, r.resulting_canonical)
    &&& pair_valid(r.resulting_kernel)
    &&& is_utc_second(encode_utf8(r.effective_at_utc@))
    &&& is_fingerprint(r.transition_fingerprint@)
    &&& json_fingerprint(posture_preimage_json(r)) == Some(r.transition_fingerprint@)
    &&& r.transition_id@ == "posture-transition_"@ + fingerprint_hex(r.transition_fingerprint@)
}

/// Whether two canonical bindings are the same.
pub fn same_canonical(a: &CanonicalDocumentV1, b: &CanonicalDocumentV1) -> (r: bool)
    ensures
        r == (canonical_json(*a) == canonical_json(*b)),
{
    chars_eq(&canonical_json_text(a), &canonical_json_text(b))
}

pub fn validate_posture_transition_record_v1(record: &PostureTransitionRecordV1) -> (r: Result<
    (),
    PostureRecordValidationErrorV1,
>)
    ensures
        r is Ok <==> posture_record_valid(*record),
{
    if !chars_eq(&chars_of(record.schema_id.as_str()), &chars_of("handbook.posture-transition"))
        || !chars_eq(&chars_of(record.schema_version.as_str()), &chars_of("1.0"))
        || !chars_eq(&chars_of(record.target_authority_ref.as_str()), &chars_of(CANONICAL_CHARTER_REF))
        || !chars_eq(&chars_of(record.target_authority_class.as_str()), &chars_of("constitutional_root")) {
        return Err(invalid("posture transition", " schema or target constants are invalid"));
    }
    validate_transition_id_v1(record.transition_id.as_str(), "posture-transition_", "posture transition ID")?;
    validate_pair_v1(&record.recommendation, "posture recommendation")?;
    validate_pair_v1(&record.repository_identity, "posture repository identity")?;
    validate_pair_v1(&record.source_kernel, "posture source kernel")?;
    validate_pair_v1(&record.evaluation_policy, "posture evaluation policy")?;
    validate_authority_head_v1(&record.prior_authority_head)?;
    validate_canonical_document_v1(&record.expected_canonical, "expected canonical")?;
    if !same_canonical(&record.prior_authority_head.canonical, &record.expected_canonical) {
        return Err(invalid("posture authority head canonical", " differs from expected canonical"));
    }
    validate_change_v1(&record.change)?;
    validate_sorted_pairs_v1(&record.approval_inputs, 1, 16, "posture approval inputs")?;
    validate_safe_ref_v1(record.authorized_by_ref.as_str(), 256, "posture authorized-by ref")?;
    validate_reassessment_v1(&record.reassessment)?;
    validate_canonical_document_v1(&record.resulting_canonical, "resulting canonical")?;
    if record.resulting_canonical.fingerprint == record.expected_canonical.fingerprint {
        return Err(invalid("posture resulting canonical", " must differ from its expected canonical"));
    }
    validate_kernel_replay_v1(
        &record.kernel_replay,
        &record.change,
        &record.expected_canonical,
        &record.resulting_canonical,
    )?;
    validate_pair_v1(&record.resulting_kernel, "posture resulting kernel")?;
    validate_utc_second_v1(record.effective_at_utc.as_str(), "posture effective time")?;
    validate_fingerprint_v1(record.transition_fingerprint.as_str(), "posture transition fingerprint")?;
    let computed = match fingerprint_json(&posture_preimage_json_text(record)) {
        Some(f) => f,
        None => {
            return Err(invalid("posture transition 1.0", " fingerprint preimage is not canonical"));
        },
    };
    let declared = chars_of(record.transition_fingerprint.as_str());
    if !chars_eq(&declared, &computed) {
        return Err(invalid("posture transition fingerprint", " has an invalid semantic preimage"));
    }
    let expected_id = id_from_fingerprint("posture-transition_", &declared);
    if !(record.transition_id == expected_id) {
        return Err(invalid("posture transition ID", " does not derive from its fingerprint"));
    }
    Ok(())
}

/// The record carries the draft's values and the fixed schema and target constants.
pub open spec fn posture_record_matches_draft(
    r: PostureTransitionRecordV1,
    d: PostureTransitionDraftV1,
) -> bool {
    &&& r.schema_id@ == "handbook.posture-transition"@
    &&& r.schema_version@ == "1.0"@
    &&& r.target_authority_ref@ == CANONICAL_CHARTER_REF@
    &&& r.target_authority_class@ == "constitutional_root"@
    &&& r.recommendation == d.recommendation
    &&& r.repository_identity == d.repository_identity
    &&& r.source_kernel == d.source_kernel
    &&& r.evaluation_policy == d.evaluation_policy
    &&& r.prior_authority_head == d.prior_authority_head
    &&& r.expected_canonical == d.expected_canonical
    &&& r.change == d.change
    &&& r.approval_inputs == d.approval_inputs
    &&& r.authorized_by_ref == d.authorized_by_ref
    &&& r.reassessment == d.reassessment
    &&& r.kernel_replay == d.kernel_replay
    &&& r.resulting_canonical == d.resulting_canonical
    &&& r.resulting_kernel == d.resulting_kernel
    &&& r.effective_at_utc == d.effective_at_utc
}

/// The record bytes: canonical JSON and a line feed, within the record bound.
pub open spec fn posture_record_bytes_ok(r: PostureTransitionRecordV1) -> bool {
    jcs_lf_bytes(posture_record_json(r)) matches Some(b) && b.len() <= MAX_POSTURE_RECORD_BYTES_V1
}

/// Constructs a posture transition from a draft: the ID and fingerprint derive from the
/// semantic preimage, the record is validated, and its bytes are canonical JSON and a line
/// feed. Refused exactly when no valid, encodable record carries the draft.
pub fn construct_posture_transition_v1(draft: PostureTransitionDraftV1) -> (r: Result<
    ValidatedPostureTransitionV1,
    PostureRecordValidationErrorV1,
>)
    ensures
        r matches Ok(v) ==> posture_record_matches_draft(v.record, draft) && posture_record_valid(
            v.record,
        ) && jcs_lf_bytes(posture_record_json(v.record)) == Some(v.raw_bytes@) && v.raw_bytes@.len()
            <= MAX_POSTURE_RECORD_BYTES_V1,
        r is Err ==> forall|c: PostureTransitionRecordV1|
            posture_record_matches_draft(c, draft) ==> !(posture_record_valid(c) && posture_record_bytes_ok(c)),
{
    let ghost d = draft;
    let mut record = PostureTransitionRecordV1 {
        schema_id: "handbook.posture-transition".to_owned(),
        schema_version: "1.0".to_owned(),
        transition_id: String::new(),
        recommendation: draft.recommendation,
        repository_identity: draft.repository_identity,
        source_kernel: draft.source_kernel,
        evaluation_policy: draft.evaluation_policy,
        target_authority_ref: CANONICAL_CHARTER_REF.to_owned(),
        target_authority_class: "constitutional_root".to_owned(),
        prior_authority_head: draft.prior_authority_head,
        expected_canonical: draft.expected_canonical,
        change: draft.change,
        approval_inputs: draft.approval_inputs,
        authorized_by_ref: draft.authorized_by_ref,
        reassessment: draft.reassessment,
        kernel_replay: draft.kernel_replay,
        resulting_canonical: draft.resulting_canonical,
        resulting_kernel: draft.resulting_kernel,
        effective_at_utc: draft.effective_at_utc,
        extensions: EmptyExtensionsV1 {},
        transition_fingerprint: String::new(),
    };
    let fingerprint = match fingerprint_json(&posture_preimage_json_text(&record)) {
        Some(f) => f,
        None => {
            proof {
                assert forall|c: PostureTransitionRecordV1|
                    posture_record_matches_draft(c, d) implies !(posture_record_valid(c)
                    && posture_record_bytes_ok(c)) by {
                    assert(posture_preimage_members(c) =~= posture_preimage_members(record));
                }
            }
            return Err(invalid("posture transition 1.0", " fingerprint preimage is not canonical"));
        },
    };
    record.transition_id = id_from_fingerprint("posture-transition_", &fingerprint);
    record.transition_fingerprint = string_of(&fingerprint);
    assert(posture_preimage_members(record) =~= posture_preimage_members(record));
    let checked = validate_posture_transition_record_v1(&record);
    if checked.is_err() {
        proof {
            assert forall|c: PostureTransitionRecordV1|
                posture_record_matches_draft(c, d) implies !(posture_record_valid(c)
                && posture_record_bytes_ok(c)) by {
                if posture_record_valid(c) {
                    assert(posture_preimage_members(c) =~= posture_preimage_members(record));
                    assert(c.transition_fingerprint@ == record.transition_fingerprint@);
                    assert(c.transition_id@ == record.transition_id@);
                    assert(canonical_json(c.prior_authority_head.canonical) == canonical_json(record.prior_authority_head.canonical));
                }
            }
        }
        return Err(checked.unwrap_err());
    }
    let raw_bytes = match encode_jcs_lf(&posture_record_json_text(&record)) {
        Some(b) => b,
        None => {
            proof {
                assert forall|c: PostureTransitionRecordV1|
                    posture_record_matches_draft(c, d) implies !(posture_record_valid(c)
                    && posture_record_bytes_ok(c)) by {
                    if posture_record_valid(c) {
                        assert(posture_preimage_members(c) =~= posture_preimage_members(record));
                        assert(c.transition_fingerprint@ == record.transition_fingerprint@);
                        assert(c.transition_id@ == record.transition_id@);
                        assert(posture_record_json(c) =~= posture_record_json(record));
                    }
                }
            }
            return Err(invalid("posture transition 1.0", " cannot be canonicalized"));
        },
    };
    if raw_bytes.len() > MAX_POSTURE_RECORD_BYTES_V1 {
        proof {
            assert forall|c: PostureTransitionRecordV1|
                posture_record_matches_draft(c, d) implies !(posture_record_valid(c)
                && posture_record_bytes_ok(c)) by {
                if posture_record_valid(c) {
                    assert(posture_preimage_members(c) =~= posture_preimage_members(record));
                    assert(c.transition_fingerprint@ == record.transition_fingerprint@);
                    assert(c.transition_id@ == record.transition_id@);
                    assert(posture_record_json(c) =~= posture_record_json(record));
                }
            }
        }
        return Err(invalid("posture transition 1.0", " exceeds its byte bound"));
    }
    Ok(ValidatedPostureTransitionV1 { record, raw_bytes })
}

/// The reference and fingerprint by which other records bind a posture transition.
pub open spec fn posture_pair_of(t: PostureTransitionRecordV1) -> (Seq<char>, Seq<char>) {
    ("posture-transitions/"@ + t.transition_id@ + ".json"@, t.transition_fingerprint@)
}

pub fn posture_transition_pair_v1(transition: &ValidatedPostureTransitionV1) -> (r: PairV1)
    ensures
        (r.reference@, r.fingerprint@) == posture_pair_of(transition.record),
{
    let mut reference = chars_of("posture-transitions/");
    let mut id = chars_of(transition.record.transition_id.as_str());
    let mut suffix = chars_of(".json");
    reference.append(&mut id);
    reference.append(&mut suffix);
    PairV1 { reference: string_of(&reference), fingerprint: transition.record.transition_fingerprint.clone() }
}

pub fn posture_transition_output_record_v1(transition: &ValidatedPostureTransitionV1) -> (r: OutputRecordV1)
    ensures
        (r.reference@, r.fingerprint@) == posture_pair_of(transition.record),
        r.document_sha256@ == content_fingerprint(transition.raw_bytes@),
        r.byte_length == transition.raw_bytes@.len(),
{
    let pair = posture_transition_pair_v1(transition);
    OutputRecordV1 {
        reference: pair.reference,
        fingerprint: transition.record.transition_fingerprint.clone(),
        document_sha256: string_of(&fingerprint_of_bytes(transition.raw_bytes.as_slice())),
        byte_length: transition.raw_bytes.len() as u64,
    }
}

/// The commit marker of posture transition bytes.
pub fn posture_transition_marker_v1(record_bytes: &[u8]) -> (r: Vec<u8>)
    ensures
        r@ == marker_of(record_bytes@),
        r@.len() == 72,
{
    commit_marker(record_bytes)
}

/// The commit marker of posture transaction intent bytes.
pub fn posture_transaction_intent_marker_v1(intent_bytes: &[u8]) -> (r: Vec<u8>)
    ensures
        r@ == marker_of(intent_bytes@),
        r@.len() == 72,
{
    commit_marker(intent_bytes)
}

// ---------------------------------------------------------------------------
// Posture transaction intents
// ---------------------------------------------------------------------------

/// Exact canonical bytes: a valid binding whose length and document hash the bytes carry.
pub open spec fn exact_canonical_bytes(bytes: Seq<u8>, c: CanonicalDocumentV1) -> bool {
    &&& canonical_document_valid(c)
    &&& 0 < bytes.len() <= MAX_POSTURE_CANONICAL_BYTES_V1
    &&& bytes.len() == c.byte_length
    &&& content_fingerprint(bytes) == c.document_sha256@
}

pub fn validate_exact_canonical_bytes_v1(bytes: &[u8], canonical: &CanonicalDocumentV1, label: &str) -> (r:
    Result<(), PostureRecordValidationErrorV1>)
    ensures
        r is Ok <==> exact_canonical_bytes(bytes@, *canonical),
{
    validate_canonical_document_v1(canonical, label)?;
    if bytes.len() == 0 || bytes.len() as u64 > MAX_POSTURE_CANONICAL_BYTES_V1 || bytes.len() as u64
        != canonical.byte_length {
        return Err(invalid(label, " bytes differ from their exact canonical binding"));
    }
    let digest = fingerprint_of_bytes(bytes);
    if !chars_eq(&digest, &chars_of(canonical.document_sha256.as_str())) {
        return Err(invalid(label, " bytes differ from their exact canonical binding"));
    }
    Ok(())
}

/// The authority inputs of an intent: three valid pairs, one to sixteen sorted approvals, a
/// safe authorizing actor and a valid reassessment.
pub open spec fn authority_inputs_valid(a: PostureAuthorityInputsV1) -> bool {
    &&& pair_valid(a.recommendation)
    &&& pair_valid(a.source_kernel)
    &&& pair_valid(a.evaluation_policy)
    &&& sorted_pairs_valid(a.approval_inputs@, 1, 16)
    &&& is_safe_ref(a.authorized_by_ref@, 256)
    &&& reassessment_valid(a.reassessment)
}

pub fn validate_authority_inputs_v1(value: &PostureAuthorityInputsV1) -> (r: Result<
    (),
    PostureRecordValidationErrorV1,
>)
    ensures
        r is Ok <==> authority_inputs_valid(*value),
{
    validate_pair_v1(&value.recommendation, "intent recommendation")?;
    validate_pair_v1(&value.source_kernel, "intent source kernel")?;
    validate_pair_v1(&value.evaluation_policy, "intent evaluation policy")?;
    validate_sorted_pairs_v1(&value.approval_inputs, 1, 16, "intent approval inputs")?;
    validate_safe_ref_v1(value.authorized_by_ref.as_str(), 256, "intent authorized-by ref")?;
    validate_reassessment_v1(&value.reassessment)
}

/// A well-formed posture transaction intent whose fingerprint covers every other member.
pub open spec fn intent_record_valid(r: PostureTransactionIntentV1) -> bool {
    &&& r.schema_id@ == "handbook.charter-posture-transaction-intent"@
    &&& r.schema_version@ == "1.0"@
    &&& r.mutation_mode@ == "single_dimension_level_override_replace"@
    &&& r.recovery.old_canonical_status@ == "present"@
    &&& transaction_id_valid(r.transaction_id@)
    &&& head_valid(r.basis_head)
    &&& canonical_document_valid(r.expected_canonical)
    &&& change_valid(r.change)
    &&& authority_inputs_valid(r.authority_inputs)
    &&& canonical_document_valid(r.outputs.canonical)
    &&& output_record_valid(
        r.outputs.posture_transition,
        "posture-transitions/posture-transition_"@,
        ".json"@,
    )
    &&& output_record_valid(
        r.outputs.lifecycle_transition,
        "lifecycle-transitions/lifecycle-transition_"@,
        ".json"@,
    )
    &&& replay_valid(r.kernel_replay, r.change, r.expected_canonical, r.outputs.canonical)
    &&& canonical_document_valid(r.recovery.old_canonical)
    &&& canonical_json(r.basis_head.canonical) == canonical_json(r.expected_canonical)
    &&& canonical_json(r.recovery.old_canonical) == canonical_json(r.expected_canonical)
    &&& is_fingerprint(r.intent_fingerprint@)
    &&& json_fingerprint(intent_preimage_json(r)) == Some(r.intent_fingerprint@)
}

pub fn validate_posture_transaction_intent_record_v1(record: &PostureTransactionIntentV1) -> (r:
    Result<(), PostureRecordValidationErrorV1>)
    ensures
        r is Ok <==> intent_record_valid(*record),
{
    if !chars_eq(
        &chars_of(record.schema_id.as_str()),
        &chars_of("handbook.charter-posture-transaction-intent"),
    ) || !chars_eq(&chars_of(record.schema_version.as_str()), &chars_of("1.0")) || !chars_eq(
        &chars_of(record.mutation_mode.as_str()),
        &chars_of("single_dimension_level_override_replace"),
    ) || !chars_eq(&chars_of(record.recovery.old_canonical_status.as_str()), &chars_of("present")) {
        return Err(invalid("posture transaction intent", " schema or constants are invalid"));
    }
    validate_transaction_id_v1(record.transaction_id.as_str())?;
    validate_authority_head_v1(&record.basis_head)?;
    validate_canonical_document_v1(&record.expected_canonical, "intent expected canonical")?;
    validate_change_v1(&record.change)?;
    validate_authority_inputs_v1(&record.authority_inputs)?;
    validate_canonical_document_v1(&record.outputs.canonical, "intent output canonical")?;
    validate_output_record_v1(
        &record.outputs.posture_transition,
        "posture-transitions/posture-transition_",
        ".json",
        "intent posture output",
    )?;
    validate_output_record_v1(
        &record.outputs.lifecycle_transition,
        "lifecycle-transitions/lifecycle-transition_",
        ".json",
        "intent lifecycle output",
    )?;
    validate_kernel_replay_v1(
        &record.kernel_replay,
        &record.change,
        &record.expected_canonical,
        &record.outputs.canonical,
    )?;
    validate_canonical_document_v1(&record.recovery.old_canonical, "intent old canonical")?;
    if !same_canonical(&record.basis_head.canonical, &record.expected_canonical) || !same_canonical(
        &record.recovery.old_canonical,
        &record.expected_canonical,
    ) {
        return Err(
            invalid("posture transaction intent", " basis/recovery canonical values differ"),
        );
    }
    validate_fingerprint_v1(record.intent_fingerprint.as_str(), "posture intent fingerprint")?;
    let computed = match fingerprint_json(&intent_preimage_json_text(record)) {
        Some(f) => f,
        None => {
            return Err(
                invalid("posture transaction intent 1.0", " fingerprint preimage is not canonical"),
            );
        },
    };
    if !chars_eq(&chars_of(record.intent_fingerprint.as_str()), &computed) {
        return Err(invalid("posture intent fingerprint", " has an invalid complete preimage"));
    }
    Ok(())
}

/// Two kernel replay dimensions with the same values.
pub open spec fn same_dimension(a: KernelReplayDimensionV1, b: KernelReplayDimensionV1) -> bool {
    &&& a.dimension_id == b.dimension_id
    &&& a.source_effective_level == b.source_effective_level
    &&& a.resulting_effective_level == b.resulting_effective_level
    &&& a.floor == b.floor
    &&& a.red_line_refs@ == b.red_line_refs@
    &&& a.trigger_refs@ == b.trigger_refs@
    &&& a.allowed_shortcut_refs@ == b.allowed_shortcut_refs@
    &&& a.proof_obligation_refs@ == b.proof_obligation_refs@
}

/// Two kernel replays with the same values.
pub open spec fn same_replay(a: KernelReplayV1, b: KernelReplayV1) -> bool {
    &&& a.constitutional_artifact_ref == b.constitutional_artifact_ref
    &&& a.source_authority_fingerprint == b.source_authority_fingerprint
    &&& a.resulting_authority_fingerprint == b.resulting_authority_fingerprint
    &&& a.source_input_fingerprint == b.source_input_fingerprint
    &&& a.resulting_input_fingerprint == b.resulting_input_fingerprint
    &&& a.profile_input == b.profile_input
    &&& a.override_inputs@ == b.override_inputs@
    &&& a.condition_inputs@ == b.condition_inputs@
    &&& a.contract_inputs@ == b.contract_inputs@
    &&& a.evidence_inputs@ == b.evidence_inputs@
    &&& a.snapshot_inputs@ == b.snapshot_inputs@
    &&& a.freshness_basis == b.freshness_basis
    &&& a.dimensions@.len() == b.dimensions@.len()
    &&& forall|i: int| 0 <= i < a.dimensions@.len() ==> same_dimension(#[trigger] a.dimensions@[i], b.dimensions@[i])
    &&& a.applicable_scope_refs@ == b.applicable_scope_refs@
    &&& a.omitted_condition_refs@ == b.omitted_condition_refs@
    &&& a.unresolved_condition_refs@ == b.unresolved_condition_refs@
}

/// Replays with the same values have the same JSON and are valid together.
pub proof fn lemma_same_replay(
    a: KernelReplayV1,
    b: KernelReplayV1,
    change: PostureChangeV1,
    expected: CanonicalDocumentV1,
    resulting: CanonicalDocumentV1,
)
    requires
        same_replay(a, b),
    ensures
        replay_json(a) == replay_json(b),
        replay_valid(a, change, expected, resulting) == replay_valid(b, change, expected, resulting),
{
    reveal(replay_json);
    reveal(dimensions_json);
    reveal(dimension_json);
    assert forall|i: int| 0 <= i < a.dimensions@.len() implies dimension_json(#[trigger] a.dimensions@[i])
        == dimension_json(b.dimensions@[i]) by {
        assert(same_dimension(a.dimensions@[i], b.dimensions@[i]));
    }
    assert(a.dimensions@.map_values(|d: KernelReplayDimensionV1| dimension_json(d)) =~= b.dimensions@.map_values(
        |d: KernelReplayDimensionV1| dimension_json(d),
    ));
    if replay_valid(a, change, expected, resulting) {
        assert forall|i: int| 0 <= i < 9 implies dimension_valid(#[trigger] b.dimensions@[i], i, change) by {
            assert(same_dimension(a.dimensions@[i], b.dimensions@[i]));
            assert(dimension_valid(a.dimensions@[i], i, change));
        }
    }
    if replay_valid(b, change, expected, resulting) {
        assert forall|i: int| 0 <= i < 9 implies dimension_valid(#[trigger] a.dimensions@[i], i, change) by {
            assert(same_dimension(a.dimensions@[i], b.dimensions@[i]));
            assert(dimension_valid(b.dimensions@[i], i, change));
        }
    }
}

fn copy_pair_v1(p: &PairV1) -> (r: PairV1)
    ensures
        r == *p,
{
    PairV1 { reference: p.reference.clone(), fingerprint: p.fingerprint.clone() }
}

fn copy_canonical_v1(c: &CanonicalDocumentV1) -> (r: CanonicalDocumentV1)
    ensures
        r == *c,
{
    CanonicalDocumentV1 {
        reference: c.reference.clone(),
        fingerprint: c.fingerprint.clone(),
        document_sha256: c.document_sha256.clone(),
        byte_length: c.byte_length,
    }
}

fn copy_head_v1(h: &AuthorityHeadV1) -> (r: AuthorityHeadV1)
    ensures
        r == *h,
{
    AuthorityHeadV1 {
        kind: h.kind.clone(),
        source: copy_pair_v1(&h.source),
        canonical: copy_canonical_v1(&h.canonical),
        lifecycle_transition: copy_pair_v1(&h.lifecycle_transition),
        promotion_ancestor: copy_pair_v1(&h.promotion_ancestor),
    }
}

fn copy_change_v1(c: &PostureChangeV1) -> (r: PostureChangeV1)
    ensures
        r == *c,
{
    PostureChangeV1 {
        dimension_id: c.dimension_id.clone(),
        dimension_index: c.dimension_index,
        authority_path: c.authority_path.clone(),
        operation: c.operation.clone(),
        baseline_level: c.baseline_level,
        expected_stored_value: c.expected_stored_value,
        expected_effective_level: c.expected_effective_level,
        proposed_stored_value: c.proposed_stored_value,
        proposed_effective_level: c.proposed_effective_level,
    }
}

fn copy_dimension_v1(d: &KernelReplayDimensionV1) -> (r: KernelReplayDimensionV1)
    ensures
        same_dimension(r, *d),
{
    KernelReplayDimensionV1 {
        dimension_id: d.dimension_id.clone(),
        source_effective_level: d.source_effective_level,
        resulting_effective_level: d.resulting_effective_level,
        floor: d.floor,
        red_line_refs: crate::charter_lifecycle::copy_strings(&d.red_line_refs),
        trigger_refs: crate::charter_lifecycle::copy_strings(&d.trigger_refs),
        allowed_shortcut_refs: crate::charter_lifecycle::copy_strings(&d.allowed_shortcut_refs),
        proof_obligation_refs: crate::charter_lifecycle::copy_strings(&d.proof_obligation_refs),
    }
}

fn copy_replay_v1(k: &KernelReplayV1) -> (r: KernelReplayV1)
    ensures
        same_replay(r, *k),
{
    let mut dimensions: Vec<KernelReplayDimensionV1> = Vec::new();
    let mut i: usize = 0;
    while i < k.dimensions.len()
        invariant
            i <= k.dimensions.len(),
            dimensions.len() == i,
            forall|j: int| 0 <= j < i ==> same_dimension(#[trigger] dimensions@[j], k.dimensions@[j]),
        decreases k.dimensions.len() - i,
    {
        dimensions.push(copy_dimension_v1(&k.dimensions[i]));
        i = i + 1;
    }
    KernelReplayV1 {
        constitutional_artifact_ref: k.constitutional_artifact_ref.clone(),
        source_authority_fingerprint: k.source_authority_fingerprint.clone(),
        resulting_authority_fingerprint: k.resulting_authority_fingerprint.clone(),
        source_input_fingerprint: k.source_input_fingerprint.clone(),
        resulting_input_fingerprint: k.resulting_input_fingerprint.clone(),
        profile_input: copy_pair_v1(&k.profile_input),
        override_inputs: copy_pairs(&k.override_inputs),
        condition_inputs: copy_pairs(&k.condition_inputs),
        contract_inputs: copy_pairs(&k.contract_inputs),
        evidence_inputs: copy_pairs(&k.evidence_inputs),
        snapshot_inputs: copy_pairs(&k.snapshot_inputs),
        freshness_basis: match &k.freshness_basis {
            Some(p) => Some(copy_pair_v1(p)),
            None => None,
        },
        dimensions,
        applicable_scope_refs: crate::charter_lifecycle::copy_strings(&k.applicable_scope_refs),
        omitted_condition_refs: crate::charter_lifecycle::copy_strings(&k.omitted_condition_refs),
        unresolved_condition_refs: crate::charter_lifecycle::copy_strings(
            &k.unresolved_condition_refs,
        ),
    }
}

/// The intent binds its transition exactly: the fixed constants, the posture's basis head,
/// canonical bindings, change, authority inputs and replay, and the output records of the
/// posture and lifecycle transitions as they stand in their bytes.
pub open spec fn intent_matches(
    r: PostureTransactionIntentV1,
    p: PostureTransitionRecordV1,
    posture_bytes: Seq<u8>,
    l: LifecycleTransitionRecordV11,
    lifecycle_bytes: Seq<u8>,
) -> bool {
    &&& r.schema_id@ == "handbook.charter-posture-transaction-intent"@
    &&& r.schema_version@ == "1.0"@
    &&& r.mutation_mode@ == "single_dimension_level_override_replace"@
    &&& r.basis_head == p.prior_authority_head
    &&& r.expected_canonical == p.expected_canonical
    &&& r.change == p.change
    &&& r.authority_inputs.recommendation == p.recommendation
    &&& r.authority_inputs.source_kernel == p.source_kernel
    &&& r.authority_inputs.evaluation_policy == p.evaluation_policy
    &&& r.authority_inputs.approval_inputs@ == p.approval_inputs@
    &&& r.authority_inputs.authorized_by_ref == p.authorized_by_ref
    &&& same_reassessment(r.authority_inputs.reassessment, p.reassessment)
    &&& r.outputs.canonical == p.resulting_canonical
    &&& (r.outputs.posture_transition.reference@, r.outputs.posture_transition.fingerprint@)
        == posture_pair_of(p)
    &&& r.outputs.posture_transition.document_sha256@ == content_fingerprint(posture_bytes)
    &&& r.outputs.posture_transition.byte_length == posture_bytes.len()
    &&& r.outputs.lifecycle_transition.reference@ == "lifecycle-transitions/"@ + l.transition_id@
        + ".json"@
    &&& r.outputs.lifecycle_transition.fingerprint@ == l.transition_fingerprint@
    &&& r.outputs.lifecycle_transition.document_sha256@ == content_fingerprint(lifecycle_bytes)
    &&& r.outputs.lifecycle_transition.byte_length == lifecycle_bytes.len()
    &&& same_replay(r.kernel_replay, p.kernel_replay)
    &&& r.recovery.old_canonical_status@ == "present"@
    &&& r.recovery.old_canonical == p.expected_canonical
}

/// The intent bytes: canonical JSON and a line feed, within the record bound.
pub open spec fn intent_record_bytes_ok(r: PostureTransactionIntentV1) -> bool {
    jcs_lf_bytes(intent_record_json(r)) matches Some(b) && b.len() <= MAX_POSTURE_RECORD_BYTES_V1
}

/// Two intents that bind the same transitions under the same transaction ID share their
/// fingerprint preimage; with the same fingerprint too, they have the same JSON and are valid
/// together.
pub proof fn lemma_intents_agree(
    c: PostureTransactionIntentV1,
    record: PostureTransactionIntentV1,
    p: PostureTransitionRecordV1,
    posture_bytes: Seq<u8>,
    l: LifecycleTransitionRecordV11,
    lifecycle_bytes: Seq<u8>,
)
    requires
        intent_matches(c, p, posture_bytes, l, lifecycle_bytes),
        intent_matches(record, p, posture_bytes, l, lifecycle_bytes),
        c.transaction_id@ == record.transaction_id@,
    ensures
        intent_preimage_members(c) == intent_preimage_members(record),
        c.intent_fingerprint@ == record.intent_fingerprint@ ==> intent_record_json(c)
            == intent_record_json(record) && intent_record_valid(c) == intent_record_valid(record),
{
    reveal(crate::posture_records::authority_inputs_json);
    reveal(crate::posture_records::outputs_json);
    reveal(crate::posture_records::recovery_json);
    reveal(crate::posture_records::output_json);
    lemma_same_reassessment(c.authority_inputs.reassessment, p.reassessment);
    lemma_same_reassessment(record.authority_inputs.reassessment, p.reassessment);
    lemma_same_replay(c.kernel_replay, p.kernel_replay, c.change, c.expected_canonical, c.outputs.canonical);
    lemma_same_replay(record.kernel_replay, p.kernel_replay, c.change, c.expected_canonical, c.outputs.canonical);
    assert(intent_preimage_members(c) =~= intent_preimage_members(record));
    if c.intent_fingerprint@ == record.intent_fingerprint@ {
        assert(intent_record_json(c) =~= intent_record_json(record));
    }
}

/// Builds the intent of a posture transaction under a given transaction ID: its fingerprint
/// covers every other member, the record is validated, and its bytes are canonical JSON and a
/// line feed. Refused exactly when no valid, encodable intent under that ID binds the
/// transitions.
pub fn posture_transaction_intent_for_id(
    posture: &ValidatedPostureTransitionV1,
    lifecycle: &ValidatedLifecycleTransitionV11,
    transaction_id: String,
) -> (r: Result<ValidatedPostureTransactionIntentV1, PostureRecordValidationErrorV1>)
    ensures
        r matches Ok(v) ==> v.record.transaction_id@ == transaction_id@ && intent_matches(
            v.record,
            posture.record,
            posture.raw_bytes@,
            lifecycle.record,
            lifecycle.raw_bytes@,
        ) && intent_record_valid(v.record) && jcs_lf_bytes(intent_record_json(v.record)) == Some(
            v.raw_bytes@,
        ) && v.raw_bytes@.len() <= MAX_POSTURE_RECORD_BYTES_V1,
        r is Err ==> forall|c: PostureTransactionIntentV1|
            intent_matches(c, posture.record, posture.raw_bytes@, lifecycle.record, lifecycle.raw_bytes@)
                && c.transaction_id@ == transaction_id@ ==> !(intent_record_valid(c)
                && intent_record_bytes_ok(c)),
{
    let ghost tid = transaction_id@;
    let mut record = PostureTransactionIntentV1 {
        schema_id: "handbook.charter-posture-transaction-intent".to_owned(),
        schema_version: "1.0".to_owned(),
        transaction_id,
        mutation_mode: "single_dimension_level_override_replace".to_owned(),
        basis_head: copy_head_v1(&posture.record.prior_authority_head),
        expected_canonical: copy_canonical_v1(&posture.record.expected_canonical),
        change: copy_change_v1(&posture.record.change),
        authority_inputs: PostureAuthorityInputsV1 {
            recommendation: copy_pair_v1(&posture.record.recommendation),
            source_kernel: copy_pair_v1(&posture.record.source_kernel),
            evaluation_policy: copy_pair_v1(&posture.record.evaluation_policy),
            approval_inputs: copy_pairs(&posture.record.approval_inputs),
            authorized_by_ref: posture.record.authorized_by_ref.clone(),
            reassessment: copy_reassessment(&posture.record.reassessment),
        },
        outputs: PostureTransactionOutputsV1 {
            canonical: copy_canonical_v1(&posture.record.resulting_canonical),
            posture_transition: posture_transition_output_record_v1(posture),
            lifecycle_transition: lifecycle_transition_output_record_v11(lifecycle),
        },
        kernel_replay: copy_replay_v1(&posture.record.kernel_replay),
        recovery: PostureTransactionRecoveryV1 {
            old_canonical_status: "present".to_owned(),
            old_canonical: copy_canonical_v1(&posture.record.expected_canonical),
        },
        intent_fingerprint: String::new(),
    };
    let ghost first = record;
    let fingerprint = match fingerprint_json(&intent_preimage_json_text(&record)) {
        Some(f) => f,
        None => {
            proof {
                assert forall|c: PostureTransactionIntentV1|
                    intent_matches(c, posture.record, posture.raw_bytes@, lifecycle.record, lifecycle.raw_bytes@)
                        && c.transaction_id@ == tid implies !(intent_record_valid(c)
                    && intent_record_bytes_ok(c)) by {
                    lemma_intents_agree(c, first, posture.record, posture.raw_bytes@, lifecycle.record, lifecycle.raw_bytes@);
                }
            }
            return Err(
                invalid("posture transaction intent 1.0", " fingerprint preimage is not canonical"),
            );
        },
    };
    record.intent_fingerprint = string_of(&fingerprint);
    proof {
        lemma_intents_agree(record, first, posture.record, posture.raw_bytes@, lifecycle.record, lifecycle.raw_bytes@);
    }
    let checked = validate_posture_transaction_intent_record_v1(&record);
    if checked.is_err() {
        proof {
            assert forall|c: PostureTransactionIntentV1|
                intent_matches(c, posture.record, posture.raw_bytes@, lifecycle.record, lifecycle.raw_bytes@)
                    && c.transaction_id@ == tid implies !(intent_record_valid(c)
                && intent_record_bytes_ok(c)) by {
                lemma_intents_agree(c, record, posture.record, posture.raw_bytes@, lifecycle.record, lifecycle.raw_bytes@);
            }
        }
        return Err(checked.unwrap_err());
    }
    let raw_bytes = match encode_jcs_lf(&intent_record_json_text(&record)) {
        Some(b) => b,
        None => {
            proof {
                assert forall|c: PostureTransactionIntentV1|
                    intent_matches(c, posture.record, posture.raw_bytes@, lifecycle.record, lifecycle.raw_bytes@)
                        && c.transaction_id@ == tid implies !(intent_record_valid(c)
                    && intent_record_bytes_ok(c)) by {
                    lemma_intents_agree(c, record, posture.record, posture.raw_bytes@, lifecycle.record, lifecycle.raw_bytes@);
                }
            }
            return Err(invalid("posture transaction intent 1.0", " cannot be canonicalized"));
        },
    };
    if raw_bytes.len() > MAX_POSTURE_RECORD_BYTES_V1 {
        proof {
            assert forall|c: PostureTransactionIntentV1|
                intent_matches(c, posture.record, posture.raw_bytes@, lifecycle.record, lifecycle.raw_bytes@)
                    && c.transaction_id@ == tid implies !(intent_record_valid(c)
                && intent_record_bytes_ok(c)) by {
                lemma_intents_agree(c, record, posture.record, posture.raw_bytes@, lifecycle.record, lifecycle.raw_bytes@);
            }
        }
        return Err(invalid("posture transaction intent 1.0", " exceeds its byte bound"));
    }
    Ok(ValidatedPostureTransactionIntentV1 { record, raw_bytes })
}

/// `getrandom::fill` on a fresh buffer of 16 bytes: `Some` of the 16 bytes from the system's
/// random source, or `None` when the source fails. Which bytes come back is left unsaid: they
/// depend on chance.
#[verifier::external_body]
fn random_128_bits() -> (r: Option<Vec<u8>>)
    ensures
        r matches Some(b) ==> b@.len() == 16,
{
    let mut random = [0u8; 16];
    match getrandom::fill(&mut random) {
        Ok(()) => Some(random.to_vec()),
        Err(_) => None,
    }
}

/// The transaction ID that carries 16 random bytes.
pub fn transaction_id_from_random(random: &Vec<u8>) -> (r: String)
    requires
        random@.len() == 16,
    ensures
        r@ == "posture-transaction_"@ + crate::digest::hex_of(random@),
        transaction_id_valid(r@),
{
    let mut id = chars_of("posture-transaction_");
    let mut hex = crate::digest::hex_text(random.as_slice());
    proof {
        crate::digest::lemma_hex_of(random@);
    }
    let ghost h = hex@;
    id.append(&mut hex);
    proof {
        let prefix = "posture-transaction_"@;
        assert(id@.take(prefix.len() as int) =~= prefix);
        assert(id@.skip(prefix.len() as int) =~= h);
    }
    string_of(&id)
}

/// Allocates a fresh posture transaction ID: up to 64 draws of 128 random bits, keeping the
/// first ID that `transaction_id_available` accepts.
pub fn allocate_transaction_id_v1<F: Fn(&str) -> bool>(transaction_id_available: &F) -> (r: Result<
    String,
    PostureRecordValidationErrorV1,
>)
    requires
        forall|s: &str| transaction_id_available.requires((s,)),
    ensures
        r matches Ok(id) ==> transaction_id_valid(id@) && exists|s: &str|
            s@ == id@ && transaction_id_available.ensures((s,), true),
{
    let mut attempt: usize = 0;
    while attempt < 64
        invariant
            forall|s: &str| transaction_id_available.requires((s,)),
        decreases 64 - attempt,
    {
        let random = match random_128_bits() {
            Some(b) => b,
            None => {
                return Err(invalid("posture transaction random", " allocation failed"));
            },
        };
        let id = transaction_id_from_random(&random);
        let available = transaction_id_available(id.as_str());
        if available {
            return Ok(id);
        }
        attempt = attempt + 1;
    }
    Err(invalid("posture transaction ID", " allocation exhausted collision retries"))
}

/// Constructs the intent of a posture transaction: the lifecycle transition must bind the
/// posture transition, and the old and new canonical bytes must be the exact bytes that it
/// binds; the transaction ID is freshly allocated.
pub fn construct_posture_transaction_intent_v1<F: Fn(&str) -> bool>(
    posture: &ValidatedPostureTransitionV1,
    lifecycle: &ValidatedLifecycleTransitionV11,
    old_canonical_bytes: &[u8],
    new_canonical_bytes: &[u8],
    transaction_id_available: F,
) -> (r: Result<ValidatedPostureTransactionIntentV1, PostureRecordValidationErrorV1>)
    requires
        forall|s: &str| transaction_id_available.requires((s,)),
    ensures
        !lifecycle_bindings_valid(lifecycle.record, posture.record) || !exact_canonical_bytes(
            old_canonical_bytes@,
            posture.record.expected_canonical,
        ) || !exact_canonical_bytes(new_canonical_bytes@, posture.record.resulting_canonical)
            ==> r is Err,
        r matches Ok(v) ==> {
            &&& lifecycle_bindings_valid(lifecycle.record, posture.record)
            &&& exact_canonical_bytes(old_canonical_bytes@, posture.record.expected_canonical)
            &&& exact_canonical_bytes(new_canonical_bytes@, posture.record.resulting_canonical)
            &&& exists|s: &str|
                s@ == v.record.transaction_id@ && transaction_id_available.ensures((s,), true)
            &&& intent_matches(
                v.record,
                posture.record,
                posture.raw_bytes@,
                lifecycle.record,
                lifecycle.raw_bytes@,
            )
            &&& intent_record_valid(v.record)
            &&& jcs_lf_bytes(intent_record_json(v.record)) == Some(v.raw_bytes@)
            &&& v.raw_bytes@.len() <= MAX_POSTURE_RECORD_BYTES_V1
        },
{
    validate_lifecycle_transition_bindings_v11(lifecycle, posture)?;
    validate_exact_canonical_bytes_v1(
        old_canonical_bytes,
        &posture.record.expected_canonical,
        "old canonical",
    )?;
    validate_exact_canonical_bytes_v1(
        new_canonical_bytes,
        &posture.record.resulting_canonical,
        "new canonical",
    )?;
    let transaction_id = allocate_transaction_id_v1(&transaction_id_available)?;
    posture_transaction_intent_for_id(posture, lifecycle, transaction_id)
}

/// An intent that binds exactly the given transitions and canonical bytes.
pub open spec fn intent_bindings_valid(
    i: PostureTransactionIntentV1,
    p: ValidatedPostureTransitionV1,
    l: ValidatedLifecycleTransitionV11,
    old_bytes: Seq<u8>,
    new_bytes: Seq<u8>,
) -> bool {
    &&& intent_record_valid(i)
    &&& posture_record_valid(p.record)
    &&& lifecycle_bindings_valid(l.record, p.record)
    &&& exact_canonical_bytes(old_bytes, i.recovery.old_canonical)
    &&& exact_canonical_bytes(new_bytes, i.outputs.canonical)
    &&& head_json(i.basis_head) == head_json(p.record.prior_authority_head)
    &&& canonical_json(i.expected_canonical) == canonical_json(p.record.expected_canonical)
    &&& canonical_json(i.basis_head.canonical) == canonical_json(i.expected_canonical)
    &&& change_json(i.change) == change_json(p.record.change)
    &&& pair_json(i.authority_inputs.recommendation) == pair_json(p.record.recommendation)
    &&& pair_json(i.authority_inputs.source_kernel) == pair_json(p.record.source_kernel)
    &&& pair_json(i.authority_inputs.evaluation_policy) == pair_json(p.record.evaluation_policy)
    &&& pairs_json(i.authority_inputs.approval_inputs@) == pairs_json(p.record.approval_inputs@)
    &&& i.authority_inputs.authorized_by_ref@ == p.record.authorized_by_ref@
    &&& reassessment_json(i.authority_inputs.reassessment) == reassessment_json(p.record.reassessment)
    &&& replay_json(i.kernel_replay) == replay_json(p.record.kernel_replay)
    &&& canonical_json(i.outputs.canonical) == canonical_json(p.record.resulting_canonical)
    &&& canonical_json(i.recovery.old_canonical) == canonical_json(p.record.expected_canonical)
    &&& (i.outputs.posture_transition.reference@, i.outputs.posture_transition.fingerprint@)
        == posture_pair_of(p.record)
    &&& i.outputs.posture_transition.document_sha256@ == content_fingerprint(p.raw_bytes@)
    &&& i.outputs.posture_transition.byte_length == p.raw_bytes@.len()
    &&& i.outputs.lifecycle_transition.reference@ == "lifecycle-transitions/"@ + l.record.transition_id@
        + ".json"@
    &&& i.outputs.lifecycle_transition.fingerprint@ == l.record.transition_fingerprint@
    &&& i.outputs.lifecycle_transition.document_sha256@ == content_fingerprint(l.raw_bytes@)
    &&& i.outputs.lifecycle_transition.byte_length == l.raw_bytes@.len()
}

fn same_output(a: &OutputRecordV1, b: &OutputRecordV1) -> (r: bool)
    ensures
        r == (a.reference@ == b.reference@ && a.fingerprint@ == b.fingerprint@ && a.document_sha256@
            == b.document_sha256@ && a.byte_length == b.byte_length),
{
    a.reference == b.reference && a.fingerprint == b.fingerprint && a.document_sha256
        == b.document_sha256 && a.byte_length == b.byte_length
}

/// Checks that an intent binds exactly the given transitions and canonical bytes.
pub fn validate_posture_transaction_intent_bindings_v1(
    intent: &ValidatedPostureTransactionIntentV1,
    posture: &ValidatedPostureTransitionV1,
    lifecycle: &ValidatedLifecycleTransitionV11,
    old_canonical_bytes: &[u8],
    new_canonical_bytes: &[u8],
) -> (r: Result<(), PostureRecordValidationErrorV1>)
    ensures
        r is Ok <==> intent_bindings_valid(
            intent.record,
            *posture,
            *lifecycle,
            old_canonical_bytes@,
            new_canonical_bytes@,
        ),
{
    validate_posture_transaction_intent_record_v1(&intent.record)?;
    validate_posture_transition_record_v1(&posture.record)?;
    validate_lifecycle_transition_bindings_v11(lifecycle, posture)?;
    validate_exact_canonical_bytes_v1(
        old_canonical_bytes,
        &intent.record.recovery.old_canonical,
        "intent old canonical",
    )?;
    validate_exact_canonical_bytes_v1(
        new_canonical_bytes,
        &intent.record.outputs.canonical,
        "intent new canonical",
    )?;
    let record = &intent.record;
    let p = &posture.record;
    if !chars_eq(&head_json_text(&record.basis_head), &head_json_text(&p.prior_authority_head))
        || !same_canonical(&record.expected_canonical, &p.expected_canonical) || !same_canonical(
        &record.basis_head.canonical,
        &record.expected_canonical,
    ) || !chars_eq(&change_json_text(&record.change), &change_json_text(&p.change)) || !chars_eq(
        &pair_json_text(&record.authority_inputs.recommendation),
        &pair_json_text(&p.recommendation),
    ) || !chars_eq(
        &pair_json_text(&record.authority_inputs.source_kernel),
        &pair_json_text(&p.source_kernel),
    ) || !chars_eq(
        &pair_json_text(&record.authority_inputs.evaluation_policy),
        &pair_json_text(&p.evaluation_policy),
    ) || !chars_eq(
        &pairs_json_text(&record.authority_inputs.approval_inputs),
        &pairs_json_text(&p.approval_inputs),
    ) || !(record.authority_inputs.authorized_by_ref == p.authorized_by_ref) || !chars_eq(
        &reassessment_json_text(&record.authority_inputs.reassessment),
        &reassessment_json_text(&p.reassessment),
    ) || !chars_eq(&replay_json_text(&record.kernel_replay), &replay_json_text(&p.kernel_replay))
        || !same_canonical(&record.outputs.canonical, &p.resulting_canonical) || !same_canonical(
        &record.recovery.old_canonical,
        &p.expected_canonical,
    ) {
        return Err(
            invalid("posture transaction intent", " has substituted posture bindings"),
        );
    }
    if !same_output(&record.outputs.posture_transition, &posture_transition_output_record_v1(posture))
        || !same_output(
        &record.outputs.lifecycle_transition,
        &lifecycle_transition_output_record_v11(lifecycle),
    ) {
        return Err(
            invalid("posture transaction intent", " output record bindings are substituted"),
        );
    }
    Ok(())
}

/// An intent built for a posture transition binds it: whatever transaction ID was drawn, the
/// constructed intent passes the binding check against the same transitions and bytes.
pub proof fn lemma_constructed_intent_binds(
    i: PostureTransactionIntentV1,
    p: ValidatedPostureTransitionV1,
    l: ValidatedLifecycleTransitionV11,
    old_bytes: Seq<u8>,
    new_bytes: Seq<u8>,
)
    requires
        intent_matches(i, p.record, p.raw_bytes@, l.record, l.raw_bytes@),
        intent_record_valid(i),
        posture_record_valid(p.record),
        lifecycle_bindings_valid(l.record, p.record),
        exact_canonical_bytes(old_bytes, p.record.expected_canonical),
        exact_canonical_bytes(new_bytes, p.record.resulting_canonical),
    ensures
        intent_bindings_valid(i, p, l, old_bytes, new_bytes),
{
    lemma_same_reassessment(i.authority_inputs.reassessment, p.record.reassessment);
    lemma_same_replay(
        i.kernel_replay,
        p.record.kernel_replay,
        i.change,
        i.expected_canonical,
        i.outputs.canonical,
    );
    reveal(pairs_json);
}

/// Record bytes framed as one JCS text and exactly one line feed, within `max_bytes`.
pub open spec fn jcs_lf_framed(bytes: Seq<u8>, max_bytes: nat) -> bool {
    &&& 0 < bytes.len() <= max_bytes
    &&& bytes.last() == 10u8
    &&& !(bytes.len() >= 2 && bytes[bytes.len() - 2] == 10u8)
}

/// Checks the framing of record bytes.
pub fn check_jcs_lf_framing(bytes: &[u8], max_bytes: usize, label: &str) -> (r: Result<
    (),
    PostureRecordValidationErrorV1,
>)
    ensures
        r is Ok <==> jcs_lf_framed(bytes@, max_bytes as nat),
{
    let n = bytes.len();
    if n == 0 || n > max_bytes || bytes[n - 1] != 10u8 || (n >= 2 && bytes[n - 2] == 10u8) {
        return Err(invalid(label, " must be bounded exact JCS plus one LF"));
    }
    Ok(())
}

/// Checks that record bytes are exactly the canonical encoding of `json` and one line feed.
pub fn check_exact_encoding(bytes: &[u8], json: &Vec<char>, label: &str) -> (r: Result<
    (),
    PostureRecordValidationErrorV1,
>)
    ensures
        r is Ok <==> jcs_lf_bytes(json@) == Some(bytes@),
{
    let encoded = match encode_jcs_lf(json) {
        Some(b) => b,
        None => {
            return Err(invalid(label, " cannot be canonicalized"));
        },
    };
    if encoded.len() != bytes.len() {
        return Err(invalid(label, " bytes are not exact RFC 8785 JCS"));
    }
    let mut i: usize = 0;
    while i < bytes.len()
        invariant
            encoded.len() == bytes.len(),
            jcs_lf_bytes(json@) == Some(encoded@),
            i <= bytes.len(),
            forall|k: int| 0 <= k < i ==> encoded@[k] == bytes@[k],
        decreases bytes.len() - i,
    {
        if encoded[i] != bytes[i] {
            assert(encoded@[i as int] != bytes@[i as int]);
            assert(encoded@ != bytes@);
            return Err(invalid(label, " bytes are not exact RFC 8785 JCS"));
        }
        i = i + 1;
    }
    assert(encoded@ =~= bytes@);
    Ok(())
}

/// Accepts the bytes of a posture transition together with the record decoded from them:
/// the bytes must be framed, be exactly the canonical encoding of that record, and the record
/// must be valid.
pub fn parse_posture_transition_v1(bytes: &[u8], record: PostureTransitionRecordV1) -> (r: Result<
    ValidatedPostureTransitionV1,
    PostureRecordValidationErrorV1,
>)
    ensures
        r is Ok <==> jcs_lf_framed(bytes@, MAX_POSTURE_RECORD_BYTES_V1 as nat) && jcs_lf_bytes(
            posture_record_json(record),
        ) == Some(bytes@) && posture_record_valid(record),
        r matches Ok(v) ==> v.record == record && v.raw_bytes@ == bytes@,
{
    check_jcs_lf_framing(bytes, MAX_POSTURE_RECORD_BYTES_V1, "posture transition 1.0")?;
    check_exact_encoding(bytes, &posture_record_json_text(&record), "posture transition 1.0")?;
    validate_posture_transition_record_v1(&record)?;
    Ok(ValidatedPostureTransitionV1 { record, raw_bytes: crate::json::bytes_to_vec(bytes) })
}

/// Accepts the bytes of a posture transaction intent together with the record decoded from
/// them: the bytes must be framed, be exactly the canonical encoding of that record, and the
/// record must be valid.
pub fn parse_posture_transaction_intent_v1(bytes: &[u8], record: PostureTransactionIntentV1) -> (r:
    Result<ValidatedPostureTransactionIntentV1, PostureRecordValidationErrorV1>)
    ensures
        r is Ok <==> jcs_lf_framed(bytes@, MAX_POSTURE_RECORD_BYTES_V1 as nat) && jcs_lf_bytes(
            intent_record_json(record),
        ) == Some(bytes@) && intent_record_valid(record),
        r matches Ok(v) ==> v.record == record && v.raw_bytes@ == bytes@,
{
    check_jcs_lf_framing(bytes, MAX_POSTURE_RECORD_BYTES_V1, "posture transaction intent 1.0")?;
    check_exact_encoding(
        bytes,
        &intent_record_json_text(&record),
        "posture transaction intent 1.0",
    )?;
    validate_posture_transaction_intent_record_v1(&record)?;
    Ok(ValidatedPostureTransactionIntentV1 { record, raw_bytes: crate::json::bytes_to_vec(bytes) })
}

} // verus!
