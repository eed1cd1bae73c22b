use vstd::prelude::*;
use crate::charter_lifecycle_validation::{
    authority_error, content_addressed, dotted_symbolic_id, invalid_result, is_content_addressed_ref,
    is_dotted_symbolic_id, is_safe_candidate_target_path, is_safe_relative_reference,
    safe_candidate_target_path, safe_relative_reference, LifecycleValidationErrorKindV1,
    LifecycleValidationErrorV1,
};
use crate::definition_ref::{dotted_id, exact_definition_ref, is_dotted_id, is_exact_definition_ref};
use crate::digest::{fingerprint_hex, is_fingerprint, is_fingerprint_chars, lemma_sha256_prefix};
use crate::json::{
    array_text, fingerprint_json, json_array, json_fingerprint, json_member, json_object, json_str,
    json_string, json_string_array, member_text, object_text, string_array_text,
};
use crate::text::{chars_eq, chars_of, ends_with, has_prefix, has_suffix, slice_chars, starts_with, string_of, string_views, views};

verus! {

/// A field source of a historical candidate.
#[derive(Clone, Debug, PartialEq, Eq)]
pub struct HistoricalFieldSourceV1 {
    pub target_path: String,
    pub coverage_id: String,
    pub source_kind: String,
}

/// A retained candidate record of schema version 1.0, 1.1 or 1.2, with the names of the fields
/// that its JSON object holds. A 1.0 candidate has no basis; only a 1.2 candidate has a
/// subject fingerprint.
#[derive(Clone, Debug, PartialEq, Eq)]
pub struct HistoricalCandidateV1 {
    pub field_names: Vec<String>,
    pub schema_id: String,
    pub schema_version: String,
    pub candidate_id: String,
    pub intake_record_ref: String,
    pub target_kind_ref: String,
    pub target_instance_id: String,
    pub target_schema_ref: String,
    pub profile_ref: String,
    pub resolved_profile_fingerprint: String,
    pub basis_artifact_fingerprint: Option<String>,
    pub normalized_content_ref: String,
    pub field_sources: Vec<HistoricalFieldSourceV1>,
    pub validation_result_refs: Vec<String>,
    pub unresolved_coverage_ids: Vec<String>,
    pub promotion_eligibility: String,
    pub required_approval_policy_ref: String,
    pub candidate_subject_fingerprint: String,
    pub candidate_fingerprint: String,
}

/// The closed field set of a historical candidate version.
pub open spec fn historical_keys(version: Seq<char>) -> Option<Seq<Seq<char>>> {
    if version == "1.0"@ {
        Some(
            seq![
                "schema_id"@, "schema_version"@, "candidate_id"@, "intake_record_ref"@,
                "target_kind_ref"@, "target_instance_id"@, "target_schema_ref"@, "profile_ref"@,
                "resolved_profile_fingerprint"@, "normalized_content_ref"@, "field_sources"@,
                "validation_result_refs"@, "unresolved_coverage_ids"@, "promotion_eligibility"@,
                "required_approval_policy_ref"@, "candidate_fingerprint"@,
            ],
        )
    } else if version == "1.1"@ {
        Some(
            seq![
                "schema_id"@, "schema_version"@, "candidate_id"@, "intake_record_ref"@,
                "target_kind_ref"@, "target_instance_id"@, "target_schema_ref"@, "profile_ref"@,
                "resolved_profile_fingerprint"@, "basis_artifact_fingerprint"@,
                "normalized_content_ref"@, "field_sources"@, "validation_result_refs"@,
                "unresolved_coverage_ids"@, "promotion_eligibility"@,
                "required_approval_policy_ref"@, "candidate_fingerprint"@,
            ],
        )
    } else if version == "1.2"@ {
        Some(
            seq![
                "schema_id"@, "schema_version"@, "candidate_id"@, "intake_record_ref"@,
                "target_kind_ref"@, "target_instance_id"@, "target_schema_ref"@, "profile_ref"@,
                "resolved_profile_fingerprint"@, "basis_artifact_fingerprint"@,
                "normalized_content_ref"@, "field_sources"@, "unresolved_coverage_ids"@,
                "promotion_eligibility"@, "required_approval_policy_ref"@,
                "candidate_subject_fingerprint"@, "validation_result_refs"@,
                "candidate_fingerprint"@,
            ],
        )
    } else {
        None
    }
}

fn historical_key_list(version: &str) -> (r: Option<Vec<&'static str>>)
    ensures
        match r {
            Some(v) => historical_keys(version@) == Some(v@.map_values(|s: &'static str| s@)),
            None => historical_keys(version@) is None,
        },
{
    let mut v: Vec<&'static str> = Vec::new();
    let is_10 = chars_eq(&chars_of(version), &chars_of("1.0"));
    let is_11 = chars_eq(&chars_of(version), &chars_of("1.1"));
    let is_12 = chars_eq(&chars_of(version), &chars_of("1.2"));
    if !is_10 && !is_11 && !is_12 {
        return None;
    }
    v.push("schema_id");
    v.push("schema_version");
    v.push("candidate_id");
    v.push("intake_record_ref");
    v.push("target_kind_ref");
    v.push("target_instance_id");
    v.push("target_schema_ref");
    v.push("profile_ref");
    v.push("resolved_profile_fingerprint");
    if is_10 {
        v.push("normalized_content_ref");
        v.push("field_sources");
        v.push("validation_result_refs");
        v.push("unresolved_coverage_ids");
        v.push("promotion_eligibility");
        v.push("required_approval_policy_ref");
        v.push("candidate_fingerprint");
    } else if is_11 {
        v.push("basis_artifact_fingerprint");
        v.push("normalized_content_ref");
        v.push("field_sources");
        v.push("validation_result_refs");
        v.push("unresolved_coverage_ids");
        v.push("promotion_eligibility");
        v.push("required_approval_policy_ref");
        v.push("candidate_fingerprint");
    } else {
        v.push("basis_artifact_fingerprint");
        v.push("normalized_content_ref");
        v.push("field_sources");
        v.push("unresolved_coverage_ids");
        v.push("promotion_eligibility");
        v.push("required_approval_policy_ref");
        v.push("candidate_subject_fingerprint");
        v.push("validation_result_refs");
        v.push("candidate_fingerprint");
    }
    assert(v@.map_values(|s: &'static str| s@) =~= historical_keys(version@).unwrap());
    Some(v)
}

/// The object holds exactly the given keys.
pub open spec fn names_exact(names: Seq<Seq<char>>, keys: Seq<Seq<char>>) -> bool {
    names.len() == keys.len() && forall|k: int| 0 <= k < keys.len() ==> names.contains(#[trigger] keys[k])
}

/// A single symbolic ID segment: a dotted ID without a dot.
pub open spec fn symbolic_id(s: Seq<char>) -> bool {
    is_dotted_id(s) && !s.contains('.')
}

fn is_symbolic_id(value: &str) -> (r: bool)
    ensures
        r == symbolic_id(value@),
{
    let s = chars_of(value);
    let mut i: usize = 0;
    while i < s.len()
        invariant
            s@ == value@,
            i <= s.len(),
            forall|k: int| 0 <= k < i ==> s@[k] != '.',
        decreases s.len() - i,
    {
        if s[i] == '.' {
            assert(s@.contains('.'));
            return false;
        }
        i = i + 1;
    }
    let r = dotted_id(&s, 0, s.len());
    assert(s@.subrange(0, s@.len() as int) =~= s@);
    r
}

/// The source kinds a field source may name.
pub open spec fn known_source_kind(k: Seq<char>) -> bool {
    k == "user_declaration"@ || k == "evidenced_inference"@ || k == "deterministic_default"@ || k
        == "known_unknown"@ || k == "contradiction"@ || k == "waiver"@
}

/// Valid field sources: at least one, each with a safe target path, a dotted coverage ID and a
/// known source kind, and no target path twice.
pub open spec fn field_sources_ok(s: Seq<HistoricalFieldSourceV1>) -> bool {
    &&& s.len() > 0
    &&& forall|k: int|
        0 <= k < s.len() ==> safe_candidate_target_path((#[trigger] s[k]).target_path@) && dotted_symbolic_id(
            s[k].coverage_id@,
        ) && known_source_kind(s[k].source_kind@)
    &&& forall|i: int, j: int| 0 <= i < j < s.len() ==> (#[trigger] s[i]).target_path@ != (#[trigger] s[j]).target_path@
}

/// Distinct texts.
pub open spec fn texts_distinct(s: Seq<Seq<char>>) -> bool {
    forall|i: int, j: int| 0 <= i < j < s.len() ==> #[trigger] s[i] != #[trigger] s[j]
}

/// A result reference that a historical candidate of a version may bind.
pub open spec fn result_ref_ok(reference: Seq<char>, version: Seq<char>) -> bool {
    content_addressed(
        reference,
        "lifecycle-validation-results/lifecycle-validation-result_"@,
        ".json"@,
    ) || ((version == "1.0"@ || version == "1.1"@) && symbolic_id(reference))
}

/// The normalized-content reference that a historical candidate of a version may bind.
pub open spec fn content_ref_ok(reference: Seq<char>, version: Seq<char>) -> bool {
    content_addressed(reference, "candidate-content/charter_"@, ".yaml"@) || ((version == "1.0"@
        || version == "1.1"@) && has_prefix(reference, "candidates/"@) && has_suffix(reference, ".yaml"@)
        && safe_relative_reference(reference))
}

/// The shape of a historical candidate of a supported version: its exact closed field set and
/// schema, exact definition references, a symbolic target, well-formed fingerprints, the
/// approval eligibility, safe references, a null or well-formed basis, valid field sources,
/// distinct dotted unresolved coverage, and safe distinct result references (one for 1.2).
pub open spec fn historical_shape_ok(c: HistoricalCandidateV1, version: Seq<char>) -> bool {
    &&& historical_keys(version) matches Some(keys) && names_exact(string_views(c.field_names@), keys)
    &&& c.schema_id@ == "handbook.artifact-candidate"@
    &&& c.schema_version@ == version
    &&& is_exact_definition_ref(c.target_kind_ref@)
    &&& is_exact_definition_ref(c.target_schema_ref@)
    &&& is_exact_definition_ref(c.profile_ref@)
    &&& is_exact_definition_ref(c.required_approval_policy_ref@)
    &&& symbolic_id(c.target_instance_id@)
    &&& is_fingerprint(c.resolved_profile_fingerprint@)
    &&& is_fingerprint(c.candidate_fingerprint@)
    &&& c.promotion_eligibility@ == "requires_approval"@
    &&& (content_addressed(c.intake_record_ref@, "intake-records/intake_"@, ".json"@) || symbolic_id(
        c.intake_record_ref@,
    ))
    &&& content_ref_ok(c.normalized_content_ref@, version)
    &&& (version != "1.0"@ ==> (c.basis_artifact_fingerprint matches Some(f) ==> is_fingerprint(f@)))
    &&& field_sources_ok(c.field_sources@)
    &&& (forall|k: int|
        0 <= k < c.unresolved_coverage_ids@.len() ==> dotted_symbolic_id(
            (#[trigger] c.unresolved_coverage_ids@[k])@,
        ))
    &&& texts_distinct(string_views(c.unresolved_coverage_ids@))
    &&& (version == "1.2"@ ==> c.validation_result_refs@.len() == 1)
    &&& (forall|k: int|
        0 <= k < c.validation_result_refs@.len() ==> result_ref_ok(
            (#[trigger] c.validation_result_refs@[k])@,
            version,
        ))
    &&& texts_distinct(string_views(c.validation_result_refs@))
}

/// The JSON of a field source.
pub open spec fn field_source_json(s: HistoricalFieldSourceV1) -> Seq<char> {
    json_object(
        seq![
            json_member("target_path"@, json_string(s.target_path@)),
            json_member("coverage_id"@, json_string(s.coverage_id@)),
            json_member("source_kind"@, json_string(s.source_kind@)),
        ],
    )
}

pub open spec fn opt_fingerprint_json(o: Option<String>) -> Seq<char> {
    match o {
        Some(f) => json_string(f@),
        None => crate::json::json_null(),
    }
}

/// The members of a historical candidate that its subject covers: all but its ID, its
/// fingerprints and its result references.
pub open spec fn historical_subject_members(c: HistoricalCandidateV1, version: Seq<char>) -> Seq<Seq<char>> {
    seq![
        json_member("schema_id"@, json_string(c.schema_id@)),
        json_member("schema_version"@, json_string(c.schema_version@)),
        json_member("intake_record_ref"@, json_string(c.intake_record_ref@)),
        json_member("target_kind_ref"@, json_string(c.target_kind_ref@)),
        json_member("target_instance_id"@, json_string(c.target_instance_id@)),
        json_member("target_schema_ref"@, json_string(c.target_schema_ref@)),
        json_member("profile_ref"@, json_string(c.profile_ref@)),
        json_member("resolved_profile_fingerprint"@, json_string(c.resolved_profile_fingerprint@)),
        json_member("normalized_content_ref"@, json_string(c.normalized_content_ref@)),
        json_member(
            "field_sources"@,
            json_array(c.field_sources@.map_values(|s: HistoricalFieldSourceV1| field_source_json(s))),
        ),
        json_member("unresolved_coverage_ids"@, json_string_array(string_views(c.unresolved_coverage_ids@))),
        json_member("promotion_eligibility"@, json_string(c.promotion_eligibility@)),
        json_member("required_approval_policy_ref"@, json_string(c.required_approval_policy_ref@)),
    ] + if version == "1.0"@ {
        Seq::empty()
    } else {
        seq![json_member("basis_artifact_fingerprint"@, opt_fingerprint_json(c.basis_artifact_fingerprint))]
    }
}

/// The fingerprint preimage of a historical candidate: its subject members, its result
/// references and, for 1.2, its subject fingerprint.
pub open spec fn historical_preimage_json(c: HistoricalCandidateV1, version: Seq<char>) -> Seq<char> {
    json_object(
        historical_subject_members(c, version) + seq![
            json_member("validation_result_refs"@, json_string_array(string_views(c.validation_result_refs@))),
        ] + if version == "1.2"@ {
            seq![json_member("candidate_subject_fingerprint"@, json_string(c.candidate_subject_fingerprint@))]
        } else {
            Seq::empty()
        },
    )
}

/// The subject preimage of a historical candidate.
pub open spec fn historical_subject_json(c: HistoricalCandidateV1, version: Seq<char>) -> Seq<char> {
    json_object(historical_subject_members(c, version))
}

/// The record ID of a candidate with the given fingerprint.
pub open spec fn candidate_record_id(fingerprint: Seq<char>) -> Seq<char> {
    "candidate_"@ + fingerprint_hex(fingerprint)
}

/// The identity of a historical candidate: its fingerprint recomputes from its preimage, its ID
/// derives from that fingerprint and, for 1.2, its subject fingerprint recomputes.
pub open spec fn historical_identity_ok(c: HistoricalCandidateV1, version: Seq<char>) -> bool {
    &&& json_fingerprint(historical_preimage_json(c, version)) == Some(c.candidate_fingerprint@)
    &&& c.candidate_id@ == candidate_record_id(c.candidate_fingerprint@)
    &&& (version == "1.2"@ ==> json_fingerprint(historical_subject_json(c, version)) == Some(
        c.candidate_subject_fingerprint@,
    ))
}

/// A preimage that cannot be fingerprinted: the candidate's, or for 1.2 its subject's once its
/// candidate identity holds.
pub open spec fn historical_preimage_fails(c: HistoricalCandidateV1, version: Seq<char>) -> bool {
    ||| json_fingerprint(historical_preimage_json(c, version)) is None
    ||| (version == "1.2"@ && json_fingerprint(historical_preimage_json(c, version)) == Some(
        c.candidate_fingerprint@,
    ) && c.candidate_id@ == candidate_record_id(c.candidate_fingerprint@) && json_fingerprint(
        historical_subject_json(c, version),
    ) is None)
}

fn text_eq(a: &String, b: &str) -> (r: bool)
    ensures
        r == (a@ == b@),
{
    chars_eq(&chars_of(a.as_str()), &chars_of(b))
}

fn names_exact_check(names: &Vec<String>, keys: &Vec<&'static str>) -> (r: bool)
    ensures
        r == names_exact(string_views(names@), keys@.map_values(|s: &'static str| s@)),
{
    let ghost kv = keys@.map_values(|s: &'static str| s@);
    let ghost nv = string_views(names@);
    if names.len() != keys.len() {
        return false;
    }
    let mut i: usize = 0;
    while i < keys.len()
        invariant
            kv == keys@.map_values(|s: &'static str| s@),
            nv == string_views(names@),
            names.len() == keys.len(),
            i <= keys.len(),
            forall|k: int| 0 <= k < i ==> nv.contains(#[trigger] kv[k]),
        decreases keys.len() - i,
    {
        let key = keys[i].to_owned();
        assert(kv[i as int] == key@);
        if !crate::charter_lifecycle::strings_contain(names.as_slice(), &key) {
            assert(!nv.contains(kv[i as int]));
            return false;
        }
        i = i + 1;
    }
    true
}

fn field_sources_check(s: &Vec<HistoricalFieldSourceV1>) -> (r: bool)
    ensures
        r == field_sources_ok(s@),
{
    if s.len() == 0 {
        return false;
    }
    let mut i: usize = 0;
    while i < s.len()
        invariant
            s.len() > 0,
            i <= s.len(),
            forall|k: int|
                0 <= k < i ==> safe_candidate_target_path((#[trigger] s@[k]).target_path@) && dotted_symbolic_id(
                    s@[k].coverage_id@,
                ) && known_source_kind(s@[k].source_kind@),
            forall|p: int, q: int| 0 <= p < q < i ==> (#[trigger] s@[p]).target_path@ != (#[trigger] s@[q]).target_path@,
        decreases s.len() - i,
    {
        let src = &s[i];
        if !is_safe_candidate_target_path(src.target_path.as_str()) {
            return false;
        }
        let mut j: usize = 0;
        while j < i
            invariant
                i < s.len(),
                j <= i,
                forall|p: int| 0 <= p < j ==> (#[trigger] s@[p]).target_path@ != s@[i as int].target_path@,
            decreases i - j,
        {
            if s[j].target_path == s[i].target_path {
                return false;
            }
            j = j + 1;
        }
        if !is_dotted_symbolic_id(src.coverage_id.as_str()) {
            return false;
        }
        let k = &src.source_kind;
        if !(text_eq(k, "user_declaration") || text_eq(k, "evidenced_inference") || text_eq(
            k,
            "deterministic_default",
        ) || text_eq(k, "known_unknown") || text_eq(k, "contradiction") || text_eq(k, "waiver")) {
            return false;
        }
        i = i + 1;
    }
    true
}

fn distinct_check(v: &Vec<String>) -> (r: bool)
    ensures
        r == texts_distinct(string_views(v@)),
{
    let ghost s = string_views(v@);
    let mut j: usize = 0;
    while j < v.len()
        invariant
            s == string_views(v@),
            j <= v.len(),
            forall|p: int, q: int| 0 <= p < q < j ==> #[trigger] s[p] != #[trigger] s[q],
        decreases v.len() - j,
    {
        let mut i: usize = 0;
        while i < j
            invariant
                s == string_views(v@),
                j < v.len(),
                i <= j,
                forall|p: int| 0 <= p < i ==> #[trigger] s[p] != s[j as int],
            decreases j - i,
        {
            if v[i] == v[j] {
                assert(s[i as int] == s[j as int]);
                return false;
            }
            i = i + 1;
        }
        j = j + 1;
    }
    true
}

fn is_legacy_version(version: &str) -> (r: bool)
    ensures
        r == (version@ == "1.0"@ || version@ == "1.1"@),
{
    chars_eq(&chars_of(version), &chars_of("1.0")) || chars_eq(&chars_of(version), &chars_of("1.1"))
}

fn result_refs_check(refs: &Vec<String>, version: &str) -> (r: bool)
    ensures
        r == (forall|k: int| 0 <= k < refs@.len() ==> result_ref_ok((#[trigger] refs@[k])@, version@)),
{
    let legacy = is_legacy_version(version);
    let mut i: usize = 0;
    while i < refs.len()
        invariant
            legacy == (version@ == "1.0"@ || version@ == "1.1"@),
            i <= refs.len(),
            forall|k: int| 0 <= k < i ==> result_ref_ok((#[trigger] refs@[k])@, version@),
        decreases refs.len() - i,
    {
        let reference = refs[i].as_str();
        if !(is_content_addressed_ref(
            reference,
            "lifecycle-validation-results/lifecycle-validation-result_",
            ".json",
        ) || (legacy && is_symbolic_id(reference))) {
            assert(!result_ref_ok(refs@[i as int]@, version@));
            return false;
        }
        i = i + 1;
    }
    true
}

fn coverage_ids_check(ids: &Vec<String>) -> (r: bool)
    ensures
        r == (forall|k: int| 0 <= k < ids@.len() ==> dotted_symbolic_id((#[trigger] ids@[k])@)),
{
    let mut i: usize = 0;
    while i < ids.len()
        invariant
            i <= ids.len(),
            forall|k: int| 0 <= k < i ==> dotted_symbolic_id((#[trigger] ids@[k])@),
        decreases ids.len() - i,
    {
        if !is_dotted_symbolic_id(ids[i].as_str()) {
            return false;
        }
        i = i + 1;
    }
    true
}

fn content_ref_check(reference: &str, version: &str) -> (r: bool)
    ensures
        r == content_ref_ok(reference@, version@),
{
    let v = chars_of(reference);
    is_content_addressed_ref(reference, "candidate-content/charter_", ".yaml") || (is_legacy_version(
        version,
    ) && starts_with(&v, &chars_of("candidates/")) && ends_with(&v, &chars_of(".yaml"))
        && is_safe_relative_reference(reference))
}

fn historical_shape_check(c: &HistoricalCandidateV1, version: &str) -> (r: bool)
    ensures
        r == historical_shape_ok(*c, version@),
{
    let keys = match historical_key_list(version) {
        Some(k) => k,
        None => {
            return false;
        },
    };
    if !names_exact_check(&c.field_names, &keys) {
        return false;
    }
    if !(text_eq(&c.schema_id, "handbook.artifact-candidate") && chars_eq(
        &chars_of(c.schema_version.as_str()),
        &chars_of(version),
    )) {
        return false;
    }
    if !(exact_definition_ref(&chars_of(c.target_kind_ref.as_str())) && exact_definition_ref(
        &chars_of(c.target_schema_ref.as_str()),
    ) && exact_definition_ref(&chars_of(c.profile_ref.as_str())) && exact_definition_ref(
        &chars_of(c.required_approval_policy_ref.as_str()),
    )) {
        return false;
    }
    if !is_symbolic_id(c.target_instance_id.as_str()) {
        return false;
    }
    if !(is_fingerprint_chars(&chars_of(c.resolved_profile_fingerprint.as_str())) && is_fingerprint_chars(
        &chars_of(c.candidate_fingerprint.as_str()),
    )) {
        return false;
    }
    if !text_eq(&c.promotion_eligibility, "requires_approval") {
        return false;
    }
    if !(is_content_addressed_ref(c.intake_record_ref.as_str(), "intake-records/intake_", ".json")
        || is_symbolic_id(c.intake_record_ref.as_str())) {
        return false;
    }
    if !content_ref_check(c.normalized_content_ref.as_str(), version) {
        return false;
    }
    let is_10 = chars_eq(&chars_of(version), &chars_of("1.0"));
    if !is_10 {
        match &c.basis_artifact_fingerprint {
            Some(f) => {
                if !is_fingerprint_chars(&chars_of(f.as_str())) {
                    return false;
                }
            },
            None => {},
        }
    }
    if !field_sources_check(&c.field_sources) {
        return false;
    }
    if !(coverage_ids_check(&c.unresolved_coverage_ids) && distinct_check(&c.unresolved_coverage_ids)) {
        return false;
    }
    let is_12 = chars_eq(&chars_of(version), &chars_of("1.2"));
    if is_12 && c.validation_result_refs.len() != 1 {
        return false;
    }
    result_refs_check(&c.validation_result_refs, version) && distinct_check(&c.validation_result_refs)
}

fn field_sources_text(s: &Vec<HistoricalFieldSourceV1>) -> (r: Vec<char>)
    ensures
        r@ == json_array(s@.map_values(|x: HistoricalFieldSourceV1| field_source_json(x))),
{
    let mut items: Vec<Vec<char>> = Vec::new();
    let mut i: usize = 0;
    while i < s.len()
        invariant
            i <= s.len(),
            views(items@) == s@.map_values(|x: HistoricalFieldSourceV1| field_source_json(x)).take(i as int),
        decreases s.len() - i,
    {
        let src = &s[i];
        let mut m: Vec<Vec<char>> = Vec::new();
        m.push(member_text("target_path", json_str(src.target_path.as_str())));
        m.push(member_text("coverage_id", json_str(src.coverage_id.as_str())));
        m.push(member_text("source_kind", json_str(src.source_kind.as_str())));
        assert(views(m@) =~= seq![
            json_member("target_path"@, json_string(src.target_path@)),
            json_member("coverage_id"@, json_string(src.coverage_id@)),
            json_member("source_kind"@, json_string(src.source_kind@)),
        ]);
        let ghost before = views(items@);
        items.push(object_text(&m));
        assert(views(items@) =~= before.push(field_source_json(*src)));
        assert(views(items@) =~= s@.map_values(|x: HistoricalFieldSourceV1| field_source_json(x)).take(
            i + 1,
        ));
        i = i + 1;
    }
    assert(s@.map_values(|x: HistoricalFieldSourceV1| field_source_json(x)).take(s.len() as int)
        =~= s@.map_values(|x: HistoricalFieldSourceV1| field_source_json(x)));
    array_text(&items)
}

fn subject_member_texts(c: &HistoricalCandidateV1, version: &str) -> (m: Vec<Vec<char>>)
    ensures
        views(m@) == historical_subject_members(*c, version@),
{
    let mut m: Vec<Vec<char>> = Vec::new();
    m.push(member_text("schema_id", json_str(c.schema_id.as_str())));
    m.push(member_text("schema_version", json_str(c.schema_version.as_str())));
    m.push(member_text("intake_record_ref", json_str(c.intake_record_ref.as_str())));
    m.push(member_text("target_kind_ref", json_str(c.target_kind_ref.as_str())));
    m.push(member_text("target_instance_id", json_str(c.target_instance_id.as_str())));
    m.push(member_text("target_schema_ref", json_str(c.target_schema_ref.as_str())));
    m.push(member_text("profile_ref", json_str(c.profile_ref.as_str())));
    m.push(member_text("resolved_profile_fingerprint", json_str(c.resolved_profile_fingerprint.as_str())));
    m.push(member_text("normalized_content_ref", json_str(c.normalized_content_ref.as_str())));
    m.push(member_text("field_sources", field_sources_text(&c.field_sources)));
    m.push(member_text("unresolved_coverage_ids", string_array_text(&c.unresolved_coverage_ids)));
    m.push(member_text("promotion_eligibility", json_str(c.promotion_eligibility.as_str())));
    m.push(member_text("required_approval_policy_ref", json_str(c.required_approval_policy_ref.as_str())));
    if !chars_eq(&chars_of(version), &chars_of("1.0")) {
        m.push(member_text("basis_artifact_fingerprint", crate::json::opt_string_text(&c.basis_artifact_fingerprint)));
    }
    assert(views(m@) =~= historical_subject_members(*c, version@));
    m
}

/// Checks a retained historical candidate of the given schema version and gives its record ID.
pub fn validate_historical_candidate(candidate: &HistoricalCandidateV1, version: &str) -> (r: Result<
    String,
    LifecycleValidationErrorV1,
>)
    ensures
        r is Ok <==> historical_shape_ok(*candidate, version@) && historical_identity_ok(*candidate, version@),
        r matches Ok(id) ==> id@ == candidate_record_id(candidate.candidate_fingerprint@),
        r matches Err(e) ==> (e.error_kind() == LifecycleValidationErrorKindV1::InvalidResult <==> (
        !historical_shape_ok(*candidate, version@) || historical_preimage_fails(*candidate, version@))),
        r matches Err(e) ==> e.error_kind() == LifecycleValidationErrorKindV1::InvalidResult
            || e.error_kind() == LifecycleValidationErrorKindV1::AuthorityMismatch,
{
    if !historical_shape_check(candidate, version) {
        return Err(invalid_result("historical candidate does not have its exact closed, valid shape"));
    }
    let subject = subject_member_texts(candidate, version);
    let mut members = subject_member_texts(candidate, version);
    let ghost sv = views(subject@);
    members.push(member_text("validation_result_refs", string_array_text(&candidate.validation_result_refs)));
    let is_12 = chars_eq(&chars_of(version), &chars_of("1.2"));
    if is_12 {
        members.push(member_text("candidate_subject_fingerprint", json_str(candidate.candidate_subject_fingerprint.as_str())));
    }
    assert(views(members@) =~= sv + seq![
        json_member("validation_result_refs"@, json_string_array(string_views(candidate.validation_result_refs@))),
    ] + if version@ == "1.2"@ {
        seq![json_member("candidate_subject_fingerprint"@, json_string(candidate.candidate_subject_fingerprint@))]
    } else {
        Seq::empty()
    });
    let computed = match fingerprint_json(&object_text(&members)) {
        Some(f) => f,
        None => {
            return Err(invalid_result("historical candidate preimage is not canonical"));
        },
    };
    if !chars_eq(&computed, &chars_of(candidate.candidate_fingerprint.as_str())) {
        return Err(authority_error("historical candidate final identity does not recompute"));
    }
    proof {
        lemma_sha256_prefix();
    }
    let hex = slice_chars(&computed, 7, computed.len());
    assert(hex@ =~= fingerprint_hex(candidate.candidate_fingerprint@));
    let mut id = chars_of("candidate_");
    let mut tail = hex;
    id.append(&mut tail);
    if !chars_eq(&id, &chars_of(candidate.candidate_id.as_str())) {
        return Err(authority_error("historical candidate ID does not equal its final fingerprint"));
    }
    if is_12 {
        let subject_fingerprint = match fingerprint_json(&object_text(&subject)) {
            Some(f) => f,
            None => {
                return Err(invalid_result("candidate subject preimage is not canonical"));
            },
        };
        if !chars_eq(&subject_fingerprint, &chars_of(candidate.candidate_subject_fingerprint.as_str())) {
            return Err(authority_error("historical candidate subject identity does not recompute"));
        }
    }
    Ok(string_of(&id))
}


/// What the author inventory holds of a candidate 1.3 record: its recomputed subject
/// fingerprint and the lifecycle-validation result it binds.
#[derive(Clone, Debug, PartialEq, Eq)]
pub struct InventoryCandidateBindingV1 {
    pub subject_fingerprint: String,
    pub result_ref: String,
    pub result_fingerprint: String,
}

/// How an author replay resolves: first authoring, or the exact replay of one inventory
/// candidate, by its position.
#[derive(Clone, Copy, Debug, PartialEq, Eq)]
pub enum AuthorReplayDecisionV1 {
    FirstAuthoring,
    Exact { candidate_index: usize },
}

/// The candidate's subject matches the replay selector.
pub open spec fn subject_matches(b: InventoryCandidateBindingV1, subject: Seq<char>) -> bool {
    b.subject_fingerprint@ == subject
}

/// The candidate's result binding matches the replay selector.
pub open spec fn result_matches(b: InventoryCandidateBindingV1, result_ref: Seq<char>, result_fingerprint: Seq<char>) -> bool {
    b.result_ref@ == result_ref && b.result_fingerprint@ == result_fingerprint
}

/// An author replay over inventory candidates: none crosses a matching subject with another
/// result or the reverse; where none matches and no result is stored it is first authoring;
/// where exactly one matches and the expected result is stored it is that candidate's exact
/// replay; anything else is refused.
pub open spec fn author_replay(
    c: Seq<InventoryCandidateBindingV1>,
    result_stored: bool,
    subject: Seq<char>,
    result_ref: Seq<char>,
    result_fingerprint: Seq<char>,
) -> Option<AuthorReplayDecisionV1> {
    if exists|k: int|
        0 <= k < c.len() && subject_matches(#[trigger] c[k], subject) != result_matches(
            c[k],
            result_ref,
            result_fingerprint,
        ) {
        None
    } else if forall|k: int| 0 <= k < c.len() ==> !subject_matches(#[trigger] c[k], subject) {
        if result_stored {
            None
        } else {
            Some(AuthorReplayDecisionV1::FirstAuthoring)
        }
    } else {
        let i = choose|i: int| 0 <= i < c.len() && subject_matches(#[trigger] c[i], subject);
        if result_stored && forall|k: int| 0 <= k < c.len() && k != i ==> !subject_matches(#[trigger] c[k], subject) {
            Some(AuthorReplayDecisionV1::Exact { candidate_index: i as usize })
        } else {
            None
        }
    }
}

/// Classifies an author replay against the candidate 1.3 records of the author inventory and
/// the references of its stored results.
pub fn classify_author_replay(
    candidates: &Vec<InventoryCandidateBindingV1>,
    stored_result_refs: &Vec<String>,
    expected_subject_fingerprint: &str,
    expected_result_ref: &str,
    expected_result_fingerprint: &str,
) -> (r: Result<AuthorReplayDecisionV1, LifecycleValidationErrorV1>)
    ensures
        match author_replay(
            candidates@,
            string_views(stored_result_refs@).contains(expected_result_ref@),
            expected_subject_fingerprint@,
            expected_result_ref@,
            expected_result_fingerprint@,
        ) {
            Some(d) => r == Ok::<AuthorReplayDecisionV1, LifecycleValidationErrorV1>(d),
            None => r matches Err(e) && e.error_kind() == LifecycleValidationErrorKindV1::AuthorityMismatch,
        },
{
    let ghost c = candidates@;
    let ghost subject = expected_subject_fingerprint@;
    let ghost rref = expected_result_ref@;
    let ghost rfp = expected_result_fingerprint@;
    let mut matched: Option<usize> = None;
    let mut i: usize = 0;
    while i < candidates.len()
        invariant
            c == candidates@,
            subject == expected_subject_fingerprint@,
            rref == expected_result_ref@,
            rfp == expected_result_fingerprint@,
            i <= candidates.len(),
            forall|k: int| 0 <= k < i ==> subject_matches(#[trigger] c[k], subject) == result_matches(c[k], rref, rfp),
            match matched {
                Some(m) => m < i && subject_matches(c[m as int], subject) && forall|k: int|
                    0 <= k < i && k != m ==> !subject_matches(#[trigger] c[k], subject),
                None => forall|k: int| 0 <= k < i ==> !subject_matches(#[trigger] c[k], subject),
            },
        decreases candidates.len() - i,
    {
        let b = &candidates[i];
        let sm = text_eq(&b.subject_fingerprint, expected_subject_fingerprint);
        let rm = text_eq(&b.result_ref, expected_result_ref) && text_eq(&b.result_fingerprint, expected_result_fingerprint);
        if sm != rm {
            assert(subject_matches(c[i as int], subject) != result_matches(c[i as int], rref, rfp));
            return Err(authority_error("candidate inventory contains crossed subject/result authority"));
        }
        if sm {
            match matched {
                Some(m) => {
                    proof {
                        let chosen = choose|j: int| 0 <= j < c.len() && subject_matches(#[trigger] c[j], subject);
                        if chosen == m as int {
                            assert(subject_matches(c[i as int], subject));
                        } else {
                            assert(subject_matches(c[m as int], subject));
                        }
                    }
                    return Err(
                        authority_error("multiple candidate 1.3 records match the author replay selector"),
                    );
                },
                None => {
                    matched = Some(i);
                },
            }
        }
        i = i + 1;
    }
    let stored = crate::charter_lifecycle::strings_contain(
        stored_result_refs.as_slice(),
        &string_of(&chars_of(expected_result_ref)),
    );
    match matched {
        None => {
            if stored {
                Err(authority_error("orphan lifecycle-validation result is preserved and refused"))
            } else {
                Ok(AuthorReplayDecisionV1::FirstAuthoring)
            }
        },
        Some(m) => {
            proof {
                let chosen = choose|j: int| 0 <= j < c.len() && subject_matches(#[trigger] c[j], subject);
                assert(subject_matches(c[m as int], subject));
                assert(chosen == m as int);
            }
            if stored {
                Ok(AuthorReplayDecisionV1::Exact { candidate_index: m })
            } else {
                Err(authority_error("candidate replay is missing its exact lifecycle-validation result"))
            }
        },
    }
}

/// The file name of an inventory candidate is its record ID and `.json`.
pub fn inventory_filename_matches(filename: &str, record_id: &str) -> (r: bool)
    ensures
        r == (filename@ == record_id@ + ".json"@),
{
    let mut expected = chars_of(record_id);
    let mut suffix = chars_of(".json");
    expected.append(&mut suffix);
    chars_eq(&chars_of(filename), &expected)
}

} // verus!
