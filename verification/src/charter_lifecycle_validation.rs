use vstd::prelude::*;
use vstd::utf8::encode_utf8;
use crate::charter_lifecycle::{CharterLifecycleState, state_name, strings_contain};
use crate::charter_lifecycle_store::CharterLifecycleAuthorityV1;
use crate::charter_intake::{CharterCoverageResult, coverage_order, coverage_order_list};
use crate::charter_promotion_intent_v12::ordered_subset;
use crate::definition_ref::{dotted_id, is_dotted_id};
use crate::digest::{content_fingerprint, fingerprint_of_bytes, fingerprint_hex, is_fingerprint, is_fingerprint_chars, lemma_sha256_prefix, sha256_prefix, sha256_prefix_chars};
use crate::json::{
    encode_jcs_lf, jcs_lf_bytes, fingerprint_json, json_array, json_fingerprint, json_member, json_object, json_opt_string,
    json_str, json_string, json_string_array, member_text, object_text, opt_string_text,
    string_array_text,
};
use crate::promotion_records::{
    binding_json, bindings_json_text, observation_json, observations_json_text, opt_view,
};
use crate::text::{chars_eq, string_views, views};
use crate::text::{
    between, chars_of, is_lower_hex_char, is_lower_sha256_hex, sha256_hex_text, slice_chars,
    string_of, strip_between,
};

verus! {

pub const MAX_LIFECYCLE_VALIDATION_RESULT_BYTES: usize = 262144;

pub const MAX_INVENTORY_ENTRIES: usize = 4096;

pub const MAX_INVENTORY_FILE_BYTES: usize = 262144;

pub const MAX_INVENTORY_AGGREGATE_BYTES: u64 = 1073741824;

pub const MAX_INVENTORY_FILENAME_BYTES: usize = 128;

/// A definition that a validation result resolved, with its role and fingerprint.
#[derive(Clone, Debug, PartialEq, Eq)]
pub struct LifecycleDefinitionBindingV10 {
    pub definition_role: String,
    pub definition_ref: String,
    pub definition_fingerprint: String,
}

/// An active lifecycle observation that a validation result bound.
#[derive(Clone, Debug, PartialEq, Eq)]
pub struct LifecycleActiveObservationV10 {
    pub observation_ref: String,
    pub observation_fingerprint: String,
}

/// The result of validating a candidate against the current lifecycle.
#[derive(Clone, Debug, PartialEq, Eq)]
pub struct CharterLifecycleValidationResultV10 {
    pub schema_id: String,
    pub schema_version: String,
    pub validation_result_id: String,
    pub candidate_subject_fingerprint: String,
    pub intake_record_ref: String,
    pub intake_record_fingerprint: String,
    pub normalized_content_ref: String,
    pub normalized_content_fingerprint: String,
    pub target_instance_id: String,
    pub canonical_artifact_ref: String,
    pub basis_artifact_fingerprint: Option<String>,
    pub observed_current_artifact_fingerprint: Option<String>,
    pub profile_ref: String,
    pub resolved_profile_fingerprint: String,
    pub resolved_definitions: Vec<LifecycleDefinitionBindingV10>,
    pub lifecycle_policy_ref: String,
    pub lifecycle_policy_fingerprint: String,
    pub lifecycle_head_ref: Option<String>,
    pub lifecycle_head_fingerprint: Option<String>,
    pub lifecycle_state: String,
    pub lifecycle_state_fingerprint: Option<String>,
    pub active_observations: Vec<LifecycleActiveObservationV10>,
    pub reopened_coverage_ids: Vec<String>,
    pub validation_status: String,
    pub validated_at_utc: String,
    pub validation_result_fingerprint: String,
}

#[derive(Clone, Copy, Debug, PartialEq, Eq, Structural)]
pub enum LifecycleValidationErrorKindV1 {
    AuthorityMismatch,
    InvalidResult,
    ExistingBytesMismatch,
    UnsafeFilesystem,
    IoFailure,
}

#[derive(Clone, Debug, PartialEq, Eq)]
pub struct LifecycleValidationErrorV1 {
    kind: LifecycleValidationErrorKindV1,
    detail: String,
}

impl LifecycleValidationErrorV1 {
    /// The kind of the refusal.
    pub closed spec fn error_kind(&self) -> LifecycleValidationErrorKindV1 {
        self.kind
    }

    /// The text that explains the refusal.
    pub closed spec fn error_detail(&self) -> Seq<char> {
        self.detail@
    }

    pub fn new(kind: LifecycleValidationErrorKindV1, detail: &str) -> (r: Self)
        ensures
            r.error_kind() == kind,
            r.error_detail() == detail@,
    {
        Self { kind, detail: detail.to_owned() }
    }

    pub fn kind(&self) -> (r: LifecycleValidationErrorKindV1)
        ensures
            r == self.error_kind(),
    {
        self.kind
    }

    pub fn detail(&self) -> (r: &str)
        ensures
            r@ == self.error_detail(),
    {
        self.detail.as_str()
    }
}

pub fn authority_error(detail: &str) -> (r: LifecycleValidationErrorV1)
    ensures
        r.error_kind() == LifecycleValidationErrorKindV1::AuthorityMismatch,
        r.error_detail() == detail@,
{
    LifecycleValidationErrorV1::new(LifecycleValidationErrorKindV1::AuthorityMismatch, detail)
}

pub fn invalid_result(detail: &str) -> (r: LifecycleValidationErrorV1)
    ensures
        r.error_kind() == LifecycleValidationErrorKindV1::InvalidResult,
        r.error_detail() == detail@,
{
    LifecycleValidationErrorV1::new(LifecycleValidationErrorKindV1::InvalidResult, detail)
}

pub fn filesystem_error(detail: &str) -> (r: LifecycleValidationErrorV1)
    ensures
        r.error_kind() == LifecycleValidationErrorKindV1::UnsafeFilesystem,
        r.error_detail() == detail@,
{
    LifecycleValidationErrorV1::new(LifecycleValidationErrorKindV1::UnsafeFilesystem, detail)
}

pub fn io_error(detail: &str) -> (r: LifecycleValidationErrorV1)
    ensures
        r.error_kind() == LifecycleValidationErrorKindV1::IoFailure,
        r.error_detail() == detail@,
{
    LifecycleValidationErrorV1::new(LifecycleValidationErrorKindV1::IoFailure, detail)
}

/// The definitions that every lifecycle validation resolves, in their fixed order, as
/// (role, reference, fingerprint).
pub open spec fn definition_binding_table() -> Seq<(Seq<char>, Seq<char>, Seq<char>)> {
    seq![
        ("approval_policy"@, "handbook.approval.constitutional-candidate@1.0.0"@, "sha256:67466e0c26e48e7e25705b6a601e487b74923371d886d759fcd9face2e793c29"@),
        ("capability_contract"@, "handbook.capabilities.constitutional-root@1.0.0"@, "sha256:1d4a1c2f85158c14524559e6846bf805eff4e531d8a78ac5c4890e2a4c0b0998"@),
        ("intake_definition"@, "handbook.intake.charter@1.0.0"@, "sha256:a92229722f25119c7d91137e1feef4ce51b88ae766ce308b585d37f39eb52d1c"@),
        ("lifecycle_policy"@, "handbook.lifecycle.constitutional-review-lock@1.0.0"@, "sha256:88caafb9caaf137647c42a91cd2762ac0871e0a20e2a1844c2c0076d5fb43cc3"@),
        ("reassessment_trigger"@, "handbook.intake-trigger.production-posture-changed@1.0.0"@, "sha256:35df6e191f201517abd07f428b87b9e3970117fb70110b801947116cb04c69f6"@),
        ("reassessment_trigger"@, "handbook.intake-trigger.trust-boundary-changed@1.0.0"@, "sha256:12950ab5172acce8b0b944f630791a4ffda4960095248fa3b5bea833f7fa4766"@),
        ("renderer_definition"@, "handbook.renderer.charter-review-markdown@1.0.0"@, "sha256:68f6fceedaab6133364d18a2b474694d1b44b91d73c05d0af65db1aa58e80fa7"@),
        ("review_trigger"@, "handbook.lifecycle-trigger.charter-amendment-proposed@1.0.0"@, "sha256:9672246337ff266fc07f67053ca053736cb0650d2ad5e053e4a19304acd48ed8"@),
        ("semantic_validator"@, "handbook.semantic-validation.constitutional-root@1.0.0"@, "sha256:be0fb9fd4ee98e9fc1c384b710d61198e103f2bca6ac6ef2bbe14957808c9738"@),
        ("semantic_validator"@, "handbook.semantic-validation.constitutional-root@1.1.0"@, "sha256:10703119fbb0a4cfcab3fcdc4c618df269933591caf653786fdd8fee8cfc3c10"@),
        ("target_kind"@, "handbook.artifact-kind.project-authority@1.1.0"@, "sha256:3b3d0b353d9c45c20781c3f4b79e30cc27847fb168d1860115f2f941b8bbef0e"@),
        ("target_schema"@, "handbook.schemas.artifacts.project-authority@1.1.0"@, "sha256:7420efe464c45e17319c56a233f9a54960c52f81b502ed4ffb59a479474f9836"@),
        ("waiver_policy"@, "handbook.waiver.constitutional-intake@1.0.0"@, "sha256:704acdfe61b4d76ece2ceac72eb99df65dff2d2998b876990f24c3410fc317e3"@),
    ]
}

/// A binding as (role, reference, fingerprint).
pub open spec fn binding_view(b: LifecycleDefinitionBindingV10) -> (Seq<char>, Seq<char>, Seq<char>) {
    (b.definition_role@, b.definition_ref@, b.definition_fingerprint@)
}

fn binding(role: &str, reference: &str, fingerprint: &str) -> (r: LifecycleDefinitionBindingV10)
    ensures
        binding_view(r) == (role@, reference@, fingerprint@),
{
    LifecycleDefinitionBindingV10 {
        definition_role: role.to_owned(),
        definition_ref: reference.to_owned(),
        definition_fingerprint: fingerprint.to_owned(),
    }
}

/// The fixed definition bindings of a lifecycle validation.
pub fn definition_bindings() -> (r: Vec<LifecycleDefinitionBindingV10>)
    ensures
        r@.map_values(|b: LifecycleDefinitionBindingV10| binding_view(b)) == definition_binding_table(),
{
    let mut v: Vec<LifecycleDefinitionBindingV10> = Vec::new();
    v.push(binding("approval_policy", "handbook.approval.constitutional-candidate@1.0.0", "sha256:67466e0c26e48e7e25705b6a601e487b74923371d886d759fcd9face2e793c29"));
    v.push(binding("capability_contract", "handbook.capabilities.constitutional-root@1.0.0", "sha256:1d4a1c2f85158c14524559e6846bf805eff4e531d8a78ac5c4890e2a4c0b0998"));
    v.push(binding("intake_definition", "handbook.intake.charter@1.0.0", "sha256:a92229722f25119c7d91137e1feef4ce51b88ae766ce308b585d37f39eb52d1c"));
    v.push(binding("lifecycle_policy", "handbook.lifecycle.constitutional-review-lock@1.0.0", "sha256:88caafb9caaf137647c42a91cd2762ac0871e0a20e2a1844c2c0076d5fb43cc3"));
    v.push(binding("reassessment_trigger", "handbook.intake-trigger.production-posture-changed@1.0.0", "sha256:35df6e191f201517abd07f428b87b9e3970117fb70110b801947116cb04c69f6"));
    v.push(binding("reassessment_trigger", "handbook.intake-trigger.trust-boundary-changed@1.0.0", "sha256:12950ab5172acce8b0b944f630791a4ffda4960095248fa3b5bea833f7fa4766"));
    v.push(binding("renderer_definition", "handbook.renderer.charter-review-markdown@1.0.0", "sha256:68f6fceedaab6133364d18a2b474694d1b44b91d73c05d0af65db1aa58e80fa7"));
    v.push(binding("review_trigger", "handbook.lifecycle-trigger.charter-amendment-proposed@1.0.0", "sha256:9672246337ff266fc07f67053ca053736cb0650d2ad5e053e4a19304acd48ed8"));
    v.push(binding("semantic_validator", "handbook.semantic-validation.constitutional-root@1.0.0", "sha256:be0fb9fd4ee98e9fc1c384b710d61198e103f2bca6ac6ef2bbe14957808c9738"));
    v.push(binding("semantic_validator", "handbook.semantic-validation.constitutional-root@1.1.0", "sha256:10703119fbb0a4cfcab3fcdc4c618df269933591caf653786fdd8fee8cfc3c10"));
    v.push(binding("target_kind", "handbook.artifact-kind.project-authority@1.1.0", "sha256:3b3d0b353d9c45c20781c3f4b79e30cc27847fb168d1860115f2f941b8bbef0e"));
    v.push(binding("target_schema", "handbook.schemas.artifacts.project-authority@1.1.0", "sha256:7420efe464c45e17319c56a233f9a54960c52f81b502ed4ffb59a479474f9836"));
    v.push(binding("waiver_policy", "handbook.waiver.constitutional-intake@1.0.0", "sha256:704acdfe61b4d76ece2ceac72eb99df65dff2d2998b876990f24c3410fc317e3"));
    assert(v@.map_values(|b: LifecycleDefinitionBindingV10| binding_view(b)) =~= definition_binding_table());
    v
}

/// The fingerprint that the pinned definition closure gives a definition reference.
pub fn pinned_definition_fingerprint(reference: &str) -> (r: Option<String>)
    ensures
        r matches Some(f) ==> exists|k: int|
            0 <= k < definition_binding_table().len() && (#[trigger] definition_binding_table()[k]).1
                == reference@ && definition_binding_table()[k].2 == f@,
        r is None ==> forall|k: int|
            0 <= k < definition_binding_table().len() ==> (#[trigger] definition_binding_table()[k]).1
                != reference@,
{
    let table = definition_bindings();
    let ghost t = definition_binding_table();
    let mut i: usize = 0;
    while i < table.len()
        invariant
            table@.map_values(|b: LifecycleDefinitionBindingV10| binding_view(b)) == t,
            t == definition_binding_table(),
            i <= table.len(),
            forall|k: int| 0 <= k < i ==> (#[trigger] t[k]).1 != reference@,
        decreases table.len() - i,
    {
        if text_is(&table[i].definition_ref, reference) {
            assert(t[i as int] == binding_view(table@[i as int]));
            return Some(table[i].definition_fingerprint.clone());
        }
        assert(t[i as int] == binding_view(table@[i as int]));
        i = i + 1;
    }
    None
}

/// An author inventory root holds at most 4096 immediate entries.
pub fn inventory_entry_count_within_bound(count: usize) -> (r: bool)
    ensures
        r == (count <= MAX_INVENTORY_ENTRIES),
{
    count <= MAX_INVENTORY_ENTRIES
}

/// An inventory entry is at most 256 KiB.
pub fn inventory_file_length_within_bound(byte_length: u64) -> (r: bool)
    ensures
        r == (byte_length <= MAX_INVENTORY_FILE_BYTES),
{
    byte_length <= MAX_INVENTORY_FILE_BYTES as u64
}

/// An inventory filename is at most 128 bytes.
pub fn inventory_filename_length_within_bound(byte_length: usize) -> (r: bool)
    ensures
        r == (byte_length <= MAX_INVENTORY_FILENAME_BYTES),
{
    byte_length <= MAX_INVENTORY_FILENAME_BYTES
}

/// Adds an entry's length to the inventory aggregate, refusing a total above 1 GiB.
pub fn inventory_aggregate_after(aggregate: u64, byte_length: u64) -> (r: Result<
    u64,
    LifecycleValidationErrorV1,
>)
    ensures
        aggregate + byte_length <= MAX_INVENTORY_AGGREGATE_BYTES ==> r == Ok::<
            u64,
            LifecycleValidationErrorV1,
        >((aggregate + byte_length) as u64),
        r is Err <==> aggregate + byte_length > MAX_INVENTORY_AGGREGATE_BYTES,
        r matches Err(e) ==> e.error_kind() == LifecycleValidationErrorKindV1::InvalidResult,
{
    match aggregate.checked_add(byte_length) {
        Some(total) => {
            if total <= MAX_INVENTORY_AGGREGATE_BYTES {
                Ok(total)
            } else {
                Err(invalid_result("author inventory aggregate byte bound exceeded"))
            }
        },
        None => Err(invalid_result("author inventory aggregate byte bound exceeded")),
    }
}

/// A reference of the form `prefix`, 64 lowercase hex digits, `suffix`.
pub open spec fn content_addressed(reference: Seq<char>, prefix: Seq<char>, suffix: Seq<char>) -> bool {
    between(reference, prefix, suffix) matches Some(hex) && is_lower_sha256_hex(hex)
}

pub fn is_content_addressed_ref(reference: &str, prefix: &str, suffix: &str) -> (r: bool)
    ensures
        r == content_addressed(reference@, prefix@, suffix@),
{
    match strip_between(&chars_of(reference), &chars_of(prefix), &chars_of(suffix)) {
        Some(hex) => sha256_hex_text(&hex),
        None => false,
    }
}

/// A lowercase ASCII letter or digit.
pub open spec fn is_lower_alnum(c: char) -> bool {
    ('a' <= c && c <= 'z') || ('0' <= c && c <= '9')
}

/// A safe relative reference: 1 to 1024 ASCII bytes of `/`-separated non-empty components
/// other than `.` and `..`, each of lowercase letters, digits, `_`, `-` and `.`.
pub open spec fn safe_relative_reference(s: Seq<char>) -> bool {
    &&& 1 <= s.len() <= 1024
    &&& forall|i: int|
        0 <= i < s.len() ==> is_lower_alnum(#[trigger] s[i]) || s[i] == '_' || s[i] == '-' || s[i]
            == '.' || s[i] == '/'
    &&& s[0] != '/'
    &&& s[s.len() - 1] != '/'
    &&& forall|i: int| 0 <= i < s.len() - 1 && #[trigger] s[i] == '/' ==> s[i + 1] != '/'
    &&& forall|i: int|
        0 <= i < s.len() && #[trigger] s[i] == '.' && (i == 0 || s[i - 1] == '/') ==> !(i + 1
            == s.len() || s[i + 1] == '/') && !(i + 1 < s.len() && s[i + 1] == '.' && (i + 2
            == s.len() || s[i + 2] == '/'))
}

pub fn is_safe_relative_reference(reference: &str) -> (r: bool)
    ensures
        r == safe_relative_reference(reference@),
{
    let s = chars_of(reference);
    let n = s.len();
    if n == 0 || n > 1024 || s[0] == '/' || s[n - 1] == '/' {
        return false;
    }
    let mut i: usize = 0;
    while i < n
        invariant
            s@ == reference@,
            n == s.len(),
            1 <= n <= 1024,
            i <= n,
            forall|k: int|
                0 <= k < i ==> is_lower_alnum(#[trigger] s@[k]) || s@[k] == '_' || s@[k] == '-'
                    || s@[k] == '.' || s@[k] == '/',
            forall|k: int| 0 <= k < i && k < n - 1 && #[trigger] s@[k] == '/' ==> s@[k + 1] != '/',
            forall|k: int|
                0 <= k < i && #[trigger] s@[k] == '.' && (k == 0 || s@[k - 1] == '/') ==> !(k + 1
                    == n || s@[k + 1] == '/') && !(k + 1 < n && s@[k + 1] == '.' && (k + 2 == n
                    || s@[k + 2] == '/')),
        decreases n - i,
    {
        let c = s[i];
        if !(('a' <= c && c <= 'z') || ('0' <= c && c <= '9') || c == '_' || c == '-' || c == '.'
            || c == '/') {
            return false;
        }
        if c == '/' && i + 1 < n && s[i + 1] == '/' {
            return false;
        }
        if c == '.' && (i == 0 || s[i - 1] == '/') {
            if i + 1 == n || s[i + 1] == '/' {
                return false;
            }
            if s[i + 1] == '.' && (i + 2 == n || s[i + 2] == '/') {
                return false;
            }
        }
        i = i + 1;
    }
    true
}

/// A safe candidate target path: 2 to 1024 ASCII bytes, `/` followed by `/`-separated
/// non-empty components of lowercase letters, digits, `_` and `-`.
pub open spec fn safe_candidate_target_path(s: Seq<char>) -> bool {
    &&& 2 <= s.len() <= 1024
    &&& s[0] == '/'
    &&& s[s.len() - 1] != '/'
    &&& forall|i: int|
        0 <= i < s.len() ==> is_lower_alnum(#[trigger] s[i]) || s[i] == '_' || s[i] == '-' || s[i]
            == '/'
    &&& forall|i: int| 0 <= i < s.len() - 1 && #[trigger] s[i] == '/' ==> s[i + 1] != '/'
}

pub fn is_safe_candidate_target_path(path: &str) -> (r: bool)
    ensures
        r == safe_candidate_target_path(path@),
{
    let s = chars_of(path);
    let n = s.len();
    if n < 2 || n > 1024 || s[0] != '/' || s[n - 1] == '/' {
        return false;
    }
    let mut i: usize = 0;
    while i < n
        invariant
            s@ == path@,
            n == s.len(),
            2 <= n <= 1024,
            i <= n,
            forall|k: int|
                0 <= k < i ==> is_lower_alnum(#[trigger] s@[k]) || s@[k] == '_' || s@[k] == '-'
                    || s@[k] == '/',
            forall|k: int| 0 <= k < i && k < n - 1 && #[trigger] s@[k] == '/' ==> s@[k + 1] != '/',
        decreases n - i,
    {
        let c = s[i];
        if !(('a' <= c && c <= 'z') || ('0' <= c && c <= '9') || c == '_' || c == '-' || c == '/') {
            return false;
        }
        if c == '/' && i + 1 < n && s[i + 1] == '/' {
            return false;
        }
        i = i + 1;
    }
    true
}

/// A dotted symbolic ID of 1 to 256 characters.
pub open spec fn dotted_symbolic_id(s: Seq<char>) -> bool {
    1 <= s.len() <= 256 && is_dotted_id(s)
}

pub fn is_dotted_symbolic_id(value: &str) -> (r: bool)
    ensures
        r == dotted_symbolic_id(value@),
{
    let s = chars_of(value);
    if s.len() == 0 || s.len() > 256 {
        return false;
    }
    let r = dotted_id(&s, 0, s.len());
    assert(s@.subrange(0, s@.len() as int) =~= s@);
    r
}

/// An owned file name: exactly `exact_len` ASCII bytes, `prefix`, 64 lowercase hex digits and
/// `.json`.
pub open spec fn owned_filename(name: Seq<char>, prefix: Seq<char>, exact_len: nat) -> bool {
    &&& name.len() == exact_len
    &&& forall|i: int| 0 <= i < name.len() ==> (#[trigger] name[i] as int) < 128
    &&& content_addressed(name, prefix, ".json"@)
}

pub fn owned_sha256_filename(name: &str, prefix: &str, exact_len: usize) -> (r: bool)
    ensures
        r == owned_filename(name@, prefix@, exact_len as nat),
{
    let s = chars_of(name);
    if s.len() != exact_len {
        return false;
    }
    let mut i: usize = 0;
    while i < s.len()
        invariant
            s@ == name@,
            i <= s.len(),
            forall|k: int| 0 <= k < i ==> (#[trigger] s@[k] as int) < 128,
        decreases s.len() - i,
    {
        if s[i] > '\u{7f}' {
            return false;
        }
        i = i + 1;
    }
    is_content_addressed_ref(name, prefix, ".json")
}

/// An owned candidate file name, `candidate_<hex>.json`.
pub fn owned_candidate_filename(name: &str) -> (r: bool)
    ensures
        r == owned_filename(name@, "candidate_"@, 79),
{
    owned_sha256_filename(name, "candidate_", 79)
}

/// An owned validation result file name, `lifecycle-validation-result_<hex>.json`.
pub fn owned_result_filename(name: &str) -> (r: bool)
    ensures
        r == owned_filename(name@, "lifecycle-validation-result_"@, 97),
{
    owned_sha256_filename(name, "lifecycle-validation-result_", 97)
}

/// The reference of the validation result with the given fingerprint.
pub open spec fn result_ref_of(fingerprint: Seq<char>) -> Seq<char> {
    "lifecycle-validation-results/lifecycle-validation-result_"@ + fingerprint_hex(fingerprint) + ".json"@
}

pub fn result_ref(fingerprint: &str) -> (r: String)
    requires
        is_fingerprint(fingerprint@),
    ensures
        r@ == result_ref_of(fingerprint@),
{
    proof {
        lemma_sha256_prefix();
    }
    let f = chars_of(fingerprint);
    let mut out = chars_of("lifecycle-validation-results/lifecycle-validation-result_");
    let mut hex = slice_chars(&f, 7, f.len());
    let mut suffix = chars_of(".json");
    out.append(&mut hex);
    out.append(&mut suffix);
    string_of(&out)
}

/// The fingerprint named by a content-addressed authority reference.
pub fn fingerprint_from_bound_ref(reference: &str, prefix: &str, suffix: &str) -> (r: Result<
    String,
    LifecycleValidationErrorV1,
>)
    ensures
        r matches Ok(f) ==> between(reference@, prefix@, suffix@) matches Some(hex)
            && is_lower_sha256_hex(hex) && f@ == sha256_prefix() + hex,
        r is Err <==> !content_addressed(reference@, prefix@, suffix@),
        r matches Err(e) ==> e.error_kind() == LifecycleValidationErrorKindV1::AuthorityMismatch,
{
    let hex = match strip_between(&chars_of(reference), &chars_of(prefix), &chars_of(suffix)) {
        Some(hex) => hex,
        None => {
            return Err(authority_error("content-addressed authority ref is malformed"));
        },
    };
    if !sha256_hex_text(&hex) {
        return Err(authority_error("content-addressed authority ref is not lowercase SHA-256"));
    }
    let mut out = sha256_prefix_chars();
    let mut tail = hex;
    out.append(&mut tail);
    Ok(string_of(&out))
}

/// The serialized name of a lifecycle state.
pub fn lifecycle_state_name(state: CharterLifecycleState) -> (r: &'static str)
    ensures
        r@ == crate::charter_lifecycle::state_name(state),
{
    match state {
        CharterLifecycleState::Current => "current",
        CharterLifecycleState::ReviewRequired => "review_required",
        CharterLifecycleState::ReassessmentRequired => "reassessment_required",
    }
}

/// A timestamp in UTC layout: at least 20 bytes, ending in `Z`, with `-`, `-`, `T`, `:`, `:`
/// at bytes 4, 7, 10, 13 and 16.
pub open spec fn utc_timestamp_layout(b: Seq<u8>) -> bool {
    b.len() >= 20 && b[b.len() - 1] == 90u8 && b[4] == 45u8 && b[7] == 45u8 && b[10] == 84u8 && b[13]
        == 58u8 && b[16] == 58u8
}

pub fn is_utc_timestamp(value: &str) -> (r: bool)
    ensures
        r == utc_timestamp_layout(encode_utf8(value@)),
{
    let b = value.as_bytes();
    b.len() >= 20 && b[b.len() - 1] == 90 && b[4] == 45 && b[7] == 45 && b[10] == 84 && b[13] == 58
        && b[16] == 58
}

// ---------------------------------------------------------------------------
// Validation result records
// ---------------------------------------------------------------------------

pub const SELECTED_PROFILE_REF: &'static str = "handbook.profile.shipped-root@1.1.0";

pub const SELECTED_PROFILE_FINGERPRINT: &'static str =
    "sha256:6a7b41befa77b999b9ee20f513636051726a8401a81bf2f369501e8f3dd4fa74";

pub const LIFECYCLE_POLICY_REF: &'static str = "handbook.lifecycle.constitutional-review-lock@1.0.0";

pub const LIFECYCLE_POLICY_FINGERPRINT: &'static str =
    "sha256:88caafb9caaf137647c42a91cd2762ac0871e0a20e2a1844c2c0076d5fb43cc3";

/// The members of a validation result that its fingerprint covers: all but its ID, its
/// fingerprint and its validation time.
pub open spec fn result_preimage_members(r: CharterLifecycleValidationResultV10) -> Seq<Seq<char>> {
    seq![
        json_member("schema_id"@, json_string(r.schema_id@)),
        json_member("schema_version"@, json_string(r.schema_version@)),
        json_member("candidate_subject_fingerprint"@, json_string(r.candidate_subject_fingerprint@)),
        json_member("intake_record_ref"@, json_string(r.intake_record_ref@)),
        json_member("intake_record_fingerprint"@, json_string(r.intake_record_fingerprint@)),
        json_member("normalized_content_ref"@, json_string(r.normalized_content_ref@)),
        json_member("normalized_content_fingerprint"@, json_string(r.normalized_content_fingerprint@)),
        json_member("target_instance_id"@, json_string(r.target_instance_id@)),
        json_member("canonical_artifact_ref"@, json_string(r.canonical_artifact_ref@)),
        json_member("basis_artifact_fingerprint"@, json_opt_string(opt_view(r.basis_artifact_fingerprint))),
        json_member(
            "observed_current_artifact_fingerprint"@,
            json_opt_string(opt_view(r.observed_current_artifact_fingerprint)),
        ),
        json_member("profile_ref"@, json_string(r.profile_ref@)),
        json_member("resolved_profile_fingerprint"@, json_string(r.resolved_profile_fingerprint@)),
        json_member(
            "resolved_definitions"@,
            json_array(r.resolved_definitions@.map_values(|b: LifecycleDefinitionBindingV10| binding_json(b))),
        ),
        json_member("lifecycle_policy_ref"@, json_string(r.lifecycle_policy_ref@)),
        json_member("lifecycle_policy_fingerprint"@, json_string(r.lifecycle_policy_fingerprint@)),
        json_member("lifecycle_head_ref"@, json_opt_string(opt_view(r.lifecycle_head_ref))),
        json_member("lifecycle_head_fingerprint"@, json_opt_string(opt_view(r.lifecycle_head_fingerprint))),
        json_member("lifecycle_state"@, json_string(r.lifecycle_state@)),
        json_member(
            "lifecycle_state_fingerprint"@,
            json_opt_string(opt_view(r.lifecycle_state_fingerprint)),
        ),
        json_member(
            "active_observations"@,
            json_array(r.active_observations@.map_values(|o: LifecycleActiveObservationV10| observation_json(o))),
        ),
        json_member("reopened_coverage_ids"@, json_string_array(string_views(r.reopened_coverage_ids@))),
        json_member("validation_status"@, json_string(r.validation_status@)),
    ]
}

/// The fingerprint preimage of a validation result.
pub open spec fn result_preimage_json(r: CharterLifecycleValidationResultV10) -> Seq<char> {
    json_object(result_preimage_members(r))
}

/// The complete JSON of a validation result.
pub open spec fn result_record_json(r: CharterLifecycleValidationResultV10) -> Seq<char> {
    json_object(
        result_preimage_members(r) + seq![
            json_member("validation_result_id"@, json_string(r.validation_result_id@)),
            json_member("validated_at_utc"@, json_string(r.validated_at_utc@)),
            json_member("validation_result_fingerprint"@, json_string(r.validation_result_fingerprint@)),
        ],
    )
}

#[verifier::spinoff_prover]
fn result_members_first(r: &CharterLifecycleValidationResultV10) -> (m: Vec<Vec<char>>)
    ensures
        views(m@) == result_preimage_members(*r).take(11),
{
    let mut m: Vec<Vec<char>> = Vec::new();
    m.push(member_text("schema_id", json_str(r.schema_id.as_str())));
    m.push(member_text("schema_version", json_str(r.schema_version.as_str())));
    m.push(member_text("candidate_subject_fingerprint", json_str(r.candidate_subject_fingerprint.as_str())));
    m.push(member_text("intake_record_ref", json_str(r.intake_record_ref.as_str())));
    m.push(member_text("intake_record_fingerprint", json_str(r.intake_record_fingerprint.as_str())));
    m.push(member_text("normalized_content_ref", json_str(r.normalized_content_ref.as_str())));
    m.push(member_text("normalized_content_fingerprint", json_str(r.normalized_content_fingerprint.as_str())));
    m.push(member_text("target_instance_id", json_str(r.target_instance_id.as_str())));
    m.push(member_text("canonical_artifact_ref", json_str(r.canonical_artifact_ref.as_str())));
    m.push(member_text("basis_artifact_fingerprint", opt_string_text(&r.basis_artifact_fingerprint)));
    m.push(
        member_text(
            "observed_current_artifact_fingerprint",
            opt_string_text(&r.observed_current_artifact_fingerprint),
        ),
    );
    assert(views(m@) =~= result_preimage_members(*r).take(11));
    m
}

#[verifier::spinoff_prover]
#[verifier::rlimit(30)]
fn result_members_second(r: &CharterLifecycleValidationResultV10) -> (m: Vec<Vec<char>>)
    ensures
        views(m@) == result_preimage_members(*r).skip(11),
{
    let mut m: Vec<Vec<char>> = Vec::new();
    m.push(member_text("profile_ref", json_str(r.profile_ref.as_str())));
    m.push(member_text("resolved_profile_fingerprint", json_str(r.resolved_profile_fingerprint.as_str())));
    m.push(member_text("resolved_definitions", bindings_json_text(&r.resolved_definitions)));
    m.push(member_text("lifecycle_policy_ref", json_str(r.lifecycle_policy_ref.as_str())));
    m.push(member_text("lifecycle_policy_fingerprint", json_str(r.lifecycle_policy_fingerprint.as_str())));
    m.push(member_text("lifecycle_head_ref", opt_string_text(&r.lifecycle_head_ref)));
    m.push(member_text("lifecycle_head_fingerprint", opt_string_text(&r.lifecycle_head_fingerprint)));
    m.push(member_text("lifecycle_state", json_str(r.lifecycle_state.as_str())));
    m.push(member_text("lifecycle_state_fingerprint", opt_string_text(&r.lifecycle_state_fingerprint)));
    m.push(member_text("active_observations", observations_json_text(&r.active_observations)));
    m.push(member_text("reopened_coverage_ids", string_array_text(&r.reopened_coverage_ids)));
    m.push(member_text("validation_status", json_str(r.validation_status.as_str())));
    assert(views(m@) =~= result_preimage_members(*r).skip(11));
    m
}

fn result_preimage_member_texts(r: &CharterLifecycleValidationResultV10) -> (m: Vec<Vec<char>>)
    ensures
        views(m@) == result_preimage_members(*r),
{
    let mut m = result_members_first(r);
    let mut rest = result_members_second(r);
    let ghost a = views(m@);
    let ghost b = views(rest@);
    m.append(&mut rest);
    assert(views(m@) =~= a + b);
    assert(result_preimage_members(*r) =~= result_preimage_members(*r).take(11)
        + result_preimage_members(*r).skip(11));
    m
}

/// The fingerprint preimage JSON of a validation result.
pub fn result_preimage_json_text(r: &CharterLifecycleValidationResultV10) -> (t: Vec<char>)
    ensures
        t@ == result_preimage_json(*r),
{
    let m = result_preimage_member_texts(r);
    object_text(&m)
}

/// The complete JSON of a validation result.
pub fn result_record_json_text(r: &CharterLifecycleValidationResultV10) -> (t: Vec<char>)
    ensures
        t@ == result_record_json(*r),
{
    let mut m = result_preimage_member_texts(r);
    let ghost base = views(m@);
    m.push(member_text("validation_result_id", json_str(r.validation_result_id.as_str())));
    m.push(member_text("validated_at_utc", json_str(r.validated_at_utc.as_str())));
    m.push(member_text("validation_result_fingerprint", json_str(r.validation_result_fingerprint.as_str())));
    assert(views(m@) =~= base + seq![
        json_member("validation_result_id"@, json_string(r.validation_result_id@)),
        json_member("validated_at_utc"@, json_string(r.validated_at_utc@)),
        json_member("validation_result_fingerprint"@, json_string(r.validation_result_fingerprint@)),
    ]);
    object_text(&m)
}

/// The fixed constants and definition closure of a validation result.
pub open spec fn result_constants_valid(r: CharterLifecycleValidationResultV10) -> bool {
    &&& r.schema_id@ == "handbook.lifecycle-validation-result"@
    &&& r.schema_version@ == "1.0"@
    &&& r.target_instance_id@ == "project_authority"@
    &&& r.canonical_artifact_ref@ == ".handbook/project/charter.yaml"@
    &&& r.profile_ref@ == SELECTED_PROFILE_REF@
    &&& r.resolved_profile_fingerprint@ == SELECTED_PROFILE_FINGERPRINT@
    &&& r.resolved_definitions@.map_values(|b: LifecycleDefinitionBindingV10| binding_view(b))
        == definition_binding_table()
    &&& r.lifecycle_policy_ref@ == LIFECYCLE_POLICY_REF@
    &&& r.lifecycle_policy_fingerprint@ == LIFECYCLE_POLICY_FINGERPRINT@
    &&& r.validation_status@ == "passed"@
    &&& utc_timestamp_layout(encode_utf8(r.validated_at_utc@))
}

pub open spec fn opt_fingerprint_ok(o: Option<String>) -> bool {
    o matches Some(f) ==> is_fingerprint(f@)
}

/// Every fingerprint of a validation result is well-formed.
pub open spec fn result_fingerprints_valid(r: CharterLifecycleValidationResultV10) -> bool {
    &&& is_fingerprint(r.candidate_subject_fingerprint@)
    &&& is_fingerprint(r.intake_record_fingerprint@)
    &&& is_fingerprint(r.normalized_content_fingerprint@)
    &&& opt_fingerprint_ok(r.basis_artifact_fingerprint)
    &&& opt_fingerprint_ok(r.observed_current_artifact_fingerprint)
    &&& opt_fingerprint_ok(r.lifecycle_head_fingerprint)
    &&& opt_fingerprint_ok(r.lifecycle_state_fingerprint)
    &&& is_fingerprint(r.validation_result_fingerprint@)
}

/// The ID of a validation result with the given fingerprint.
pub open spec fn result_id_of(fingerprint: Seq<char>) -> Seq<char> {
    "lifecycle-validation-result_"@ + fingerprint_hex(fingerprint)
}

/// A validation result whose fingerprint covers its preimage and whose ID and expected
/// reference derive from that fingerprint.
pub open spec fn result_identity_valid(r: CharterLifecycleValidationResultV10, expected_ref: Option<Seq<char>>) -> bool {
    &&& json_fingerprint(result_preimage_json(r)) == Some(r.validation_result_fingerprint@)
    &&& r.validation_result_id@ == result_id_of(r.validation_result_fingerprint@)
    &&& (expected_ref matches Some(e) ==> e == result_ref_of(r.validation_result_fingerprint@))
}

/// The active observations of a result are pairwise distinct, and so are its reopened IDs.
pub open spec fn result_arrays_distinct(r: CharterLifecycleValidationResultV10) -> bool {
    &&& forall|i: int, j: int|
        0 <= i < j < r.active_observations@.len() ==> ((#[trigger] r.active_observations@[i]).observation_ref@,
        r.active_observations@[i].observation_fingerprint@) != (
        (#[trigger] r.active_observations@[j]).observation_ref@,
        r.active_observations@[j].observation_fingerprint@,
    )
    &&& forall|i: int, j: int|
        0 <= i < j < r.reopened_coverage_ids@.len() ==> (#[trigger] r.reopened_coverage_ids@[i])@
            != (#[trigger] r.reopened_coverage_ids@[j])@
}

/// An absent lifecycle has the null and empty closure; any other state is a known state with
/// every lifecycle binding present.
pub open spec fn result_state_closure_valid(r: CharterLifecycleValidationResultV10) -> bool {
    if r.lifecycle_state@ == "absent"@ {
        &&& r.basis_artifact_fingerprint is None
        &&& r.observed_current_artifact_fingerprint is None
        &&& r.lifecycle_head_ref is None
        &&& r.lifecycle_head_fingerprint is None
        &&& r.lifecycle_state_fingerprint is None
        &&& r.active_observations@.len() == 0
        &&& r.reopened_coverage_ids@.len() == 0
    } else {
        &&& (r.lifecycle_state@ == "current"@ || r.lifecycle_state@ == "review_required"@
            || r.lifecycle_state@ == "reassessment_required"@)
        &&& r.basis_artifact_fingerprint is Some
        &&& r.observed_current_artifact_fingerprint is Some
        &&& r.lifecycle_head_ref is Some
        &&& r.lifecycle_head_fingerprint is Some
        &&& r.lifecycle_state_fingerprint is Some
    }
}

/// A valid validation result, bound to `expected_ref` when one is given.
pub open spec fn result_record_valid(r: CharterLifecycleValidationResultV10, expected_ref: Option<Seq<char>>) -> bool {
    &&& result_constants_valid(r)
    &&& result_fingerprints_valid(r)
    &&& result_identity_valid(r, expected_ref)
    &&& result_arrays_distinct(r)
    &&& result_state_closure_valid(r)
}

fn text_is(value: &String, literal: &str) -> (r: bool)
    ensures
        r == (value@ == literal@),
{
    chars_eq(&chars_of(value.as_str()), &chars_of(literal))
}

fn fingerprint_ok(value: &String) -> (r: bool)
    ensures
        r == is_fingerprint(value@),
{
    is_fingerprint_chars(&chars_of(value.as_str()))
}

fn opt_fingerprint_check(o: &Option<String>) -> (r: bool)
    ensures
        r == opt_fingerprint_ok(*o),
{
    match o {
        Some(f) => fingerprint_ok(f),
        None => true,
    }
}

fn same_definition(a: &LifecycleDefinitionBindingV10, b: &LifecycleDefinitionBindingV10) -> (r: bool)
    ensures
        r == (binding_view(*a) == binding_view(*b)),
{
    a.definition_role == b.definition_role && a.definition_ref == b.definition_ref
        && a.definition_fingerprint == b.definition_fingerprint
}

fn definitions_are_selected(actual: &Vec<LifecycleDefinitionBindingV10>) -> (ok: bool)
    ensures
        ok == (actual@.map_values(|b: LifecycleDefinitionBindingV10| binding_view(b))
            == definition_binding_table()),
{
    let expected = definition_bindings();
    let ghost ev = expected@.map_values(|b: LifecycleDefinitionBindingV10| binding_view(b));
    let ghost av = actual@.map_values(|b: LifecycleDefinitionBindingV10| binding_view(b));
    if expected.len() != actual.len() {
        assert(av.len() != ev.len());
        return false;
    }
    let mut i: usize = 0;
    while i < actual.len()
        invariant
            expected.len() == actual.len(),
            ev == expected@.map_values(|b: LifecycleDefinitionBindingV10| binding_view(b)),
            ev == definition_binding_table(),
            av == actual@.map_values(|b: LifecycleDefinitionBindingV10| binding_view(b)),
            i <= actual.len(),
            forall|k: int| 0 <= k < i ==> av[k] == ev[k],
        decreases actual.len() - i,
    {
        if !same_definition(&actual[i], &expected[i]) {
            assert(av[i as int] != ev[i as int]);
            return false;
        }
        i = i + 1;
    }
    assert(av =~= ev);
    true
}

fn result_arrays_distinct_check(r: &CharterLifecycleValidationResultV10) -> (ok: bool)
    ensures
        ok == result_arrays_distinct(*r),
{
    let o = &r.active_observations;
    let mut j: usize = 0;
    while j < o.len()
        invariant
            o@ == r.active_observations@,
            j <= o.len(),
            forall|p: int, q: int|
                0 <= p < q < j ==> ((#[trigger] o@[p]).observation_ref@, o@[p].observation_fingerprint@)
                    != ((#[trigger] o@[q]).observation_ref@, o@[q].observation_fingerprint@),
        decreases o.len() - j,
    {
        let mut i: usize = 0;
        while i < j
            invariant
                o@ == r.active_observations@,
                j < o.len(),
                i <= j,
                forall|p: int|
                    0 <= p < i ==> ((#[trigger] o@[p]).observation_ref@, o@[p].observation_fingerprint@)
                        != (o@[j as int].observation_ref@, o@[j as int].observation_fingerprint@),
            decreases j - i,
        {
            if o[i].observation_ref == o[j].observation_ref && o[i].observation_fingerprint
                == o[j].observation_fingerprint {
                return false;
            }
            i = i + 1;
        }
        j = j + 1;
    }
    let ids = &r.reopened_coverage_ids;
    let mut j: usize = 0;
    while j < ids.len()
        invariant
            ids@ == r.reopened_coverage_ids@,
            forall|p: int, q: int|
                0 <= p < q < r.active_observations@.len() ==> ((#[trigger] r.active_observations@[p]).observation_ref@,
                r.active_observations@[p].observation_fingerprint@) != (
                (#[trigger] r.active_observations@[q]).observation_ref@,
                r.active_observations@[q].observation_fingerprint@,
            ),
            j <= ids.len(),
            forall|p: int, q: int| 0 <= p < q < j ==> (#[trigger] ids@[p])@ != (#[trigger] ids@[q])@,
        decreases ids.len() - j,
    {
        let mut i: usize = 0;
        while i < j
            invariant
                ids@ == r.reopened_coverage_ids@,
                j < ids.len(),
                i <= j,
                forall|p: int| 0 <= p < i ==> (#[trigger] ids@[p])@ != ids@[j as int]@,
            decreases j - i,
        {
            if ids[i] == ids[j] {
                return false;
            }
            i = i + 1;
        }
        j = j + 1;
    }
    true
}

/// Checks a validation result record, and its reference when one is expected.
pub fn validate_result_record(record: &CharterLifecycleValidationResultV10, expected_ref: Option<&str>) -> (r:
    Result<(), LifecycleValidationErrorV1>)
    ensures
        r is Ok <==> result_record_valid(
            *record,
            match expected_ref {
                Some(e) => Some(e@),
                None => None,
            },
        ),
        r matches Err(e) ==> e.error_kind() == LifecycleValidationErrorKindV1::InvalidResult,
{
    let ghost expected = match expected_ref {
        Some(e) => Some(e@),
        None => None,
    };
    if !(text_is(&record.schema_id, "handbook.lifecycle-validation-result") && text_is(
        &record.schema_version,
        "1.0",
    ) && text_is(&record.target_instance_id, "project_authority") && text_is(
        &record.canonical_artifact_ref,
        ".handbook/project/charter.yaml",
    ) && text_is(&record.profile_ref, SELECTED_PROFILE_REF) && text_is(
        &record.resolved_profile_fingerprint,
        SELECTED_PROFILE_FINGERPRINT,
    ) && definitions_are_selected(&record.resolved_definitions) && text_is(
        &record.lifecycle_policy_ref,
        LIFECYCLE_POLICY_REF,
    ) && text_is(&record.lifecycle_policy_fingerprint, LIFECYCLE_POLICY_FINGERPRINT) && text_is(
        &record.validation_status,
        "passed",
    ) && is_utc_timestamp(record.validated_at_utc.as_str())) {
        return Err(
            invalid_result("lifecycle-validation result constants or definition closure are invalid"),
        );
    }
    if !(fingerprint_ok(&record.candidate_subject_fingerprint) && fingerprint_ok(
        &record.intake_record_fingerprint,
    ) && fingerprint_ok(&record.normalized_content_fingerprint) && opt_fingerprint_check(
        &record.basis_artifact_fingerprint,
    ) && opt_fingerprint_check(&record.observed_current_artifact_fingerprint)
        && opt_fingerprint_check(&record.lifecycle_head_fingerprint) && opt_fingerprint_check(
        &record.lifecycle_state_fingerprint,
    ) && fingerprint_ok(&record.validation_result_fingerprint)) {
        return Err(invalid_result("validation-result fingerprint is not lowercase SHA-256"));
    }
    let computed = match fingerprint_json(&result_preimage_json_text(record)) {
        Some(f) => f,
        None => {
            return Err(invalid_result("validation-result identity cannot be recomputed"));
        },
    };
    if !chars_eq(&computed, &chars_of(record.validation_result_fingerprint.as_str())) {
        return Err(invalid_result("validation-result fingerprint does not match its exact preimage"));
    }
    let fingerprint = string_of(&computed);
    let hex = slice_chars(&computed, 7, computed.len());
    proof {
        lemma_sha256_prefix();
    }
    assert(hex@ =~= fingerprint_hex(record.validation_result_fingerprint@));
    let mut id = chars_of("lifecycle-validation-result_");
    let mut tail = hex;
    id.append(&mut tail);
    let id_ok = chars_eq(&id, &chars_of(record.validation_result_id.as_str()));
    let ref_ok = match expected_ref {
        Some(e) => {
            let expected_ref_text = result_ref(fingerprint.as_str());
            chars_eq(&chars_of(expected_ref_text.as_str()), &chars_of(e))
        },
        None => true,
    };
    if !id_ok || !ref_ok {
        return Err(
            invalid_result("validation-result ID/ref does not match its content-addressed fingerprint"),
        );
    }
    if !result_arrays_distinct_check(record) {
        return Err(invalid_result("validation-result observation/coverage arrays contain duplicates"));
    }
    if text_is(&record.lifecycle_state, "absent") {
        if record.basis_artifact_fingerprint.is_some()
            || record.observed_current_artifact_fingerprint.is_some()
            || record.lifecycle_head_ref.is_some() || record.lifecycle_head_fingerprint.is_some()
            || record.lifecycle_state_fingerprint.is_some() || record.active_observations.len() != 0
            || record.reopened_coverage_ids.len() != 0 {
            return Err(
                invalid_result("absent lifecycle authority must have the exact null/empty closure"),
            );
        }
    } else if !(text_is(&record.lifecycle_state, "current") || text_is(
        &record.lifecycle_state,
        "review_required",
    ) || text_is(&record.lifecycle_state, "reassessment_required"))
        || record.basis_artifact_fingerprint.is_none()
        || record.observed_current_artifact_fingerprint.is_none()
        || record.lifecycle_head_ref.is_none() || record.lifecycle_head_fingerprint.is_none()
        || record.lifecycle_state_fingerprint.is_none() {
        return Err(
            invalid_result("non-absent lifecycle authority is incomplete or has an unknown state"),
        );
    }
    Ok(())
}


// ---------------------------------------------------------------------------
// Building a validation result
// ---------------------------------------------------------------------------

/// The canonical Charter authority that a promotion committed: its bytes and fingerprint.
pub struct CommittedCharterAuthorityV1 {
    pub canonical_bytes: Vec<u8>,
    pub canonical_fingerprint: String,
}

/// The lifecycle authority retained beside the canonical Charter: the canonical bytes it was
/// committed against and its head, both absent before the first promotion.
pub struct RetainedLifecycleAuthorityV1 {
    pub canonical_bytes: Option<Vec<u8>>,
    pub authority: Option<CharterLifecycleAuthorityV1>,
}

/// What a validation result records of an evaluated candidate: its subject, the intake it was
/// drawn from with that intake's coverage, and its normalized content.
pub struct ValidationCandidateV1 {
    pub candidate_subject_fingerprint: String,
    pub intake_record_ref: String,
    pub normalized_content_ref: String,
    pub basis_artifact_fingerprint: Option<String>,
    pub intake_record_fingerprint: String,
    pub coverage_results: Vec<CharterCoverageResult>,
    pub normalized_content: Vec<u8>,
}

/// The fingerprint of the committed canonical Charter, if there is one.
pub open spec fn observed_fingerprint(current: Option<CommittedCharterAuthorityV1>) -> Option<Seq<char>> {
    match current {
        Some(c) => Some(c.canonical_fingerprint@),
        None => None,
    }
}

/// The committed Charter and the retained lifecycle authority are both absent, or both present
/// with the same canonical bytes and fingerprint.
pub open spec fn authorities_agree(
    current: Option<CommittedCharterAuthorityV1>,
    lifecycle: RetainedLifecycleAuthorityV1,
) -> bool {
    match (current, lifecycle.authority, lifecycle.canonical_bytes) {
        (None, None, None) => true,
        (Some(c), Some(a), Some(b)) => c.canonical_bytes@ == b@ && c.canonical_fingerprint@
            == a.canonical_fingerprint@,
        _ => false,
    }
}

/// The intake settled a coverage ID: it evaluated it as satisfied or waived.
pub open spec fn coverage_settled(coverage: Seq<CharterCoverageResult>, id: Seq<char>) -> bool {
    exists|i: int|
        0 <= i < coverage.len() && (#[trigger] coverage[i]).coverage_id@ == id && (coverage[i].evaluation@
            == "satisfied"@ || coverage[i].evaluation@ == "waived"@)
}

/// Pairwise distinct texts.
pub open spec fn distinct_texts(s: Seq<Seq<char>>) -> bool {
    forall|i: int, j: int| 0 <= i < j < s.len() ==> #[trigger] s[i] != #[trigger] s[j]
}

/// A lifecycle head that a candidate can be validated against: its observation bindings are
/// complete, and its reopened coverage is distinct, known and settled by the intake.
pub open spec fn head_accepts(a: CharterLifecycleAuthorityV1, coverage: Seq<CharterCoverageResult>) -> bool {
    let r = string_views(a.reopened_coverage_ids@);
    &&& a.active_observation_refs@.len() == a.active_observation_fingerprints@.len()
    &&& distinct_texts(r)
    &&& forall|k: int|
        0 <= k < r.len() ==> coverage_order().contains(#[trigger] r[k]) && coverage_settled(
            coverage,
            r[k],
        )
}

/// The authority checks of building a result: the candidate's basis is the committed Charter,
/// the committed and lifecycle authorities agree, and the lifecycle head accepts the intake.
pub open spec fn build_authority_ok(
    candidate: ValidationCandidateV1,
    current: Option<CommittedCharterAuthorityV1>,
    lifecycle: RetainedLifecycleAuthorityV1,
) -> bool {
    &&& opt_view(candidate.basis_artifact_fingerprint) == observed_fingerprint(current)
    &&& authorities_agree(current, lifecycle)
    &&& (lifecycle.authority matches Some(a) ==> head_accepts(a, candidate.coverage_results@))
}

/// The lifecycle closure of a result: the head's bindings, state and observations, with its
/// reopened coverage in coverage order; or the absent closure.
pub open spec fn result_lifecycle_from(
    res: CharterLifecycleValidationResultV10,
    authority: Option<CharterLifecycleAuthorityV1>,
) -> bool {
    match authority {
        Some(a) => {
            &&& opt_view(res.lifecycle_head_ref) == Some(a.lifecycle_transition_ref@)
            &&& opt_view(res.lifecycle_head_fingerprint) == Some(a.lifecycle_transition_fingerprint@)
            &&& res.lifecycle_state@ == state_name(a.state)
            &&& opt_view(res.lifecycle_state_fingerprint) == Some(a.state_fingerprint@)
            &&& res.active_observations@.len() == a.active_observation_refs@.len()
            &&& forall|k: int|
                0 <= k < res.active_observations@.len() ==> (#[trigger] res.active_observations@[k]).observation_ref@
                    == a.active_observation_refs@[k]@ && res.active_observations@[k].observation_fingerprint@
                    == a.active_observation_fingerprints@[k]@
            &&& string_views(res.reopened_coverage_ids@) == ordered_subset(
                coverage_order(),
                string_views(a.reopened_coverage_ids@),
            )
        },
        None => {
            &&& res.lifecycle_head_ref is None
            &&& res.lifecycle_head_fingerprint is None
            &&& res.lifecycle_state@ == "absent"@
            &&& res.lifecycle_state_fingerprint is None
            &&& res.active_observations@.len() == 0
            &&& res.reopened_coverage_ids@.len() == 0
        },
    }
}

/// Every member of a result's fingerprint preimage, as built from the candidate, the selected
/// profile and the two authorities.
pub open spec fn result_content_from(
    res: CharterLifecycleValidationResultV10,
    candidate: ValidationCandidateV1,
    profile_ref: Seq<char>,
    profile_fingerprint: Seq<char>,
    current: Option<CommittedCharterAuthorityV1>,
    lifecycle: RetainedLifecycleAuthorityV1,
) -> bool {
    &&& res.schema_id@ == "handbook.lifecycle-validation-result"@
    &&& res.schema_version@ == "1.0"@
    &&& res.candidate_subject_fingerprint@ == candidate.candidate_subject_fingerprint@
    &&& res.intake_record_ref@ == candidate.intake_record_ref@
    &&& res.intake_record_fingerprint@ == candidate.intake_record_fingerprint@
    &&& res.normalized_content_ref@ == candidate.normalized_content_ref@
    &&& res.normalized_content_fingerprint@ == content_fingerprint(candidate.normalized_content@)
    &&& res.target_instance_id@ == "project_authority"@
    &&& res.canonical_artifact_ref@ == ".handbook/project/charter.yaml"@
    &&& opt_view(res.basis_artifact_fingerprint) == observed_fingerprint(current)
    &&& opt_view(res.observed_current_artifact_fingerprint) == observed_fingerprint(current)
    &&& res.profile_ref@ == profile_ref
    &&& res.resolved_profile_fingerprint@ == profile_fingerprint
    &&& res.resolved_definitions@.map_values(|b: LifecycleDefinitionBindingV10| binding_view(b))
        == definition_binding_table()
    &&& res.lifecycle_policy_ref@ == LIFECYCLE_POLICY_REF@
    &&& res.lifecycle_policy_fingerprint@ == LIFECYCLE_POLICY_FINGERPRINT@
    &&& result_lifecycle_from(res, lifecycle.authority)
    &&& res.validation_status@ == "passed"@
}

/// A result as built, before it is stamped: its content, and an empty validation time.
pub open spec fn result_built_from(
    res: CharterLifecycleValidationResultV10,
    candidate: ValidationCandidateV1,
    profile_ref: Seq<char>,
    profile_fingerprint: Seq<char>,
    current: Option<CommittedCharterAuthorityV1>,
    lifecycle: RetainedLifecycleAuthorityV1,
) -> bool {
    &&& result_content_from(res, candidate, profile_ref, profile_fingerprint, current, lifecycle)
    &&& res.validated_at_utc@ == Seq::<char>::empty()
}

fn same_bytes(a: &Vec<u8>, b: &Vec<u8>) -> (r: bool)
    ensures
        r == (a@ == b@),
{
    if a.len() != b.len() {
        return false;
    }
    let mut i: usize = 0;
    while i < a.len()
        invariant
            a.len() == b.len(),
            i <= a.len(),
            forall|k: int| 0 <= k < i ==> a@[k] == b@[k],
        decreases a.len() - i,
    {
        if a[i] != b[i] {
            return false;
        }
        i = i + 1;
    }
    assert(a@ =~= b@);
    true
}

fn authorities_agree_check(
    current: &Option<CommittedCharterAuthorityV1>,
    lifecycle: &RetainedLifecycleAuthorityV1,
) -> (r: bool)
    ensures
        r == authorities_agree(*current, *lifecycle),
{
    match (current, &lifecycle.authority, &lifecycle.canonical_bytes) {
        (None, None, None) => true,
        (Some(c), Some(a), Some(b)) => same_bytes(&c.canonical_bytes, b) && c.canonical_fingerprint
            == a.canonical_fingerprint,
        _ => false,
    }
}

pub fn coverage_settled_check(coverage: &Vec<CharterCoverageResult>, id: &String) -> (r: bool)
    ensures
        r == coverage_settled(coverage@, id@),
{
    let mut i: usize = 0;
    while i < coverage.len()
        invariant
            i <= coverage.len(),
            forall|k: int|
                0 <= k < i ==> !((#[trigger] coverage@[k]).coverage_id@ == id@ && (coverage@[k].evaluation@
                    == "satisfied"@ || coverage@[k].evaluation@ == "waived"@)),
        decreases coverage.len() - i,
    {
        let entry = &coverage[i];
        if entry.coverage_id == *id && (text_is(&entry.evaluation, "satisfied") || text_is(
            &entry.evaluation,
            "waived",
        )) {
            return true;
        }
        i = i + 1;
    }
    false
}

fn distinct_strings(v: &Vec<String>) -> (r: bool)
    ensures
        r == distinct_texts(string_views(v@)),
{
    let ghost s = string_views(v@);
    let mut j: usize = 0;
    while j < v.len()
        invariant
            s == string_views(v@),
            j <= v.len(),
            forall|p: int, q: int| 0 <= p < q < j ==> #[trigger] s[p] != #[trigger] s[q],
        decreases v.len() - j,
    {
        let mut i: usize = 0;
        while i < j
            invariant
                s == string_views(v@),
                j < v.len(),
                i <= j,
                forall|p: int| 0 <= p < i ==> #[trigger] s[p] != s[j as int],
            decreases j - i,
        {
            if v[i] == v[j] {
                assert(s[i as int] == s[j as int]);
                return false;
            }
            i = i + 1;
        }
        j = j + 1;
    }
    true
}

/// The reopened coverage of a head, in coverage order, if every reopened ID is known and settled
/// by the intake.
fn ordered_reopened(reopened: &Vec<String>, coverage: &Vec<CharterCoverageResult>) -> (r: Result<
    Vec<String>,
    LifecycleValidationErrorV1,
>)
    ensures
        r matches Err(e) ==> e.error_kind() == LifecycleValidationErrorKindV1::AuthorityMismatch,
        (r is Ok) == (forall|k: int|
            0 <= k < reopened@.len() ==> coverage_order().contains(#[trigger] string_views(reopened@)[k])
                && coverage_settled(coverage@, string_views(reopened@)[k])),
        r matches Ok(v) ==> string_views(v@) == ordered_subset(coverage_order(), string_views(reopened@)),
{
    let ghost rv = string_views(reopened@);
    let order = coverage_order_list();
    let ghost co = coverage_order();
    let mut out: Vec<String> = Vec::new();
    let mut k: usize = 0;
    assert(co.take(0) =~= Seq::<Seq<char>>::empty());
    while k < order.len()
        invariant
            order@.map_values(|s: &'static str| s@) == co,
            co == coverage_order(),
            k <= order.len(),
            rv == string_views(reopened@),
            string_views(out@) == ordered_subset(co.take(k as int), rv),
            forall|m: int| 0 <= m < k && rv.contains(#[trigger] co[m]) ==> coverage_settled(coverage@, co[m]),
        decreases order.len() - k,
    {
        let id = order[k].to_owned();
        assert(co.take(k + 1).drop_last() =~= co.take(k as int));
        assert(co.take(k + 1).last() == co[k as int]);
        if strings_contain(reopened.as_slice(), &id) {
            if !coverage_settled_check(coverage, &id) {
                let mut detail = chars_of("reopened lifecycle coverage `");
                let mut name = chars_of(id.as_str());
                let mut rest = chars_of("` is not satisfied by the intake");
                detail.append(&mut name);
                detail.append(&mut rest);
                return Err(authority_error(string_of(&detail).as_str()));
            }
            let ghost before = string_views(out@);
            out.push(id);
            assert(string_views(out@) =~= before + seq![co[k as int]]);
        }
        k = k + 1;
    }
    assert(co.take(order.len() as int) =~= co);
    let mut i: usize = 0;
    while i < reopened.len()
        invariant
            order@.map_values(|s: &'static str| s@) == co,
            co == coverage_order(),
            rv == string_views(reopened@),
            i <= reopened.len(),
            forall|m: int| 0 <= m < co.len() && rv.contains(#[trigger] co[m]) ==> coverage_settled(coverage@, co[m]),
            forall|p: int| 0 <= p < i ==> co.contains(#[trigger] rv[p]),
        decreases reopened.len() - i,
    {
        let mut known = false;
        let mut m: usize = 0;
        while m < order.len()
            invariant
                order@.map_values(|s: &'static str| s@) == co,
                m <= order.len(),
                i < reopened.len(),
                rv == string_views(reopened@),
                known ==> co.contains(rv[i as int]),
                !known ==> forall|q: int| 0 <= q < m ==> co[q] != rv[i as int],
            decreases order.len() - m,
        {
            let name = order[m].to_owned();
            if reopened[i] == name {
                assert(co[m as int] == rv[i as int]);
                known = true;
            }
            m = m + 1;
        }
        if !known {
            assert(!co.contains(rv[i as int]));
            return Err(authority_error("committed lifecycle head contains an unknown reopened coverage ID"));
        }
        i = i + 1;
    }
    assert forall|k: int| 0 <= k < rv.len() implies co.contains(#[trigger] rv[k]) && coverage_settled(
        coverage@,
        rv[k],
    ) by {
        let m = co.index_of(rv[k]);
        assert(rv.contains(co[m]));
    }
    Ok(out)
}

fn active_observation_pairs(refs: &Vec<String>, fingerprints: &Vec<String>) -> (r: Vec<LifecycleActiveObservationV10>)
    requires
        refs.len() == fingerprints.len(),
    ensures
        r@.len() == refs@.len(),
        forall|k: int|
            0 <= k < r@.len() ==> (#[trigger] r@[k]).observation_ref@ == refs@[k]@ && r@[k].observation_fingerprint@
                == fingerprints@[k]@,
{
    let mut out: Vec<LifecycleActiveObservationV10> = Vec::new();
    let mut i: usize = 0;
    while i < refs.len()
        invariant
            refs.len() == fingerprints.len(),
            i <= refs.len(),
            out@.len() == i,
            forall|k: int|
                0 <= k < i ==> (#[trigger] out@[k]).observation_ref@ == refs@[k]@ && out@[k].observation_fingerprint@
                    == fingerprints@[k]@,
        decreases refs.len() - i,
    {
        out.push(
            LifecycleActiveObservationV10 {
                observation_ref: refs[i].clone(),
                observation_fingerprint: fingerprints[i].clone(),
            },
        );
        i = i + 1;
    }
    out
}

/// Builds the validation result of a candidate against the committed Charter and its lifecycle
/// authority, identified by the fingerprint of its preimage.
pub fn build_result(
    profile_ref: &str,
    profile_fingerprint: &str,
    candidate: &ValidationCandidateV1,
    current: &Option<CommittedCharterAuthorityV1>,
    lifecycle: &RetainedLifecycleAuthorityV1,
) -> (r: Result<CharterLifecycleValidationResultV10, LifecycleValidationErrorV1>)
    ensures
        !build_authority_ok(*candidate, *current, *lifecycle) <==> (r matches Err(e) && e.error_kind()
            == LifecycleValidationErrorKindV1::AuthorityMismatch),
        r matches Ok(res) ==> {
            &&& result_built_from(res, *candidate, profile_ref@, profile_fingerprint@, *current, *lifecycle)
            &&& json_fingerprint(result_preimage_json(res)) == Some(res.validation_result_fingerprint@)
            &&& res.validation_result_id@ == result_id_of(res.validation_result_fingerprint@)
            &&& is_fingerprint(res.validation_result_fingerprint@)
            &&& is_fingerprint(res.normalized_content_fingerprint@)
        },
        r matches Err(e) ==> e.error_kind() == LifecycleValidationErrorKindV1::AuthorityMismatch
            || e.error_kind() == LifecycleValidationErrorKindV1::InvalidResult,
        r matches Err(e) && e.error_kind() == LifecycleValidationErrorKindV1::InvalidResult ==> exists|
            res: CharterLifecycleValidationResultV10,
        |
            #[trigger] result_built_from(res, *candidate, profile_ref@, profile_fingerprint@, *current, *lifecycle)
                && json_fingerprint(result_preimage_json(res)) is None,
{
    let observed: Option<String> = match current {
        Some(c) => Some(c.canonical_fingerprint.clone()),
        None => None,
    };
    let basis_matches = match (&candidate.basis_artifact_fingerprint, &observed) {
        (Some(a), Some(b)) => *a == *b,
        (None, None) => true,
        _ => false,
    };
    if !basis_matches {
        return Err(authority_error("candidate subject basis is stale against committed Charter authority"));
    }
    if !authorities_agree_check(current, lifecycle) {
        return Err(
            authority_error("canonical promotion authority and lifecycle authority are not exact-equal"),
        );
    }
    let ghost coverage = candidate.coverage_results@;
    let (head_ref, head_fingerprint, state, state_fingerprint, active_observations, reopened_coverage_ids) =
        match &lifecycle.authority {
        Some(authority) => {
            if authority.active_observation_refs.len() != authority.active_observation_fingerprints.len() {
                return Err(
                    authority_error("committed lifecycle head has incomplete active-observation bindings"),
                );
            }
            let active = active_observation_pairs(
                &authority.active_observation_refs,
                &authority.active_observation_fingerprints,
            );
            if !distinct_strings(&authority.reopened_coverage_ids) {
                return Err(authority_error("committed lifecycle head contains duplicate reopened coverage"));
            }
            let reopened = match ordered_reopened(&authority.reopened_coverage_ids, &candidate.coverage_results) {
                Ok(v) => v,
                Err(e) => {
                    return Err(e);
                },
            };
            (
                Some(authority.lifecycle_transition_ref.clone()),
                Some(authority.lifecycle_transition_fingerprint.clone()),
                string_of(&chars_of(lifecycle_state_name(authority.state))),
                Some(authority.state_fingerprint.clone()),
                active,
                reopened,
            )
        },
        None => (None, None, string_of(&chars_of("absent")), None, Vec::new(), Vec::new()),
    };
    let content_fingerprint_text = string_of(&fingerprint_of_bytes(candidate.normalized_content.as_slice()));
    let mut result = CharterLifecycleValidationResultV10 {
        schema_id: string_of(&chars_of("handbook.lifecycle-validation-result")),
        schema_version: string_of(&chars_of("1.0")),
        validation_result_id: String::new(),
        candidate_subject_fingerprint: candidate.candidate_subject_fingerprint.clone(),
        intake_record_ref: candidate.intake_record_ref.clone(),
        intake_record_fingerprint: candidate.intake_record_fingerprint.clone(),
        normalized_content_ref: candidate.normalized_content_ref.clone(),
        normalized_content_fingerprint: content_fingerprint_text,
        target_instance_id: string_of(&chars_of("project_authority")),
        canonical_artifact_ref: string_of(&chars_of(".handbook/project/charter.yaml")),
        basis_artifact_fingerprint: observed.clone(),
        observed_current_artifact_fingerprint: observed,
        profile_ref: string_of(&chars_of(profile_ref)),
        resolved_profile_fingerprint: string_of(&chars_of(profile_fingerprint)),
        resolved_definitions: definition_bindings(),
        lifecycle_policy_ref: string_of(&chars_of(LIFECYCLE_POLICY_REF)),
        lifecycle_policy_fingerprint: string_of(&chars_of(LIFECYCLE_POLICY_FINGERPRINT)),
        lifecycle_head_ref: head_ref,
        lifecycle_head_fingerprint: head_fingerprint,
        lifecycle_state: state,
        lifecycle_state_fingerprint: state_fingerprint,
        active_observations,
        reopened_coverage_ids,
        validation_status: string_of(&chars_of("passed")),
        validated_at_utc: String::new(),
        validation_result_fingerprint: String::new(),
    };
    assert(result_built_from(result, *candidate, profile_ref@, profile_fingerprint@, *current, *lifecycle));
    let fingerprint = match fingerprint_json(&result_preimage_json_text(&result)) {
        Some(f) => f,
        None => {
            return Err(invalid_result("validation-result fingerprint preimage is not canonical"));
        },
    };
    let hex = slice_chars(&fingerprint, 7, fingerprint.len());
    proof {
        lemma_sha256_prefix();
    }
    assert(hex@ =~= fingerprint_hex(fingerprint@));
    let mut id = chars_of("lifecycle-validation-result_");
    let mut tail = hex;
    id.append(&mut tail);
    let ghost preimage = result_preimage_json(result);
    result.validation_result_id = string_of(&id);
    result.validation_result_fingerprint = string_of(&fingerprint);
    assert(result_preimage_json(result) == preimage);
    Ok(result)
}


// ---------------------------------------------------------------------------
// Checking a retained result against the current authorities
// ---------------------------------------------------------------------------

/// The active observations that a lifecycle head binds: its references and fingerprints taken
/// together, as far as both reach.
pub open spec fn head_observation_pairs(a: CharterLifecycleAuthorityV1) -> Seq<(Seq<char>, Seq<char>)> {
    let n = if a.active_observation_refs@.len() <= a.active_observation_fingerprints@.len() {
        a.active_observation_refs@.len()
    } else {
        a.active_observation_fingerprints@.len()
    };
    Seq::new(n, |k: int| (a.active_observation_refs@[k]@, a.active_observation_fingerprints@[k]@))
}

/// The active observations of a result as (reference, fingerprint) pairs.
pub open spec fn result_observation_pairs(res: CharterLifecycleValidationResultV10) -> Seq<(Seq<char>, Seq<char>)> {
    res.active_observations@.map_values(
        |o: LifecycleActiveObservationV10| (o.observation_ref@, o.observation_fingerprint@),
    )
}

/// A result binds the committed lifecycle head exactly: its head, state, active observations
/// and reopened coverage in coverage order, with the head's reopened coverage distinct, known
/// and settled by the intake.
pub open spec fn result_binds_head(
    res: CharterLifecycleValidationResultV10,
    a: CharterLifecycleAuthorityV1,
    coverage: Seq<CharterCoverageResult>,
) -> bool {
    let r = string_views(a.reopened_coverage_ids@);
    &&& distinct_texts(r)
    &&& forall|k: int| 0 <= k < r.len() ==> coverage_order().contains(#[trigger] r[k])
    &&& opt_view(res.lifecycle_head_ref) == Some(a.lifecycle_transition_ref@)
    &&& opt_view(res.lifecycle_head_fingerprint) == Some(a.lifecycle_transition_fingerprint@)
    &&& res.lifecycle_state@ == state_name(a.state)
    &&& opt_view(res.lifecycle_state_fingerprint) == Some(a.state_fingerprint@)
    &&& result_observation_pairs(res) == head_observation_pairs(a)
    &&& string_views(res.reopened_coverage_ids@) == ordered_subset(coverage_order(), r)
    &&& forall|k: int| 0 <= k < r.len() ==> coverage_settled(coverage, #[trigger] r[k])
}

/// A retained result binds the current authorities: the candidate's basis, the result's basis
/// and its observed Charter are the committed fingerprint, and the result has the absent
/// closure where both authorities are absent, or binds the lifecycle head where both are
/// present and agree.
pub open spec fn result_binds_authorities(
    res: CharterLifecycleValidationResultV10,
    candidate_basis: Option<Seq<char>>,
    current: Option<CommittedCharterAuthorityV1>,
    lifecycle: RetainedLifecycleAuthorityV1,
    coverage: Seq<CharterCoverageResult>,
) -> bool {
    &&& candidate_basis == observed_fingerprint(current)
    &&& opt_view(res.basis_artifact_fingerprint) == observed_fingerprint(current)
    &&& opt_view(res.observed_current_artifact_fingerprint) == observed_fingerprint(current)
    &&& authorities_agree(current, lifecycle)
    &&& match lifecycle.authority {
        None => {
            &&& res.lifecycle_state@ == "absent"@
            &&& res.lifecycle_head_ref is None
            &&& res.lifecycle_head_fingerprint is None
            &&& res.lifecycle_state_fingerprint is None
            &&& res.active_observations@.len() == 0
            &&& res.reopened_coverage_ids@.len() == 0
        },
        Some(a) => result_binds_head(res, a, coverage),
    }
}

fn opt_text_is(a: &Option<String>, b: &String) -> (r: bool)
    ensures
        r == (opt_view(*a) == Some(b@)),
{
    match a {
        Some(x) => *x == *b,
        None => false,
    }
}

fn opt_texts_equal(a: &Option<String>, b: &Option<String>) -> (r: bool)
    ensures
        r == (opt_view(*a) == opt_view(*b)),
{
    match (a, b) {
        (Some(x), Some(y)) => *x == *y,
        (None, None) => true,
        _ => false,
    }
}

fn observations_match_head(res: &CharterLifecycleValidationResultV10, a: &CharterLifecycleAuthorityV1) -> (r: bool)
    ensures
        r == (result_observation_pairs(*res) == head_observation_pairs(*a)),
{
    let n = if a.active_observation_refs.len() <= a.active_observation_fingerprints.len() {
        a.active_observation_refs.len()
    } else {
        a.active_observation_fingerprints.len()
    };
    let ghost rp = result_observation_pairs(*res);
    let ghost hp = head_observation_pairs(*a);
    if res.active_observations.len() != n {
        assert(rp.len() != hp.len());
        return false;
    }
    let mut i: usize = 0;
    while i < n
        invariant
            n == hp.len(),
            rp == result_observation_pairs(*res),
            hp == head_observation_pairs(*a),
            res.active_observations.len() == n,
            n <= a.active_observation_refs.len(),
            n <= a.active_observation_fingerprints.len(),
            i <= n,
            forall|k: int| 0 <= k < i ==> rp[k] == hp[k],
        decreases n - i,
    {
        let o = &res.active_observations[i];
        if !(o.observation_ref == a.active_observation_refs[i] && o.observation_fingerprint
            == a.active_observation_fingerprints[i]) {
            assert(rp[i as int] != hp[i as int]);
            return false;
        }
        assert(rp[i as int] == hp[i as int]);
        i = i + 1;
    }
    assert(rp =~= hp);
    true
}

fn texts_equal(a: &Vec<String>, b: &Vec<String>) -> (r: bool)
    ensures
        r == (string_views(a@) == string_views(b@)),
{
    if a.len() != b.len() {
        assert(string_views(a@).len() != string_views(b@).len());
        return false;
    }
    let mut i: usize = 0;
    while i < a.len()
        invariant
            a.len() == b.len(),
            i <= a.len(),
            forall|k: int| 0 <= k < i ==> string_views(a@)[k] == string_views(b@)[k],
        decreases a.len() - i,
    {
        if !(a[i] == b[i]) {
            assert(string_views(a@)[i as int] != string_views(b@)[i as int]);
            return false;
        }
        i = i + 1;
    }
    assert(string_views(a@) =~= string_views(b@));
    true
}

/// Checks that a retained validation result binds the current canonical and lifecycle
/// authorities and the candidate's basis.
pub fn validate_result_authorities(
    res: &CharterLifecycleValidationResultV10,
    candidate_basis: &Option<String>,
    current: &Option<CommittedCharterAuthorityV1>,
    lifecycle: &RetainedLifecycleAuthorityV1,
    coverage: &Vec<CharterCoverageResult>,
) -> (r: Result<(), LifecycleValidationErrorV1>)
    ensures
        r is Ok <==> result_binds_authorities(*res, opt_view(*candidate_basis), *current, *lifecycle, coverage@),
        r matches Err(e) ==> e.error_kind() == LifecycleValidationErrorKindV1::AuthorityMismatch,
{
    let observed: Option<String> = match current {
        Some(c) => Some(c.canonical_fingerprint.clone()),
        None => None,
    };
    if !(opt_texts_equal(candidate_basis, &observed) && opt_texts_equal(
        &res.basis_artifact_fingerprint,
        &observed,
    ) && opt_texts_equal(&res.observed_current_artifact_fingerprint, &observed)) {
        return Err(authority_error("lifecycle-validation result canonical basis is stale or transplanted"));
    }
    if !authorities_agree_check(current, lifecycle) {
        return Err(
            authority_error("canonical promotion authority and lifecycle authority are inconsistent"),
        );
    }
    match &lifecycle.authority {
        None => {
            if !text_is(&res.lifecycle_state, "absent") || res.lifecycle_head_ref.is_some()
                || res.lifecycle_head_fingerprint.is_some() || res.lifecycle_state_fingerprint.is_some()
                || res.active_observations.len() != 0 || res.reopened_coverage_ids.len() != 0 {
                return Err(
                    authority_error(
                        "create validation authority does not have the exact absent lifecycle closure",
                    ),
                );
            }
            Ok(())
        },
        Some(a) => {
            if !distinct_strings(&a.reopened_coverage_ids) {
                return Err(authority_error("current lifecycle authority contains duplicate reopened coverage"));
            }
            let ghost rv = string_views(a.reopened_coverage_ids@);
            let order = coverage_order_list();
            let ghost co = coverage_order();
            let mut expected: Vec<String> = Vec::new();
            let mut k: usize = 0;
            assert(co.take(0) =~= Seq::<Seq<char>>::empty());
            while k < order.len()
                invariant
                    order@.map_values(|t: &'static str| t@) == co,
                    co == coverage_order(),
                    k <= order.len(),
                    rv == string_views(a.reopened_coverage_ids@),
                    string_views(expected@) == ordered_subset(co.take(k as int), rv),
                decreases order.len() - k,
            {
                let id = order[k].to_owned();
                assert(co.take(k + 1).drop_last() =~= co.take(k as int));
                assert(co.take(k + 1).last() == co[k as int]);
                if strings_contain(a.reopened_coverage_ids.as_slice(), &id) {
                    let ghost before = string_views(expected@);
                    expected.push(id);
                    assert(string_views(expected@) =~= before + seq![co[k as int]]);
                }
                k = k + 1;
            }
            assert(co.take(order.len() as int) =~= co);
            let all_known = match ordered_reopened(&a.reopened_coverage_ids, coverage) {
                Ok(_) => true,
                Err(_) => false,
            };
            let mut known = true;
            let mut i: usize = 0;
            while i < a.reopened_coverage_ids.len()
                invariant
                    order@.map_values(|t: &'static str| t@) == co,
                    co == coverage_order(),
                    rv == string_views(a.reopened_coverage_ids@),
                    i <= a.reopened_coverage_ids.len(),
                    known == (forall|p: int| 0 <= p < i ==> co.contains(#[trigger] rv[p])),
                decreases a.reopened_coverage_ids.len() - i,
            {
                let mut found = false;
                let mut m: usize = 0;
                while m < order.len()
                    invariant
                        order@.map_values(|t: &'static str| t@) == co,
                        m <= order.len(),
                        i < a.reopened_coverage_ids.len(),
                        rv == string_views(a.reopened_coverage_ids@),
                        found == (exists|q: int| 0 <= q < m && co[q] == rv[i as int]),
                    decreases order.len() - m,
                {
                    let name = order[m].to_owned();
                    if a.reopened_coverage_ids[i] == name {
                        assert(co[m as int] == rv[i as int]);
                        found = true;
                    }
                    m = m + 1;
                }
                proof {
                    if found {
                        let q = choose|q: int| 0 <= q < order.len() && co[q] == rv[i as int];
                        assert(co.contains(rv[i as int]));
                    } else {
                        if co.contains(rv[i as int]) {
                            let q = co.index_of(rv[i as int]);
                            assert(co[q] == rv[i as int]);
                        }
                    }
                }
                known = known && found;
                i = i + 1;
            }
            if !known || !opt_text_is(&res.lifecycle_head_ref, &a.lifecycle_transition_ref) || !opt_text_is(
                &res.lifecycle_head_fingerprint,
                &a.lifecycle_transition_fingerprint,
            ) || !text_is(&res.lifecycle_state, lifecycle_state_name(a.state)) || !opt_text_is(
                &res.lifecycle_state_fingerprint,
                &a.state_fingerprint,
            ) || !observations_match_head(res, a) || !texts_equal(&res.reopened_coverage_ids, &expected) {
                return Err(
                    authority_error("lifecycle-validation result is stale, reordered, incomplete, or excess"),
                );
            }
            if !all_known {
                return Err(
                    authority_error("reopened lifecycle coverage is absent from the retained intake"),
                );
            }
            Ok(())
        },
    }
}


/// A validation result that was built from a candidate against the committed Charter and its
/// lifecycle authority binds those same authorities when it is checked against them again.
pub proof fn lemma_built_result_binds_authorities(
    res: CharterLifecycleValidationResultV10,
    candidate: ValidationCandidateV1,
    profile_ref: Seq<char>,
    profile_fingerprint: Seq<char>,
    current: Option<CommittedCharterAuthorityV1>,
    lifecycle: RetainedLifecycleAuthorityV1,
)
    requires
        build_authority_ok(candidate, current, lifecycle),
        result_built_from(res, candidate, profile_ref, profile_fingerprint, current, lifecycle),
    ensures
        result_binds_authorities(
            res,
            opt_view(candidate.basis_artifact_fingerprint),
            current,
            lifecycle,
            candidate.coverage_results@,
        ),
{
    match lifecycle.authority {
        Some(a) => {
            assert(result_observation_pairs(res) =~= head_observation_pairs(a));
        },
        None => {},
    }
}

// ---------------------------------------------------------------------------
// Persisted result bytes and the candidate's binding to them
// ---------------------------------------------------------------------------

/// The persisted bytes of a result: its canonical JSON and one line feed, within the
/// persistence bound.
pub open spec fn result_bytes_of(record: CharterLifecycleValidationResultV10) -> Option<Seq<u8>> {
    match jcs_lf_bytes(result_record_json(record)) {
        Some(b) => if b.len() <= MAX_LIFECYCLE_VALIDATION_RESULT_BYTES {
            Some(b)
        } else {
            None
        },
        None => None,
    }
}

/// Encodes a result for persistence.
pub fn encode_result(record: &CharterLifecycleValidationResultV10) -> (r: Result<Vec<u8>, LifecycleValidationErrorV1>)
    ensures
        match result_bytes_of(*record) {
            Some(b) => r matches Ok(v) && v@ == b,
            None => r matches Err(e) && e.error_kind() == LifecycleValidationErrorKindV1::InvalidResult,
        },
{
    let bytes = match encode_jcs_lf(&result_record_json_text(record)) {
        Some(b) => b,
        None => {
            return Err(invalid_result("lifecycle-validation result canonicalization failed"));
        },
    };
    if bytes.len() > MAX_LIFECYCLE_VALIDATION_RESULT_BYTES {
        return Err(invalid_result("lifecycle-validation result exceeds the 262,144-byte persistence bound"));
    }
    Ok(bytes)
}

/// A candidate's binding to the exact bytes of its lifecycle-validation result.
#[derive(Clone, Debug, PartialEq, Eq)]
pub struct CharterValidationResultBindingV13 {
    pub validation_result_ref: String,
    pub validation_result_fingerprint: String,
    pub result_document_sha256: String,
    pub result_byte_length: usize,
}

/// A well-formed result binding: fingerprinted result and document, a byte length within the
/// bound, and a content-addressed result reference that names the result fingerprint.
pub open spec fn binding_shape_ok(b: CharterValidationResultBindingV13) -> bool {
    &&& is_fingerprint(b.validation_result_fingerprint@)
    &&& is_fingerprint(b.result_document_sha256@)
    &&& 0 < b.result_byte_length <= MAX_LIFECYCLE_VALIDATION_RESULT_BYTES
    &&& between(
        b.validation_result_ref@,
        "lifecycle-validation-results/lifecycle-validation-result_"@,
        ".json"@,
    ) matches Some(hex) && is_lower_sha256_hex(hex) && sha256_prefix() + hex == b.validation_result_fingerprint@
}

/// Checks the shape of a result binding.
pub fn validate_result_binding_shape(binding: &CharterValidationResultBindingV13) -> (r: Result<
    (),
    LifecycleValidationErrorV1,
>)
    ensures
        r is Ok <==> binding_shape_ok(*binding),
        r matches Err(e) ==> e.error_kind() == LifecycleValidationErrorKindV1::AuthorityMismatch,
{
    if !fingerprint_ok(&binding.validation_result_fingerprint) {
        return Err(authority_error("candidate semantic result fingerprint is invalid"));
    }
    if !fingerprint_ok(&binding.result_document_sha256) {
        return Err(authority_error("candidate exact result-document digest is invalid"));
    }
    let named = match fingerprint_from_bound_ref(
        binding.validation_result_ref.as_str(),
        "lifecycle-validation-results/lifecycle-validation-result_",
        ".json",
    ) {
        Ok(f) => f,
        Err(e) => {
            return Err(e);
        },
    };
    if binding.result_byte_length == 0 || binding.result_byte_length > MAX_LIFECYCLE_VALIDATION_RESULT_BYTES
        || !(named == binding.validation_result_fingerprint) {
        return Err(authority_error("candidate exact-result binding ref, fingerprint, or byte bound is invalid"));
    }
    Ok(())
}

/// Binds a candidate to the persisted bytes of its result under the result's reference.
pub fn result_binding(
    relative_ref: &str,
    record: &CharterLifecycleValidationResultV10,
    result_bytes: &[u8],
) -> (r: Result<CharterValidationResultBindingV13, LifecycleValidationErrorV1>)
    ensures
        r matches Ok(b) ==> {
            &&& b.validation_result_ref@ == relative_ref@
            &&& b.validation_result_fingerprint@ == record.validation_result_fingerprint@
            &&& b.result_document_sha256@ == content_fingerprint(result_bytes@)
            &&& b.result_byte_length == result_bytes@.len()
            &&& binding_shape_ok(b)
        },
        r is Err ==> forall|b: CharterValidationResultBindingV13|
            b.validation_result_ref@ == relative_ref@ && b.validation_result_fingerprint@
                == record.validation_result_fingerprint@ && b.result_document_sha256@ == content_fingerprint(
                result_bytes@,
            ) && b.result_byte_length == result_bytes@.len() ==> !#[trigger] binding_shape_ok(b),
        r matches Err(e) ==> e.error_kind() == LifecycleValidationErrorKindV1::AuthorityMismatch,
{
    let binding = CharterValidationResultBindingV13 {
        validation_result_ref: relative_ref.to_owned(),
        validation_result_fingerprint: record.validation_result_fingerprint.clone(),
        result_document_sha256: string_of(&fingerprint_of_bytes(result_bytes)),
        result_byte_length: result_bytes.len(),
    };
    match validate_result_binding_shape(&binding) {
        Ok(()) => Ok(binding),
        Err(e) => Err(e),
    }
}

fn slices_equal(a: &[u8], b: &[u8]) -> (r: bool)
    ensures
        r == (a@ == b@),
{
    if a.len() != b.len() {
        return false;
    }
    let mut i: usize = 0;
    while i < a.len()
        invariant
            a.len() == b.len(),
            i <= a.len(),
            forall|k: int| 0 <= k < i ==> a@[k] == b@[k],
        decreases a.len() - i,
    {
        if a[i] != b[i] {
            return false;
        }
        i = i + 1;
    }
    assert(a@ =~= b@);
    true
}

/// Record bytes framed as canonical JSON and one line feed, within the persistence bound.
pub open spec fn result_framed(bytes: Seq<u8>) -> bool {
    &&& 0 < bytes.len() <= MAX_LIFECYCLE_VALIDATION_RESULT_BYTES
    &&& bytes.last() == 10u8
    &&& !(bytes.len() >= 2 && bytes[bytes.len() - 2] == 10u8)
}

/// Checks persisted result bytes against the record they decode to: their framing, that they
/// are exactly its canonical encoding, and that the record is a valid result bound to
/// `expected_ref` when one is given.
pub fn validate_result_bytes(
    bytes: &[u8],
    expected_ref: Option<&str>,
    record: &CharterLifecycleValidationResultV10,
) -> (r: Result<(), LifecycleValidationErrorV1>)
    ensures
        r is Ok <==> result_framed(bytes@) && jcs_lf_bytes(result_record_json(*record)) == Some(bytes@)
            && result_record_valid(
            *record,
            match expected_ref {
                Some(e) => Some(e@),
                None => None,
            },
        ),
        r matches Err(e) ==> e.error_kind() == LifecycleValidationErrorKindV1::InvalidResult,
{
    let n = bytes.len();
    if n == 0 || n > MAX_LIFECYCLE_VALIDATION_RESULT_BYTES || bytes[n - 1] != 10u8 || (n >= 2 && bytes[n - 2]
        == 10u8) {
        return Err(invalid_result("lifecycle-validation result must be bounded exact JCS plus one LF"));
    }
    let encoded = match encode_jcs_lf(&result_record_json_text(record)) {
        Some(b) => b,
        None => {
            return Err(invalid_result("lifecycle-validation result cannot be canonicalized"));
        },
    };
    if !slices_equal(encoded.as_slice(), bytes) {
        return Err(invalid_result("lifecycle-validation result bytes are not exact RFC 8785 JCS"));
    }
    validate_result_record(record, expected_ref)
}

/// Checks result bytes that a candidate binds: the binding's shape, that the bytes are the
/// bound document, that they are a valid result under the bound reference, and that the result
/// is the bound one for the expected candidate subject.
pub fn validate_bound_result_bytes(
    bytes: &[u8],
    binding: &CharterValidationResultBindingV13,
    expected_candidate_subject_fingerprint: &str,
    record: &CharterLifecycleValidationResultV10,
) -> (r: Result<(), LifecycleValidationErrorV1>)
    ensures
        r is Ok <==> {
            &&& binding_shape_ok(*binding)
            &&& bytes@.len() == binding.result_byte_length
            &&& content_fingerprint(bytes@) == binding.result_document_sha256@
            &&& result_framed(bytes@)
            &&& jcs_lf_bytes(result_record_json(*record)) == Some(bytes@)
            &&& result_record_valid(*record, Some(binding.validation_result_ref@))
            &&& record.validation_result_fingerprint@ == binding.validation_result_fingerprint@
            &&& record.candidate_subject_fingerprint@ == expected_candidate_subject_fingerprint@
        },
        r matches Err(e) ==> (e.error_kind() == LifecycleValidationErrorKindV1::ExistingBytesMismatch <==> (
        binding_shape_ok(*binding) && !(bytes@.len() == binding.result_byte_length && content_fingerprint(
            bytes@,
        ) == binding.result_document_sha256@))),
{
    match validate_result_binding_shape(binding) {
        Ok(()) => {},
        Err(e) => {
            return Err(e);
        },
    }
    let digest = fingerprint_of_bytes(bytes);
    if bytes.len() != binding.result_byte_length || !chars_eq(
        &digest,
        &chars_of(binding.result_document_sha256.as_str()),
    ) {
        return Err(
            LifecycleValidationErrorV1::new(
                LifecycleValidationErrorKindV1::ExistingBytesMismatch,
                "exact lifecycle-validation result digest or LF-inclusive byte length disagrees with candidate authority",
            ),
        );
    }
    match validate_result_bytes(bytes, Some(binding.validation_result_ref.as_str()), record) {
        Ok(()) => {},
        Err(e) => {
            return Err(e);
        },
    }
    if !(record.validation_result_fingerprint == binding.validation_result_fingerprint && text_is(
        &record.candidate_subject_fingerprint,
        expected_candidate_subject_fingerprint,
    )) {
        return Err(
            authority_error("candidate exact-result binding crosses semantic result or candidate-subject authority"),
        );
    }
    Ok(())
}

/// The coverage IDs are sixteen distinct IDs.
pub proof fn lemma_coverage_order_distinct()
    ensures
        distinct_texts(coverage_order()),
{
    reveal_strlit("project_shape.definition");
    reveal_strlit("delivery.constraints");
    reveal_strlit("delivery.default_implications");
    reveal_strlit("operational_reality.production_state");
    reveal_strlit("risk.domains");
    reveal_strlit("engineering_posture.baseline");
    reveal_strlit("policy.authority_and_revision");
    reveal_strlit("governance.decision_authority");
    reveal_strlit("governance.required_approvals");
    reveal_strlit("governance.exception_policy");
    reveal_strlit("engineering_posture.dimensions");
    reveal_strlit("engineering_posture.red_lines");
    reveal_strlit("governance.review_triggers");
    reveal_strlit("governance.reassessment_triggers");
    reveal_strlit("debt.register");
    reveal_strlit("decisions.records");
    let c = coverage_order();
    assert forall|i: int, j: int| 0 <= i < j < c.len() implies #[trigger] c[i] != #[trigger] c[j] by {
        if c[i] == c[j] {
            assert(c[i].len() == c[j].len());
            assert(c[i][0] == c[j][0]);
            assert(c[i][c[i].len() - 1] == c[j][c[j].len() - 1]);
            assert(c[i][5] == c[j][5]);
            assert(c[i][11] == c[j][11]);
            assert(c[i][12] == c[j][12]);
        }
    }
}

/// The members of `order` that `ids` holds, in order, are members of `order`; where `order`
/// is distinct they are distinct.
pub proof fn lemma_ordered_subset_distinct(order: Seq<Seq<char>>, ids: Seq<Seq<char>>)
    requires
        distinct_texts(order),
    ensures
        distinct_texts(ordered_subset(order, ids)),
        forall|k: int| 0 <= k < ordered_subset(order, ids).len() ==> order.contains(#[trigger] ordered_subset(order, ids)[k]),
    decreases order.len(),
{
    if order.len() > 0 {
        let prefix = order.drop_last();
        assert(distinct_texts(prefix)) by {
            assert forall|i: int, j: int| 0 <= i < j < prefix.len() implies #[trigger] prefix[i] != #[trigger] prefix[j] by {
                assert(prefix[i] == order[i] && prefix[j] == order[j]);
            }
        }
        lemma_ordered_subset_distinct(prefix, ids);
        let rest = ordered_subset(prefix, ids);
        let all = ordered_subset(order, ids);
        assert forall|k: int| 0 <= k < rest.len() implies #[trigger] rest[k] != order.last() by {
            let m = prefix.index_of(rest[k]);
            assert(prefix[m] == order[m]);
            assert(order[m] != order[order.len() - 1]);
        }
        assert forall|k: int| 0 <= k < all.len() implies order.contains(#[trigger] all[k]) by {
            if k < rest.len() {
                assert(all[k] == rest[k]);
                let m = prefix.index_of(rest[k]);
                assert(order[m] == rest[k]);
            } else {
                assert(all[k] == order.last());
                assert(order[order.len() - 1] == all[k]);
            }
        }
        assert forall|i: int, j: int| 0 <= i < j < all.len() implies #[trigger] all[i] != #[trigger] all[j] by {
            if j < rest.len() {
                assert(all[i] == rest[i] && all[j] == rest[j]);
            } else {
                assert(all[i] == rest[i] && all[j] == order.last());
            }
        }
    }
}

/// The validation result that a candidate's build gave, stamped with a UTC validation time, is
/// a valid result under its own content-addressed reference, when the candidate, the committed
/// Charter and the lifecycle head carry well-formed fingerprints, the head's active
/// observations are distinct, and the selected profile is the reviewed one.
pub proof fn lemma_stamped_result_is_valid(
    res: CharterLifecycleValidationResultV10,
    candidate: ValidationCandidateV1,
    current: Option<CommittedCharterAuthorityV1>,
    lifecycle: RetainedLifecycleAuthorityV1,
)
    requires
        build_authority_ok(candidate, current, lifecycle),
        result_content_from(res, candidate, SELECTED_PROFILE_REF@, SELECTED_PROFILE_FINGERPRINT@, current, lifecycle),
        json_fingerprint(result_preimage_json(res)) == Some(res.validation_result_fingerprint@),
        res.validation_result_id@ == result_id_of(res.validation_result_fingerprint@),
        is_fingerprint(res.validation_result_fingerprint@),
        is_fingerprint(res.normalized_content_fingerprint@),
        utc_timestamp_layout(encode_utf8(res.validated_at_utc@)),
        is_fingerprint(candidate.candidate_subject_fingerprint@),
        is_fingerprint(candidate.intake_record_fingerprint@),
        current matches Some(c) ==> is_fingerprint(c.canonical_fingerprint@),
        lifecycle.authority matches Some(a) ==> {
            &&& is_fingerprint(a.lifecycle_transition_fingerprint@)
            &&& is_fingerprint(a.state_fingerprint@)
            &&& forall|i: int, j: int|
                0 <= i < j < a.active_observation_refs@.len() ==> (
                    (#[trigger] a.active_observation_refs@[i])@,
                    a.active_observation_fingerprints@[i]@,
                ) != ((#[trigger] a.active_observation_refs@[j])@, a.active_observation_fingerprints@[j]@)
        },
    ensures
        result_record_valid(res, Some(result_ref_of(res.validation_result_fingerprint@))),
{
    match lifecycle.authority {
        Some(a) => {
            lemma_coverage_order_distinct();
            lemma_ordered_subset_distinct(coverage_order(), string_views(a.reopened_coverage_ids@));
            let o = res.active_observations@;
            assert forall|i: int, j: int| 0 <= i < j < o.len() implies ((#[trigger] o[i]).observation_ref@,
                o[i].observation_fingerprint@) != ((#[trigger] o[j]).observation_ref@, o[j].observation_fingerprint@) by {
                assert(o[i].observation_ref@ == a.active_observation_refs@[i]@);
                assert(o[j].observation_ref@ == a.active_observation_refs@[j]@);
            }
            let r = res.reopened_coverage_ids@;
            assert forall|i: int, j: int| 0 <= i < j < r.len() implies (#[trigger] r[i])@ != (#[trigger] r[j])@ by {
                assert(string_views(r)[i] == r[i]@ && string_views(r)[j] == r[j]@);
            }
            reveal_strlit("current");
            reveal_strlit("review_required");
            reveal_strlit("reassessment_required");
            reveal_strlit("absent");
        },
        None => {},
    }
}

} // verus!
