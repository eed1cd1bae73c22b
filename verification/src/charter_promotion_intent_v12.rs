use vstd::prelude::*;
use vstd::utf8::encode_utf8;
use crate::charter_intake::{coverage_order, coverage_order_list};
use crate::charter_lifecycle::strings_contain;
use crate::charter_lifecycle_validation::{
    binding_view, definition_binding_table, definition_bindings, LifecycleActiveObservationV10,
    LifecycleDefinitionBindingV10,
};
use crate::charter_promotion_workflow::{lemma_pair_lt_transitive, pair_lt};
use crate::context_resolution::is_id_char;
use crate::digest::{
    commit_marker, is_fingerprint, is_fingerprint_chars, lemma_sha256_prefix, marker_of,
    sha256_prefix,
};
use crate::json::{fingerprint_json, jcs_lf_bytes, json_fingerprint};
pub use crate::promotion_records::{
    PromotionApprovalBindingV12, PromotionCandidateLineageV12, PromotionHumanAuthorityV12,
    PromotionIntentTargetV12, PromotionOutputRecordV12, PromotionOutputsV12,
    PromotionRecoveryV12, PromotionSelectedContractV12, PromotionTransactionIntentV12,
    ValidatedPromotionIntentV12,
};
use crate::promotion_records::{
    intent_preimage_json, intent_preimage_json_text, intent_record_json, intent_record_json_text,
};
use crate::text::{
    ascii_alnum, between, chars_eq, chars_lt, chars_of, has_prefix, is_ascii_alnum,
    is_lower_sha256_hex, seq_lt, sha256_hex_text, strip_between,
};

verus! {

/// The most bytes of a promotion transaction intent record.
pub const MAX_PROMOTION_INTENT_BYTES_V12: usize = 262144;

/// A refused promotion intent, with the reason.
#[derive(Clone, Debug, PartialEq, Eq)]
pub struct PromotionIntentValidationErrorV12 {
    detail: String,
}

impl PromotionIntentValidationErrorV12 {
    /// The text that explains the refusal.
    pub closed spec fn error_detail(&self) -> Seq<char> {
        self.detail@
    }

    pub fn new(detail: &str) -> (r: Self)
        ensures
            r.error_detail() == detail@,
    {
        Self { detail: detail.to_owned() }
    }

    pub fn detail(&self) -> (r: &str)
        ensures
            r@ == self.error_detail(),
    {
        self.detail.as_str()
    }
}

fn invalid(detail: &str) -> (r: PromotionIntentValidationErrorV12)
    ensures
        r.error_detail() == detail@,
{
    PromotionIntentValidationErrorV12::new(detail)
}

// ---------------------------------------------------------------------------
// References, identifiers and fingerprints
// ---------------------------------------------------------------------------

/// A content-addressed reference `<prefix><64 hex><suffix>` whose declared fingerprint is the
/// one its basename carries.
pub open spec fn named_ref(
    reference: Seq<char>,
    prefix: Seq<char>,
    suffix: Seq<char>,
    fingerprint: Seq<char>,
) -> bool {
    match between(reference, prefix, suffix) {
        Some(hex) => is_lower_sha256_hex(hex) && fingerprint == sha256_prefix() + hex,
        None => false,
    }
}

fn named_ref_ok(reference: &String, prefix: &str, suffix: &str, fingerprint: &String) -> (r: bool)
    ensures
        r == named_ref(reference@, prefix@, suffix@, fingerprint@),
{
    let hex = match strip_between(
        &chars_of(reference.as_str()),
        &chars_of(prefix),
        &chars_of(suffix),
    ) {
        Some(h) => h,
        None => {
            return false;
        },
    };
    if !sha256_hex_text(&hex) {
        return false;
    }
    let mut expected = chars_of("sha256:");
    proof {
        lemma_sha256_prefix();
    }
    let mut tail = crate::json::copy_text(&hex);
    expected.append(&mut tail);
    chars_eq(&chars_of(fingerprint.as_str()), &expected)
}

/// A promotion transaction ID: `promotion-transaction_` and 1 to 128 of `[A-Za-z0-9._-]`,
/// starting with a letter or digit.
pub open spec fn promotion_transaction_id_valid(value: Seq<char>) -> bool {
    let p = "promotion-transaction_"@;
    let s = value.skip(p.len() as int);
    &&& has_prefix(value, p)
    &&& 0 < s.len() <= 128
    &&& is_ascii_alnum(s[0])
    &&& forall|i: int| 0 <= i < s.len() ==> is_id_char(#[trigger] s[i])
}

fn transaction_id_ok(value: &String) -> (r: bool)
    ensures
        r == promotion_transaction_id_valid(value@),
{
    let v = chars_of(value.as_str());
    let p = chars_of("promotion-transaction_");
    if !crate::text::starts_with(&v, &p) {
        return false;
    }
    let s = crate::text::slice_chars(&v, p.len(), v.len());
    assert(s@ =~= value@.skip("promotion-transaction_"@.len() as int));
    if s.len() == 0 || s.len() > 128 || !ascii_alnum(s[0]) {
        return false;
    }
    let mut i: usize = 0;
    while i < s.len()
        invariant
            s@ =~= value@.skip("promotion-transaction_"@.len() as int),
            i <= s.len(),
            forall|k: int| 0 <= k < i ==> is_id_char(#[trigger] s@[k]),
        decreases s.len() - i,
    {
        if !(ascii_alnum(s[i]) || s[i] == '.' || s[i] == '_' || s[i] == '-') {
            return false;
        }
        i = i + 1;
    }
    true
}

/// An identifier made of a fixed prefix and 64 lowercase hex digits.
pub open spec fn hex_id_valid(value: Seq<char>, prefix: Seq<char>) -> bool {
    has_prefix(value, prefix) && is_lower_sha256_hex(value.skip(prefix.len() as int))
}

fn hex_id_ok(value: &String, prefix: &str) -> (r: bool)
    ensures
        r == hex_id_valid(value@, prefix@),
{
    let v = chars_of(value.as_str());
    let p = chars_of(prefix);
    if !crate::text::starts_with(&v, &p) {
        return false;
    }
    let s = crate::text::slice_chars(&v, p.len(), v.len());
    assert(s@ =~= value@.skip(prefix@.len() as int));
    sha256_hex_text(&s)
}

fn fingerprint_ok(value: &String) -> (r: bool)
    ensures
        r == is_fingerprint(value@),
{
    is_fingerprint_chars(&chars_of(value.as_str()))
}

pub open spec fn opt_fingerprint_valid(o: Option<String>) -> bool {
    o matches Some(f) ==> is_fingerprint(f@)
}

fn opt_fingerprint_ok(o: &Option<String>) -> (r: bool)
    ensures
        r == opt_fingerprint_valid(*o),
{
    match o {
        Some(f) => fingerprint_ok(f),
        None => true,
    }
}

fn text_is(value: &String, literal: &str) -> (r: bool)
    ensures
        r == (value@ == literal@),
{
    chars_eq(&chars_of(value.as_str()), &chars_of(literal))
}

/// Every fingerprint that a promotion intent carries is a well-formed fingerprint.
pub open spec fn intent_fingerprints_valid(r: PromotionTransactionIntentV12) -> bool {
    &&& is_fingerprint(r.candidate_lineage.candidate_fingerprint@)
    &&& is_fingerprint(r.candidate_lineage.candidate_subject_fingerprint@)
    &&& is_fingerprint(r.candidate_lineage.intake_record_fingerprint@)
    &&& is_fingerprint(r.candidate_lineage.normalized_content_fingerprint@)
    &&& is_fingerprint(r.candidate_lineage.validation_result_fingerprint@)
    &&& is_fingerprint(r.selected_contract.resolved_profile_fingerprint@)
    &&& is_fingerprint(r.selected_contract.lifecycle_policy_fingerprint@)
    &&& is_fingerprint(r.human_authority.approver_registry_state_fingerprint@)
    &&& is_fingerprint(r.human_authority.registry_head_transition_fingerprint@)
    &&& is_fingerprint(r.outputs.new_canonical_fingerprint@)
    &&& is_fingerprint(r.outputs.new_canonical_document_sha256@)
    &&& is_fingerprint(r.outputs.promotion_record.record_fingerprint@)
    &&& is_fingerprint(r.outputs.promotion_record.document_sha256@)
    &&& is_fingerprint(r.outputs.lifecycle_transition.record_fingerprint@)
    &&& is_fingerprint(r.outputs.lifecycle_transition.document_sha256@)
    &&& is_fingerprint(r.intent_fingerprint@)
    &&& forall|i: int|
        0 <= i < r.selected_contract.resolved_definitions@.len() ==> is_fingerprint(
            (#[trigger] r.selected_contract.resolved_definitions@[i]).definition_fingerprint@,
        )
    &&& forall|i: int|
        0 <= i < r.selected_contract.active_observations@.len() ==> is_fingerprint(
            (#[trigger] r.selected_contract.active_observations@[i]).observation_fingerprint@,
        )
    &&& forall|i: int|
        0 <= i < r.human_authority.approval_bindings@.len() ==> is_fingerprint(
            (#[trigger] r.human_authority.approval_bindings@[i]).approval_fingerprint@,
        )
    &&& opt_fingerprint_valid(r.target.basis_artifact_fingerprint)
    &&& opt_fingerprint_valid(r.target.observed_current_artifact_fingerprint)
    &&& opt_fingerprint_valid(r.selected_contract.prior_lifecycle_head_fingerprint)
    &&& opt_fingerprint_valid(r.selected_contract.prior_lifecycle_state_fingerprint)
    &&& opt_fingerprint_valid(r.recovery.old_canonical_fingerprint)
    &&& opt_fingerprint_valid(r.recovery.old_canonical_document_sha256)
}

fn intent_fingerprints_ok(r: &PromotionTransactionIntentV12) -> (ok: bool)
    ensures
        ok == intent_fingerprints_valid(*r),
{
    if !(fingerprint_ok(&r.candidate_lineage.candidate_fingerprint) && fingerprint_ok(
        &r.candidate_lineage.candidate_subject_fingerprint,
    ) && fingerprint_ok(&r.candidate_lineage.intake_record_fingerprint) && fingerprint_ok(
        &r.candidate_lineage.normalized_content_fingerprint,
    ) && fingerprint_ok(&r.candidate_lineage.validation_result_fingerprint) && fingerprint_ok(
        &r.selected_contract.resolved_profile_fingerprint,
    ) && fingerprint_ok(&r.selected_contract.lifecycle_policy_fingerprint) && fingerprint_ok(
        &r.human_authority.approver_registry_state_fingerprint,
    ) && fingerprint_ok(&r.human_authority.registry_head_transition_fingerprint)
        && fingerprint_ok(&r.outputs.new_canonical_fingerprint) && fingerprint_ok(
        &r.outputs.new_canonical_document_sha256,
    ) && fingerprint_ok(&r.outputs.promotion_record.record_fingerprint) && fingerprint_ok(
        &r.outputs.promotion_record.document_sha256,
    ) && fingerprint_ok(&r.outputs.lifecycle_transition.record_fingerprint) && fingerprint_ok(
        &r.outputs.lifecycle_transition.document_sha256,
    ) && fingerprint_ok(&r.intent_fingerprint)) {
        return false;
    }
    let definitions = &r.selected_contract.resolved_definitions;
    let mut i: usize = 0;
    while i < definitions.len()
        invariant
            definitions@ == r.selected_contract.resolved_definitions@,
            i <= definitions.len(),
            forall|k: int| 0 <= k < i ==> is_fingerprint((#[trigger] definitions@[k]).definition_fingerprint@),
        decreases definitions.len() - i,
    {
        if !fingerprint_ok(&definitions[i].definition_fingerprint) {
            return false;
        }
        i = i + 1;
    }
    let observations = &r.selected_contract.active_observations;
    let mut i: usize = 0;
    while i < observations.len()
        invariant
            observations@ == r.selected_contract.active_observations@,
            i <= observations.len(),
            forall|k: int| 0 <= k < i ==> is_fingerprint((#[trigger] observations@[k]).observation_fingerprint@),
        decreases observations.len() - i,
    {
        if !fingerprint_ok(&observations[i].observation_fingerprint) {
            return false;
        }
        i = i + 1;
    }
    let approvals = &r.human_authority.approval_bindings;
    let mut i: usize = 0;
    while i < approvals.len()
        invariant
            approvals@ == r.human_authority.approval_bindings@,
            i <= approvals.len(),
            forall|k: int| 0 <= k < i ==> is_fingerprint((#[trigger] approvals@[k]).approval_fingerprint@),
        decreases approvals.len() - i,
    {
        if !fingerprint_ok(&approvals[i].approval_fingerprint) {
            return false;
        }
        i = i + 1;
    }
    opt_fingerprint_ok(&r.target.basis_artifact_fingerprint) && opt_fingerprint_ok(
        &r.target.observed_current_artifact_fingerprint,
    ) && opt_fingerprint_ok(&r.selected_contract.prior_lifecycle_head_fingerprint)
        && opt_fingerprint_ok(&r.selected_contract.prior_lifecycle_state_fingerprint)
        && opt_fingerprint_ok(&r.recovery.old_canonical_fingerprint) && opt_fingerprint_ok(
        &r.recovery.old_canonical_document_sha256,
    )
}

// ---------------------------------------------------------------------------
// Constants, references and outputs
// ---------------------------------------------------------------------------

/// The fixed schema, target and selected-contract constants of a promotion intent 1.2.
pub open spec fn intent_constants_valid(r: PromotionTransactionIntentV12) -> bool {
    &&& r.schema_id@ == "handbook.charter-promotion-transaction-intent"@
    &&& r.schema_version@ == "1.2"@
    &&& r.target.target_instance_id@ == "project_authority"@
    &&& r.target.canonical_artifact_ref@ == ".handbook/project/charter.yaml"@
    &&& r.selected_contract.profile_ref@ == "handbook.profile.shipped-root@1.1.0"@
    &&& r.selected_contract.resolved_profile_fingerprint@
        == "sha256:6a7b41befa77b999b9ee20f513636051726a8401a81bf2f369501e8f3dd4fa74"@
    &&& r.selected_contract.lifecycle_policy_ref@
        == "handbook.lifecycle.constitutional-review-lock@1.0.0"@
    &&& r.selected_contract.lifecycle_policy_fingerprint@
        == "sha256:88caafb9caaf137647c42a91cd2762ac0871e0a20e2a1844c2c0076d5fb43cc3"@
    &&& r.selected_contract.resolved_definitions@.map_values(
        |b: LifecycleDefinitionBindingV10| binding_view(b),
    ) == definition_binding_table()
}

fn same_definition(a: &LifecycleDefinitionBindingV10, b: &LifecycleDefinitionBindingV10) -> (r: bool)
    ensures
        r == (binding_view(*a) == binding_view(*b)),
{
    a.definition_role == b.definition_role && a.definition_ref == b.definition_ref
        && a.definition_fingerprint == b.definition_fingerprint
}

fn intent_constants_ok(r: &PromotionTransactionIntentV12) -> (ok: bool)
    ensures
        ok == intent_constants_valid(*r),
{
    if !(text_is(&r.schema_id, "handbook.charter-promotion-transaction-intent") && text_is(
        &r.schema_version,
        "1.2",
    ) && text_is(&r.target.target_instance_id, "project_authority") && text_is(
        &r.target.canonical_artifact_ref,
        ".handbook/project/charter.yaml",
    ) && text_is(&r.selected_contract.profile_ref, "handbook.profile.shipped-root@1.1.0")
        && text_is(
        &r.selected_contract.resolved_profile_fingerprint,
        "sha256:6a7b41befa77b999b9ee20f513636051726a8401a81bf2f369501e8f3dd4fa74",
    ) && text_is(
        &r.selected_contract.lifecycle_policy_ref,
        "handbook.lifecycle.constitutional-review-lock@1.0.0",
    ) && text_is(
        &r.selected_contract.lifecycle_policy_fingerprint,
        "sha256:88caafb9caaf137647c42a91cd2762ac0871e0a20e2a1844c2c0076d5fb43cc3",
    )) {
        return false;
    }
    let expected = definition_bindings();
    let actual = &r.selected_contract.resolved_definitions;
    let ghost ev = expected@.map_values(|b: LifecycleDefinitionBindingV10| binding_view(b));
    let ghost av = actual@.map_values(|b: LifecycleDefinitionBindingV10| binding_view(b));
    if expected.len() != actual.len() {
        assert(av.len() != ev.len());
        return false;
    }
    let mut i: usize = 0;
    while i < actual.len()
        invariant
            actual@ == r.selected_contract.resolved_definitions@,
            expected.len() == actual.len(),
            ev == expected@.map_values(|b: LifecycleDefinitionBindingV10| binding_view(b)),
            ev == definition_binding_table(),
            av == actual@.map_values(|b: LifecycleDefinitionBindingV10| binding_view(b)),
            i <= actual.len(),
            forall|k: int| 0 <= k < i ==> av[k] == ev[k],
        decreases actual.len() - i,
    {
        if !same_definition(&actual[i], &expected[i]) {
            assert(av[i as int] != ev[i as int]);
            assert(r.selected_contract.resolved_definitions@.map_values(
                |b: LifecycleDefinitionBindingV10| binding_view(b),
            )[i as int] != definition_binding_table()[i as int]);
            return false;
        }
        i = i + 1;
    }
    assert(av =~= ev);
    true
}

/// The content-addressed references of a promotion intent name their fingerprints, its
/// promotion ID is that of its promotion output, and its outputs are bounded.
pub open spec fn intent_refs_valid(r: PromotionTransactionIntentV12) -> bool {
    &&& named_ref(
        r.candidate_lineage.candidate_ref@,
        "candidates/candidate_"@,
        ".json"@,
        r.candidate_lineage.candidate_fingerprint@,
    )
    &&& named_ref(
        r.candidate_lineage.intake_record_ref@,
        "intake-records/intake_"@,
        ".json"@,
        r.candidate_lineage.intake_record_fingerprint@,
    )
    &&& named_ref(
        r.candidate_lineage.normalized_content_ref@,
        "candidate-content/charter_"@,
        ".yaml"@,
        r.candidate_lineage.normalized_content_fingerprint@,
    )
    &&& named_ref(
        r.candidate_lineage.validation_result_ref@,
        "lifecycle-validation-results/lifecycle-validation-result_"@,
        ".json"@,
        r.candidate_lineage.validation_result_fingerprint@,
    )
    &&& named_ref(
        r.outputs.promotion_record.record_ref@,
        "promotions/promotion_"@,
        ".json"@,
        r.outputs.promotion_record.record_fingerprint@,
    )
    &&& named_ref(
        r.outputs.lifecycle_transition.record_ref@,
        "lifecycle-transitions/lifecycle-transition_"@,
        ".json"@,
        r.outputs.lifecycle_transition.record_fingerprint@,
    )
    &&& r.promotion_id@ == r.outputs.promotion_record.record_ref@.subrange(
        "promotions/"@.len() as int,
        r.outputs.promotion_record.record_ref@.len() - ".json"@.len(),
    )
    &&& r.outputs.new_canonical_fingerprint@ == r.outputs.new_canonical_document_sha256@
    &&& 1 <= r.outputs.new_canonical_byte_length <= 1048576
    &&& 1 <= r.outputs.promotion_record.byte_length <= 262144
    &&& 1 <= r.outputs.lifecycle_transition.byte_length <= 262144
    &&& named_ref(
        r.human_authority.approver_registry_state_ref@,
        "registry-states/registry-state_"@,
        ".json"@,
        r.human_authority.approver_registry_state_fingerprint@,
    )
    &&& named_ref(
        r.human_authority.registry_head_transition_ref@,
        "registry-transitions/registry-transition_"@,
        ".json"@,
        r.human_authority.registry_head_transition_fingerprint@,
    )
}

fn intent_refs_ok(r: &PromotionTransactionIntentV12) -> (ok: bool)
    ensures
        ok == intent_refs_valid(*r),
{
    if !(named_ref_ok(
        &r.candidate_lineage.candidate_ref,
        "candidates/candidate_",
        ".json",
        &r.candidate_lineage.candidate_fingerprint,
    ) && named_ref_ok(
        &r.candidate_lineage.intake_record_ref,
        "intake-records/intake_",
        ".json",
        &r.candidate_lineage.intake_record_fingerprint,
    ) && named_ref_ok(
        &r.candidate_lineage.normalized_content_ref,
        "candidate-content/charter_",
        ".yaml",
        &r.candidate_lineage.normalized_content_fingerprint,
    ) && named_ref_ok(
        &r.candidate_lineage.validation_result_ref,
        "lifecycle-validation-results/lifecycle-validation-result_",
        ".json",
        &r.candidate_lineage.validation_result_fingerprint,
    ) && named_ref_ok(
        &r.outputs.promotion_record.record_ref,
        "promotions/promotion_",
        ".json",
        &r.outputs.promotion_record.record_fingerprint,
    ) && named_ref_ok(
        &r.outputs.lifecycle_transition.record_ref,
        "lifecycle-transitions/lifecycle-transition_",
        ".json",
        &r.outputs.lifecycle_transition.record_fingerprint,
    )) {
        return false;
    }
    let record_ref = chars_of(r.outputs.promotion_record.record_ref.as_str());
    proof {
        reveal_strlit("promotions/promotion_");
        reveal_strlit(".json");
        reveal_strlit("promotions/");
    }
    assert(record_ref@.len() >= "promotions/promotion_"@.len() + ".json"@.len());
    let id = crate::text::slice_chars(&record_ref, 11, record_ref.len() - 5);
    if !chars_eq(&chars_of(r.promotion_id.as_str()), &id) {
        return false;
    }
    if !(r.outputs.new_canonical_fingerprint == r.outputs.new_canonical_document_sha256) {
        return false;
    }
    if r.outputs.new_canonical_byte_length == 0 || r.outputs.new_canonical_byte_length > 1048576 {
        return false;
    }
    if r.outputs.promotion_record.byte_length == 0 || r.outputs.promotion_record.byte_length
        > 262144 || r.outputs.lifecycle_transition.byte_length == 0
        || r.outputs.lifecycle_transition.byte_length > 262144 {
        return false;
    }
    named_ref_ok(
        &r.human_authority.approver_registry_state_ref,
        "registry-states/registry-state_",
        ".json",
        &r.human_authority.approver_registry_state_fingerprint,
    ) && named_ref_ok(
        &r.human_authority.registry_head_transition_ref,
        "registry-transitions/registry-transition_",
        ".json",
        &r.human_authority.registry_head_transition_fingerprint,
    )
}

// ---------------------------------------------------------------------------
// Approvals, observations and reopened coverage
// ---------------------------------------------------------------------------

/// An approval class or authority ref: non-empty and at most 256 bytes.
pub open spec fn approval_text_ok(s: Seq<char>) -> bool {
    s.len() > 0 && encode_utf8(s).len() <= 256
}

/// The approval class and authority ref of an approval binding.
pub open spec fn approval_pair(a: PromotionApprovalBindingV12) -> (Seq<char>, Seq<char>) {
    (a.approval_class@, a.authority_ref@)
}

/// One to sixteen approval bindings, each bounded and naming its approval record, in strictly
/// ascending order of approval class and then authority.
pub open spec fn approvals_valid(a: Seq<PromotionApprovalBindingV12>) -> bool {
    &&& 1 <= a.len() <= 16
    &&& forall|i: int|
        0 <= i < a.len() ==> approval_text_ok((#[trigger] a[i]).approval_class@) && approval_text_ok(
            a[i].authority_ref@,
        ) && named_ref(
            a[i].approval_ref@,
            "approvals/approval_"@,
            ".json"@,
            a[i].approval_fingerprint@,
        )
    &&& forall|i: int, j: int|
        0 <= i < j < a.len() ==> pair_lt(approval_pair(#[trigger] a[i]), approval_pair(#[trigger] a[j]))
}

fn approval_pair_less(a: &PromotionApprovalBindingV12, b: &PromotionApprovalBindingV12) -> (r: bool)
    ensures
        r == pair_lt(approval_pair(*a), approval_pair(*b)),
{
    let ac = chars_of(a.approval_class.as_str());
    let bc = chars_of(b.approval_class.as_str());
    if chars_lt(&ac, &bc) {
        true
    } else if chars_eq(&ac, &bc) {
        chars_lt(&chars_of(a.authority_ref.as_str()), &chars_of(b.authority_ref.as_str()))
    } else {
        false
    }
}

fn approvals_ok(a: &Vec<PromotionApprovalBindingV12>) -> (r: bool)
    ensures
        r == approvals_valid(a@),
{
    if a.len() == 0 || a.len() > 16 {
        return false;
    }
    let mut i: usize = 0;
    while i < a.len()
        invariant
            1 <= a.len() <= 16,
            i <= a.len(),
            forall|k: int|
                0 <= k < i ==> approval_text_ok((#[trigger] a@[k]).approval_class@) && approval_text_ok(
                    a@[k].authority_ref@,
                ) && named_ref(
                    a@[k].approval_ref@,
                    "approvals/approval_"@,
                    ".json"@,
                    a@[k].approval_fingerprint@,
                ),
        decreases a.len() - i,
    {
        let x = &a[i];
        if x.approval_class.as_str().is_empty() || x.approval_class.as_str().as_bytes().len() > 256
            || x.authority_ref.as_str().is_empty() || x.authority_ref.as_str().as_bytes().len()
            > 256 || !named_ref_ok(
            &x.approval_ref,
            "approvals/approval_",
            ".json",
            &x.approval_fingerprint,
        ) {
            return false;
        }
        i = i + 1;
    }
    let mut i: usize = 1;
    while i < a.len()
        invariant
            1 <= a.len() <= 16,
            1 <= i <= a.len(),
            forall|k: int|
                0 <= k < a.len() ==> approval_text_ok((#[trigger] a@[k]).approval_class@) && approval_text_ok(
                    a@[k].authority_ref@,
                ) && named_ref(
                    a@[k].approval_ref@,
                    "approvals/approval_"@,
                    ".json"@,
                    a@[k].approval_fingerprint@,
                ),
            forall|p: int, q: int|
                0 <= p < q < i ==> pair_lt(approval_pair(#[trigger] a@[p]), approval_pair(#[trigger] a@[q])),
        decreases a.len() - i,
    {
        if !approval_pair_less(&a[i - 1], &a[i]) {
            return false;
        }
        proof {
            assert forall|p: int, q: int| 0 <= p < q < i + 1 implies pair_lt(
                approval_pair(#[trigger] a@[p]),
                approval_pair(#[trigger] a@[q]),
            ) by {
                if q == i && p < i - 1 {
                    lemma_pair_lt_transitive(
                        approval_pair(a@[p]),
                        approval_pair(a@[i - 1]),
                        approval_pair(a@[q]),
                    );
                }
            }
        }
        i = i + 1;
    }
    true
}

/// At most 256 active observations, pairwise distinct, each naming its observation record.
pub open spec fn observations_valid(o: Seq<LifecycleActiveObservationV10>) -> bool {
    &&& o.len() <= 256
    &&& forall|i: int, j: int|
        0 <= i < j < o.len() ==> ((#[trigger] o[i]).observation_ref@, o[i].observation_fingerprint@)
            != ((#[trigger] o[j]).observation_ref@, o[j].observation_fingerprint@)
    &&& forall|i: int|
        0 <= i < o.len() ==> named_ref(
            (#[trigger] o[i]).observation_ref@,
            "lifecycle-observations/lifecycle-observation_"@,
            ".json"@,
            o[i].observation_fingerprint@,
        )
}

fn observations_ok(o: &Vec<LifecycleActiveObservationV10>) -> (r: bool)
    ensures
        r == observations_valid(o@),
{
    if o.len() > 256 {
        return false;
    }
    let mut j: usize = 0;
    while j < o.len()
        invariant
            o.len() <= 256,
            j <= o.len(),
            forall|p: int, q: int|
                0 <= p < q < j ==> ((#[trigger] o@[p]).observation_ref@, o@[p].observation_fingerprint@)
                    != ((#[trigger] o@[q]).observation_ref@, o@[q].observation_fingerprint@),
        decreases o.len() - j,
    {
        let mut i: usize = 0;
        while i < j
            invariant
                j < o.len(),
                i <= j,
                forall|p: int|
                    0 <= p < i ==> ((#[trigger] o@[p]).observation_ref@, o@[p].observation_fingerprint@)
                        != (o@[j as int].observation_ref@, o@[j as int].observation_fingerprint@),
            decreases j - i,
        {
            if o[i].observation_ref == o[j].observation_ref && o[i].observation_fingerprint
                == o[j].observation_fingerprint {
                return false;
            }
            i = i + 1;
        }
        j = j + 1;
    }
    let mut i: usize = 0;
    while i < o.len()
        invariant
            i <= o.len(),
            forall|k: int|
                0 <= k < i ==> named_ref(
                    (#[trigger] o@[k]).observation_ref@,
                    "lifecycle-observations/lifecycle-observation_"@,
                    ".json"@,
                    o@[k].observation_fingerprint@,
                ),
        decreases o.len() - i,
    {
        if !named_ref_ok(
            &o[i].observation_ref,
            "lifecycle-observations/lifecycle-observation_",
            ".json",
            &o[i].observation_fingerprint,
        ) {
            return false;
        }
        i = i + 1;
    }
    true
}

/// The members of `order` that `ids` holds, in the order of `order`.
pub open spec fn ordered_subset(order: Seq<Seq<char>>, ids: Seq<Seq<char>>) -> Seq<Seq<char>>
    decreases order.len(),
{
    if order.len() == 0 {
        Seq::empty()
    } else {
        ordered_subset(order.drop_last(), ids) + if ids.contains(order.last()) {
            seq![order.last()]
        } else {
            Seq::empty()
        }
    }
}

/// Reopened coverage: distinct known coverage IDs, in coverage order.
pub open spec fn reopened_valid(ids: Seq<Seq<char>>) -> bool {
    &&& forall|i: int, j: int| 0 <= i < j < ids.len() ==> #[trigger] ids[i] != #[trigger] ids[j]
    &&& ids.len() <= 16
    &&& ids == ordered_subset(coverage_order(), ids)
}

fn reopened_ok(ids: &Vec<String>) -> (r: bool)
    ensures
        r == reopened_valid(crate::text::string_views(ids@)),
{
    let ghost v = crate::text::string_views(ids@);
    let mut j: usize = 0;
    while j < ids.len()
        invariant
            v == crate::text::string_views(ids@),
            j <= ids.len(),
            forall|p: int, q: int| 0 <= p < q < j ==> #[trigger] v[p] != #[trigger] v[q],
        decreases ids.len() - j,
    {
        let mut i: usize = 0;
        while i < j
            invariant
                v == crate::text::string_views(ids@),
                j < ids.len(),
                i <= j,
                forall|p: int| 0 <= p < i ==> #[trigger] v[p] != v[j as int],
            decreases j - i,
        {
            if ids[i] == ids[j] {
                assert(v[i as int] == v[j as int]);
                return false;
            }
            i = i + 1;
        }
        j = j + 1;
    }
    if ids.len() > 16 {
        return false;
    }
    let order = coverage_order_list();
    let ghost co = coverage_order();
    let mut expected: Vec<String> = Vec::new();
    let mut k: usize = 0;
    assert(co.take(0) =~= Seq::<Seq<char>>::empty());
    while k < order.len()
        invariant
            order@.map_values(|s: &'static str| s@) == co,
            co == coverage_order(),
            k <= order.len(),
            crate::text::string_views(expected@) == ordered_subset(co.take(k as int), v),
            v == crate::text::string_views(ids@),
        decreases order.len() - k,
    {
        let id = order[k].to_owned();
        assert(co.take(k + 1).drop_last() =~= co.take(k as int));
        assert(co.take(k + 1).last() == co[k as int]);
        if strings_contain(ids.as_slice(), &id) {
            let ghost before = crate::text::string_views(expected@);
            expected.push(id);
            assert(crate::text::string_views(expected@) =~= before + seq![co[k as int]]);
        }
        k = k + 1;
    }
    assert(co.take(order.len() as int) =~= co);
    if expected.len() != ids.len() {
        assert(crate::text::string_views(expected@).len() != v.len());
        return false;
    }
    let mut i: usize = 0;
    while i < ids.len()
        invariant
            expected.len() == ids.len(),
            v == crate::text::string_views(ids@),
            crate::text::string_views(expected@) == ordered_subset(coverage_order(), v),
            i <= ids.len(),
            forall|q: int| 0 <= q < i ==> (#[trigger] expected@[q])@ == ids@[q]@,
        decreases ids.len() - i,
    {
        if !(expected[i] == ids[i]) {
            assert(crate::text::string_views(expected@)[i as int] != v[i as int]);
            return false;
        }
        i = i + 1;
    }
    assert(crate::text::string_views(expected@) =~= v);
    true
}

// ---------------------------------------------------------------------------
// Create and amend closures
// ---------------------------------------------------------------------------

/// A create intent has no prior authority: every prior binding is null or empty and the old
/// canonical is absent.
pub open spec fn create_closure_valid(r: PromotionTransactionIntentV12) -> bool {
    &&& r.target.basis_artifact_fingerprint is None
    &&& r.target.observed_current_artifact_fingerprint is None
    &&& r.selected_contract.prior_lifecycle_head_ref is None
    &&& r.selected_contract.prior_lifecycle_head_fingerprint is None
    &&& r.selected_contract.prior_lifecycle_state@ == "absent"@
    &&& r.selected_contract.prior_lifecycle_state_fingerprint is None
    &&& r.selected_contract.active_observations@.len() == 0
    &&& r.selected_contract.reopened_coverage_ids@.len() == 0
    &&& r.recovery.old_canonical_status@ == "absent"@
    &&& r.recovery.old_canonical_fingerprint is None
    &&& r.recovery.old_canonical_document_sha256 is None
    &&& r.recovery.old_canonical_byte_length is None
}

pub fn validate_create_nullability(record: &PromotionTransactionIntentV12) -> (r: Result<
    (),
    PromotionIntentValidationErrorV12,
>)
    ensures
        r is Ok <==> create_closure_valid(*record),
{
    if record.target.basis_artifact_fingerprint.is_some()
        || record.target.observed_current_artifact_fingerprint.is_some()
        || record.selected_contract.prior_lifecycle_head_ref.is_some()
        || record.selected_contract.prior_lifecycle_head_fingerprint.is_some() || !text_is(
        &record.selected_contract.prior_lifecycle_state,
        "absent",
    ) || record.selected_contract.prior_lifecycle_state_fingerprint.is_some()
        || record.selected_contract.active_observations.len() != 0
        || record.selected_contract.reopened_coverage_ids.len() != 0 || !text_is(
        &record.recovery.old_canonical_status,
        "absent",
    ) || record.recovery.old_canonical_fingerprint.is_some()
        || record.recovery.old_canonical_document_sha256.is_some()
        || record.recovery.old_canonical_byte_length.is_some() {
        return Err(
            invalid(
                "create promotion intent does not have its exact null/empty prior-authority closure",
            ),
        );
    }
    Ok(())
}

/// The lifecycle states an amendment may start from.
pub open spec fn is_prior_lifecycle_state(s: Seq<char>) -> bool {
    s == "current"@ || s == "review_required"@ || s == "reassessment_required"@
}

/// An amend intent binds its basis everywhere: the observed current artifact and the old
/// canonical carry the basis, the prior lifecycle head names its fingerprint, and the old
/// canonical is present with 1 to 1 MiB bytes.
pub open spec fn amend_closure_valid(r: PromotionTransactionIntentV12) -> bool {
    &&& r.target.basis_artifact_fingerprint matches Some(basis)
    &&& r.target.observed_current_artifact_fingerprint matches Some(observed)
    &&& observed@ == basis@
    &&& r.selected_contract.prior_lifecycle_head_ref matches Some(head_ref)
    &&& r.selected_contract.prior_lifecycle_head_fingerprint matches Some(head_fingerprint)
    &&& is_prior_lifecycle_state(r.selected_contract.prior_lifecycle_state@)
    &&& r.selected_contract.prior_lifecycle_state_fingerprint is Some
    &&& r.recovery.old_canonical_status@ == "present"@
    &&& r.recovery.old_canonical_fingerprint matches Some(old_fingerprint)
    &&& old_fingerprint@ == basis@
    &&& r.recovery.old_canonical_document_sha256 matches Some(old_sha)
    &&& old_sha@ == basis@
    &&& r.recovery.old_canonical_byte_length matches Some(length)
    &&& 1 <= length <= 1048576
    &&& named_ref(
        head_ref@,
        "lifecycle-transitions/lifecycle-transition_"@,
        ".json"@,
        head_fingerprint@,
    )
}

pub fn validate_amend_nullability(record: &PromotionTransactionIntentV12) -> (r: Result<
    (),
    PromotionIntentValidationErrorV12,
>)
    ensures
        r is Ok <==> amend_closure_valid(*record),
{
    let basis = match &record.target.basis_artifact_fingerprint {
        Some(b) => b,
        None => {
            return Err(invalid("amend promotion intent basis is absent"));
        },
    };
    let observed_ok = match &record.target.observed_current_artifact_fingerprint {
        Some(o) => *o == *basis,
        None => false,
    };
    let state = &record.selected_contract.prior_lifecycle_state;
    let state_ok = text_is(state, "current") || text_is(state, "review_required") || text_is(
        state,
        "reassessment_required",
    );
    let old_fingerprint_ok = match &record.recovery.old_canonical_fingerprint {
        Some(f) => *f == *basis,
        None => false,
    };
    let old_sha_ok = match &record.recovery.old_canonical_document_sha256 {
        Some(f) => *f == *basis,
        None => false,
    };
    let length_ok = match record.recovery.old_canonical_byte_length {
        Some(n) => 1 <= n && n <= 1048576,
        None => false,
    };
    if !observed_ok || record.selected_contract.prior_lifecycle_head_ref.is_none()
        || record.selected_contract.prior_lifecycle_head_fingerprint.is_none() || !state_ok
        || record.selected_contract.prior_lifecycle_state_fingerprint.is_none() || !text_is(
        &record.recovery.old_canonical_status,
        "present",
    ) || !old_fingerprint_ok || !old_sha_ok || !length_ok {
        return Err(
            invalid(
                "amend promotion intent prior-authority/recovery closure is incomplete or unequal",
            ),
        );
    }
    match (
        &record.selected_contract.prior_lifecycle_head_ref,
        &record.selected_contract.prior_lifecycle_head_fingerprint,
    ) {
        (Some(head_ref), Some(head_fingerprint)) => {
            if !named_ref_ok(
                head_ref,
                "lifecycle-transitions/lifecycle-transition_",
                ".json",
                head_fingerprint,
            ) {
                return Err(invalid("prior lifecycle head ref grammar is invalid"));
            }
            Ok(())
        },
        _ => Err(invalid("prior lifecycle head ref ref/fingerprint nullability differs")),
    }
}

/// The closure that the intent's mutation mode requires.
pub open spec fn mutation_closure_valid(r: PromotionTransactionIntentV12) -> bool {
    if r.mutation_mode@ == "create"@ {
        create_closure_valid(r)
    } else if r.mutation_mode@ == "amend"@ {
        amend_closure_valid(r)
    } else {
        false
    }
}

// ---------------------------------------------------------------------------
// The whole intent
// ---------------------------------------------------------------------------

/// A valid promotion transaction intent 1.2.
pub open spec fn promotion_intent_valid(r: PromotionTransactionIntentV12) -> bool {
    &&& intent_constants_valid(r)
    &&& promotion_transaction_id_valid(r.transaction_id@)
    &&& hex_id_valid(r.promotion_id@, "promotion_"@)
    &&& intent_fingerprints_valid(r)
    &&& intent_refs_valid(r)
    &&& approvals_valid(r.human_authority.approval_bindings@)
    &&& observations_valid(r.selected_contract.active_observations@)
    &&& reopened_valid(crate::text::string_views(r.selected_contract.reopened_coverage_ids@))
    &&& mutation_closure_valid(r)
    &&& json_fingerprint(intent_preimage_json(r)) == Some(r.intent_fingerprint@)
}

pub fn validate_promotion_intent_v12(record: &PromotionTransactionIntentV12) -> (r: Result<
    (),
    PromotionIntentValidationErrorV12,
>)
    ensures
        r is Ok <==> promotion_intent_valid(*record),
{
    if !intent_constants_ok(record) {
        return Err(
            invalid("promotion intent 1.2 schema or selected-contract constants are invalid"),
        );
    }
    if !transaction_id_ok(&record.transaction_id) {
        return Err(invalid("promotion transaction ID grammar is invalid"));
    }
    if !hex_id_ok(&record.promotion_id, "promotion_") {
        return Err(invalid("promotion ID is not lowercase SHA-256"));
    }
    if !intent_fingerprints_ok(record) {
        return Err(invalid("promotion intent 1.2 contains a non-lowercase SHA-256 fingerprint"));
    }
    if !intent_refs_ok(record) {
        return Err(invalid("promotion intent 1.2 reference or output binding is invalid"));
    }
    if !approvals_ok(&record.human_authority.approval_bindings) {
        return Err(
            invalid(
                "promotion approval authority pairs must be unique and in lexical pair order",
            ),
        );
    }
    if !observations_ok(&record.selected_contract.active_observations) {
        return Err(invalid("promotion intent active observations are duplicate or unbounded"));
    }
    if !reopened_ok(&record.selected_contract.reopened_coverage_ids) {
        return Err(
            invalid("promotion intent reopened coverage is unknown, duplicate, or reordered"),
        );
    }
    if text_is(&record.mutation_mode, "create") {
        validate_create_nullability(record)?;
    } else if text_is(&record.mutation_mode, "amend") {
        validate_amend_nullability(record)?;
    } else {
        return Err(invalid("promotion intent mutation mode is unsupported"));
    }
    let computed = match fingerprint_json(&intent_preimage_json_text(record)) {
        Some(f) => f,
        None => {
            return Err(invalid("promotion intent fingerprint preimage is not canonical"));
        },
    };
    if !chars_eq(&computed, &chars_of(record.intent_fingerprint.as_str())) {
        return Err(
            invalid("promotion intent fingerprint does not match its exact exclusion preimage"),
        );
    }
    Ok(())
}

/// Accepts the bytes of a promotion intent together with the record decoded from them: the
/// bytes must be framed, be exactly the canonical encoding of that record, and the record must
/// be valid.
pub fn parse_promotion_intent_v12(bytes: &[u8], record: PromotionTransactionIntentV12) -> (r: Result<
    ValidatedPromotionIntentV12,
    PromotionIntentValidationErrorV12,
>)
    ensures
        r is Ok <==> crate::charter_posture_transaction_intent_v1::jcs_lf_framed(
            bytes@,
            MAX_PROMOTION_INTENT_BYTES_V12 as nat,
        ) && jcs_lf_bytes(intent_record_json(record)) == Some(bytes@) && promotion_intent_valid(
            record,
        ),
        r matches Ok(v) ==> v.record == record && v.raw_bytes@ == bytes@,
{
    if crate::charter_posture_transaction_intent_v1::check_jcs_lf_framing(
        bytes,
        MAX_PROMOTION_INTENT_BYTES_V12,
        "promotion intent 1.2",
    ).is_err() {
        return Err(invalid("promotion intent 1.2 must be bounded exact JCS plus one LF"));
    }
    if crate::charter_posture_transaction_intent_v1::check_exact_encoding(
        bytes,
        &intent_record_json_text(&record),
        "promotion intent 1.2",
    ).is_err() {
        return Err(invalid("promotion intent 1.2 bytes are not exact RFC 8785 JCS"));
    }
    validate_promotion_intent_v12(&record)?;
    Ok(ValidatedPromotionIntentV12 { record, raw_bytes: crate::json::bytes_to_vec(bytes) })
}

/// The commit marker of promotion intent bytes: their fingerprint and a line feed.
pub fn promotion_intent_marker_v12(intent_bytes: &[u8]) -> (r: Vec<u8>)
    ensures
        r@ == marker_of(intent_bytes@),
        r@.len() == 72,
{
    commit_marker(intent_bytes)
}

/// The fingerprint that a promotion intent must declare: that of its canonical preimage,
/// which leaves the declared fingerprint out.
pub fn promotion_intent_fingerprint_v12(record: &PromotionTransactionIntentV12) -> (r: Option<String>)
    ensures
        r matches Some(f) ==> json_fingerprint(intent_preimage_json(*record)) == Some(f@),
        r is None ==> json_fingerprint(intent_preimage_json(*record)) is None,
{
    match fingerprint_json(&intent_preimage_json_text(record)) {
        Some(f) => Some(crate::text::string_of(&f)),
        None => None,
    }
}

} // verus!
