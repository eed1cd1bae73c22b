use vstd::prelude::*;
use crate::charter_lifecycle_validation::{LifecycleActiveObservationV10, LifecycleDefinitionBindingV10};
use crate::json::{
    array_text, decimal_of, decimal_text, json_array, json_member, json_null, json_object,
    json_opt_number, json_opt_string, json_str, json_string, json_string_array, member_text,
    null_text, object_text, opt_string_text, string_array_text,
};
use crate::text::{string_views, views};

verus! {

#[derive(Clone, Debug, PartialEq, Eq)]
pub struct PromotionIntentTargetV12 {
    pub target_instance_id: String,
    pub canonical_artifact_ref: String,
    pub basis_artifact_fingerprint: Option<String>,
    pub observed_current_artifact_fingerprint: Option<String>,
}

#[derive(Clone, Debug, PartialEq, Eq)]
pub struct PromotionCandidateLineageV12 {
    pub candidate_ref: String,
    pub candidate_fingerprint: String,
    pub candidate_subject_fingerprint: String,
    pub intake_record_ref: String,
    pub intake_record_fingerprint: String,
    pub normalized_content_ref: String,
    pub normalized_content_fingerprint: String,
    pub validation_result_ref: String,
    pub validation_result_fingerprint: String,
}

#[derive(Clone, Debug, PartialEq, Eq)]
pub struct PromotionSelectedContractV12 {
    pub profile_ref: String,
    pub resolved_profile_fingerprint: String,
    pub resolved_definitions: Vec<LifecycleDefinitionBindingV10>,
    pub lifecycle_policy_ref: String,
    pub lifecycle_policy_fingerprint: String,
    pub prior_lifecycle_head_ref: Option<String>,
    pub prior_lifecycle_head_fingerprint: Option<String>,
    pub prior_lifecycle_state: String,
    pub prior_lifecycle_state_fingerprint: Option<String>,
    pub active_observations: Vec<LifecycleActiveObservationV10>,
    pub reopened_coverage_ids: Vec<String>,
}

#[derive(Clone, Debug, PartialEq, Eq)]
pub struct PromotionApprovalBindingV12 {
    pub approval_ref: String,
    pub approval_fingerprint: String,
    pub approval_class: String,
    pub authority_ref: String,
}

#[derive(Clone, Debug, PartialEq, Eq)]
pub struct PromotionHumanAuthorityV12 {
    pub approval_bindings: Vec<PromotionApprovalBindingV12>,
    pub approver_registry_state_ref: String,
    pub approver_registry_state_fingerprint: String,
    pub registry_head_transition_ref: String,
    pub registry_head_transition_fingerprint: String,
}

#[derive(Clone, Debug, PartialEq, Eq)]
pub struct PromotionOutputRecordV12 {
    pub record_ref: String,
    pub record_fingerprint: String,
    pub document_sha256: String,
    pub byte_length: u64,
}

#[derive(Clone, Debug, PartialEq, Eq)]
pub struct PromotionOutputsV12 {
    pub new_canonical_fingerprint: String,
    pub new_canonical_document_sha256: String,
    pub new_canonical_byte_length: u64,
    pub promotion_record: PromotionOutputRecordV12,
    pub lifecycle_transition: PromotionOutputRecordV12,
}

#[derive(Clone, Debug, PartialEq, Eq)]
pub struct PromotionRecoveryV12 {
    pub old_canonical_status: String,
    pub old_canonical_fingerprint: Option<String>,
    pub old_canonical_document_sha256: Option<String>,
    pub old_canonical_byte_length: Option<u64>,
}

/// A promotion transaction intent, version 1.2.
#[derive(Clone, Debug, PartialEq, Eq)]
pub struct PromotionTransactionIntentV12 {
    pub schema_id: String,
    pub schema_version: String,
    pub transaction_id: String,
    pub promotion_id: String,
    pub mutation_mode: String,
    pub target: PromotionIntentTargetV12,
    pub candidate_lineage: PromotionCandidateLineageV12,
    pub selected_contract: PromotionSelectedContractV12,
    pub human_authority: PromotionHumanAuthorityV12,
    pub outputs: PromotionOutputsV12,
    pub recovery: PromotionRecoveryV12,
    pub intent_fingerprint: String,
}

/// A promotion intent together with its exact bytes.
#[derive(Clone, Debug, PartialEq, Eq)]
pub struct ValidatedPromotionIntentV12 {
    pub record: PromotionTransactionIntentV12,
    pub raw_bytes: Vec<u8>,
}

pub open spec fn opt_view(o: Option<String>) -> Option<Seq<char>> {
    match o {
        Some(s) => Some(s@),
        None => None,
    }
}

pub open spec fn opt_nat(o: Option<u64>) -> Option<nat> {
    match o {
        Some(n) => Some(n as nat),
        None => None,
    }
}

#[verifier::opaque]
pub open spec fn target_json(t: PromotionIntentTargetV12) -> Seq<char> {
    json_object(
        seq![
            json_member("target_instance_id"@, json_string(t.target_instance_id@)),
            json_member("canonical_artifact_ref"@, json_string(t.canonical_artifact_ref@)),
            json_member("basis_artifact_fingerprint"@, json_opt_string(opt_view(t.basis_artifact_fingerprint))),
            json_member("observed_current_artifact_fingerprint"@, json_opt_string(opt_view(t.observed_current_artifact_fingerprint))),
        ],
    )
}

#[verifier::opaque]
pub open spec fn lineage_json(l: PromotionCandidateLineageV12) -> Seq<char> {
    json_object(
        seq![
            json_member("candidate_ref"@, json_string(l.candidate_ref@)),
            json_member("candidate_fingerprint"@, json_string(l.candidate_fingerprint@)),
            json_member("candidate_subject_fingerprint"@, json_string(l.candidate_subject_fingerprint@)),
            json_member("intake_record_ref"@, json_string(l.intake_record_ref@)),
            json_member("intake_record_fingerprint"@, json_string(l.intake_record_fingerprint@)),
            json_member("normalized_content_ref"@, json_string(l.normalized_content_ref@)),
            json_member("normalized_content_fingerprint"@, json_string(l.normalized_content_fingerprint@)),
            json_member("validation_result_ref"@, json_string(l.validation_result_ref@)),
            json_member("validation_result_fingerprint"@, json_string(l.validation_result_fingerprint@)),
        ],
    )
}

#[verifier::opaque]
pub open spec fn binding_json(b: LifecycleDefinitionBindingV10) -> Seq<char> {
    json_object(
        seq![
            json_member("definition_role"@, json_string(b.definition_role@)),
            json_member("definition_ref"@, json_string(b.definition_ref@)),
            json_member("definition_fingerprint"@, json_string(b.definition_fingerprint@)),
        ],
    )
}

#[verifier::opaque]
pub open spec fn observation_json(o: LifecycleActiveObservationV10) -> Seq<char> {
    json_object(
        seq![
            json_member("observation_ref"@, json_string(o.observation_ref@)),
            json_member("observation_fingerprint"@, json_string(o.observation_fingerprint@)),
        ],
    )
}

#[verifier::opaque]
pub open spec fn contract_json(c: PromotionSelectedContractV12) -> Seq<char> {
    json_object(
        seq![
            json_member("profile_ref"@, json_string(c.profile_ref@)),
            json_member("resolved_profile_fingerprint"@, json_string(c.resolved_profile_fingerprint@)),
            json_member("resolved_definitions"@, json_array(c.resolved_definitions@.map_values(|b: LifecycleDefinitionBindingV10| binding_json(b)))),
            json_member("lifecycle_policy_ref"@, json_string(c.lifecycle_policy_ref@)),
            json_member("lifecycle_policy_fingerprint"@, json_string(c.lifecycle_policy_fingerprint@)),
            json_member("prior_lifecycle_head_ref"@, json_opt_string(opt_view(c.prior_lifecycle_head_ref))),
            json_member("prior_lifecycle_head_fingerprint"@, json_opt_string(opt_view(c.prior_lifecycle_head_fingerprint))),
            json_member("prior_lifecycle_state"@, json_string(c.prior_lifecycle_state@)),
            json_member("prior_lifecycle_state_fingerprint"@, json_opt_string(opt_view(c.prior_lifecycle_state_fingerprint))),
            json_member("active_observations"@, json_array(c.active_observations@.map_values(|o: LifecycleActiveObservationV10| observation_json(o)))),
            json_member("reopened_coverage_ids"@, json_string_array(string_views(c.reopened_coverage_ids@))),
        ],
    )
}

#[verifier::opaque]
pub open spec fn approval_json(a: PromotionApprovalBindingV12) -> Seq<char> {
    json_object(
        seq![
            json_member("approval_ref"@, json_string(a.approval_ref@)),
            json_member("approval_fingerprint"@, json_string(a.approval_fingerprint@)),
            json_member("approval_class"@, json_string(a.approval_class@)),
            json_member("authority_ref"@, json_string(a.authority_ref@)),
        ],
    )
}

#[verifier::opaque]
pub open spec fn authority_json(h: PromotionHumanAuthorityV12) -> Seq<char> {
    json_object(
        seq![
            json_member("approval_bindings"@, json_array(h.approval_bindings@.map_values(|a: PromotionApprovalBindingV12| approval_json(a)))),
            json_member("approver_registry_state_ref"@, json_string(h.approver_registry_state_ref@)),
            json_member("approver_registry_state_fingerprint"@, json_string(h.approver_registry_state_fingerprint@)),
            json_member("registry_head_transition_ref"@, json_string(h.registry_head_transition_ref@)),
            json_member("registry_head_transition_fingerprint"@, json_string(h.registry_head_transition_fingerprint@)),
        ],
    )
}

#[verifier::opaque]
pub open spec fn output_record_json(o: PromotionOutputRecordV12) -> Seq<char> {
    json_object(
        seq![
            json_member("record_ref"@, json_string(o.record_ref@)),
            json_member("record_fingerprint"@, json_string(o.record_fingerprint@)),
            json_member("document_sha256"@, json_string(o.document_sha256@)),
            json_member("byte_length"@, decimal_of(o.byte_length as nat)),
        ],
    )
}

#[verifier::opaque]
pub open spec fn outputs_json(o: PromotionOutputsV12) -> Seq<char> {
    json_object(
        seq![
            json_member("new_canonical_fingerprint"@, json_string(o.new_canonical_fingerprint@)),
            json_member("new_canonical_document_sha256"@, json_string(o.new_canonical_document_sha256@)),
            json_member("new_canonical_byte_length"@, decimal_of(o.new_canonical_byte_length as nat)),
            json_member("promotion_record"@, output_record_json(o.promotion_record)),
            json_member("lifecycle_transition"@, output_record_json(o.lifecycle_transition)),
        ],
    )
}

#[verifier::opaque]
pub open spec fn recovery_json(r: PromotionRecoveryV12) -> Seq<char> {
    json_object(
        seq![
            json_member("old_canonical_status"@, json_string(r.old_canonical_status@)),
            json_member("old_canonical_fingerprint"@, json_opt_string(opt_view(r.old_canonical_fingerprint))),
            json_member("old_canonical_document_sha256"@, json_opt_string(opt_view(r.old_canonical_document_sha256))),
            json_member("old_canonical_byte_length"@, json_opt_number(opt_nat(r.old_canonical_byte_length))),
        ],
    )
}

/// The members of a promotion intent that its fingerprint covers: all but the fingerprint.
pub open spec fn intent_preimage_members(r: PromotionTransactionIntentV12) -> Seq<Seq<char>> {
    seq![
        json_member("schema_id"@, json_string(r.schema_id@)),
        json_member("schema_version"@, json_string(r.schema_version@)),
        json_member("transaction_id"@, json_string(r.transaction_id@)),
        json_member("promotion_id"@, json_string(r.promotion_id@)),
        json_member("mutation_mode"@, json_string(r.mutation_mode@)),
        json_member("target"@, target_json(r.target)),
        json_member("candidate_lineage"@, lineage_json(r.candidate_lineage)),
        json_member("selected_contract"@, contract_json(r.selected_contract)),
        json_member("human_authority"@, authority_json(r.human_authority)),
        json_member("outputs"@, outputs_json(r.outputs)),
        json_member("recovery"@, recovery_json(r.recovery)),
    ]
}

pub open spec fn intent_preimage_json(r: PromotionTransactionIntentV12) -> Seq<char> {
    json_object(intent_preimage_members(r))
}

fn target_json_text(t: &PromotionIntentTargetV12) -> (r: Vec<char>)
    ensures
        r@ == target_json(*t),
{
    proof {
        reveal(target_json);
    }
    let mut m: Vec<Vec<char>> = Vec::new();
    m.push(member_text("target_instance_id", json_str(t.target_instance_id.as_str())));
    m.push(member_text("canonical_artifact_ref", json_str(t.canonical_artifact_ref.as_str())));
    m.push(member_text("basis_artifact_fingerprint", opt_string_text(&t.basis_artifact_fingerprint)));
    m.push(member_text("observed_current_artifact_fingerprint", opt_string_text(&t.observed_current_artifact_fingerprint)));
    assert(views(m@) =~= seq![
        json_member("target_instance_id"@, json_string(t.target_instance_id@)),
        json_member("canonical_artifact_ref"@, json_string(t.canonical_artifact_ref@)),
        json_member("basis_artifact_fingerprint"@, json_opt_string(opt_view(t.basis_artifact_fingerprint))),
        json_member("observed_current_artifact_fingerprint"@, json_opt_string(opt_view(t.observed_current_artifact_fingerprint))),
    ]);
    object_text(&m)
}

fn lineage_json_text(l: &PromotionCandidateLineageV12) -> (r: Vec<char>)
    ensures
        r@ == lineage_json(*l),
{
    proof {
        reveal(lineage_json);
    }
    let mut m: Vec<Vec<char>> = Vec::new();
    m.push(member_text("candidate_ref", json_str(l.candidate_ref.as_str())));
    m.push(member_text("candidate_fingerprint", json_str(l.candidate_fingerprint.as_str())));
    m.push(member_text("candidate_subject_fingerprint", json_str(l.candidate_subject_fingerprint.as_str())));
    m.push(member_text("intake_record_ref", json_str(l.intake_record_ref.as_str())));
    m.push(member_text("intake_record_fingerprint", json_str(l.intake_record_fingerprint.as_str())));
    m.push(member_text("normalized_content_ref", json_str(l.normalized_content_ref.as_str())));
    m.push(member_text("normalized_content_fingerprint", json_str(l.normalized_content_fingerprint.as_str())));
    m.push(member_text("validation_result_ref", json_str(l.validation_result_ref.as_str())));
    m.push(member_text("validation_result_fingerprint", json_str(l.validation_result_fingerprint.as_str())));
    assert(views(m@) =~= seq![
        json_member("candidate_ref"@, json_string(l.candidate_ref@)),
        json_member("candidate_fingerprint"@, json_string(l.candidate_fingerprint@)),
        json_member("candidate_subject_fingerprint"@, json_string(l.candidate_subject_fingerprint@)),
        json_member("intake_record_ref"@, json_string(l.intake_record_ref@)),
        json_member("intake_record_fingerprint"@, json_string(l.intake_record_fingerprint@)),
        json_member("normalized_content_ref"@, json_string(l.normalized_content_ref@)),
        json_member("normalized_content_fingerprint"@, json_string(l.normalized_content_fingerprint@)),
        json_member("validation_result_ref"@, json_string(l.validation_result_ref@)),
        json_member("validation_result_fingerprint"@, json_string(l.validation_result_fingerprint@)),
    ]);
    object_text(&m)
}

fn binding_json_text(b: &LifecycleDefinitionBindingV10) -> (r: Vec<char>)
    ensures
        r@ == binding_json(*b),
{
    proof {
        reveal(binding_json);
    }
    let mut m: Vec<Vec<char>> = Vec::new();
    m.push(member_text("definition_role", json_str(b.definition_role.as_str())));
    m.push(member_text("definition_ref", json_str(b.definition_ref.as_str())));
    m.push(member_text("definition_fingerprint", json_str(b.definition_fingerprint.as_str())));
    assert(views(m@) =~= seq![
        json_member("definition_role"@, json_string(b.definition_role@)),
        json_member("definition_ref"@, json_string(b.definition_ref@)),
        json_member("definition_fingerprint"@, json_string(b.definition_fingerprint@)),
    ]);
    object_text(&m)
}

fn observation_json_text(o: &LifecycleActiveObservationV10) -> (r: Vec<char>)
    ensures
        r@ == observation_json(*o),
{
    proof {
        reveal(observation_json);
    }
    let mut m: Vec<Vec<char>> = Vec::new();
    m.push(member_text("observation_ref", json_str(o.observation_ref.as_str())));
    m.push(member_text("observation_fingerprint", json_str(o.observation_fingerprint.as_str())));
    assert(views(m@) =~= seq![
        json_member("observation_ref"@, json_string(o.observation_ref@)),
        json_member("observation_fingerprint"@, json_string(o.observation_fingerprint@)),
    ]);
    object_text(&m)
}

fn approval_json_text(a: &PromotionApprovalBindingV12) -> (r: Vec<char>)
    ensures
        r@ == approval_json(*a),
{
    proof {
        reveal(approval_json);
    }
    let mut m: Vec<Vec<char>> = Vec::new();
    m.push(member_text("approval_ref", json_str(a.approval_ref.as_str())));
    m.push(member_text("approval_fingerprint", json_str(a.approval_fingerprint.as_str())));
    m.push(member_text("approval_class", json_str(a.approval_class.as_str())));
    m.push(member_text("authority_ref", json_str(a.authority_ref.as_str())));
    assert(views(m@) =~= seq![
        json_member("approval_ref"@, json_string(a.approval_ref@)),
        json_member("approval_fingerprint"@, json_string(a.approval_fingerprint@)),
        json_member("approval_class"@, json_string(a.approval_class@)),
        json_member("authority_ref"@, json_string(a.authority_ref@)),
    ]);
    object_text(&m)
}

pub fn bindings_json_text(v: &Vec<LifecycleDefinitionBindingV10>) -> (r: Vec<char>)
    ensures
        r@ == json_array(v@.map_values(|b: LifecycleDefinitionBindingV10| binding_json(b))),
{
    let mut items: Vec<Vec<char>> = Vec::new();
    let mut i: usize = 0;
    while i < v.len()
        invariant
            i <= v.len(),
            views(items@) == v@.take(i as int).map_values(|b: LifecycleDefinitionBindingV10| binding_json(b)),
        decreases v.len() - i,
    {
        let ghost before = views(items@);
        let item = binding_json_text(&v[i]);
        items.push(item);
        assert(views(items@) =~= before.push(binding_json(v@[i as int])));
        assert(views(items@) =~= v@.take(i + 1).map_values(|b: LifecycleDefinitionBindingV10| binding_json(b)));
        i = i + 1;
    }
    assert(v@.take(v@.len() as int) =~= v@);
    array_text(&items)
}

pub fn observations_json_text(v: &Vec<LifecycleActiveObservationV10>) -> (r: Vec<char>)
    ensures
        r@ == json_array(v@.map_values(|o: LifecycleActiveObservationV10| observation_json(o))),
{
    let mut items: Vec<Vec<char>> = Vec::new();
    let mut i: usize = 0;
    while i < v.len()
        invariant
            i <= v.len(),
            views(items@) == v@.take(i as int).map_values(|o: LifecycleActiveObservationV10| observation_json(o)),
        decreases v.len() - i,
    {
        let ghost before = views(items@);
        let item = observation_json_text(&v[i]);
        items.push(item);
        assert(views(items@) =~= before.push(observation_json(v@[i as int])));
        assert(views(items@) =~= v@.take(i + 1).map_values(|o: LifecycleActiveObservationV10| observation_json(o)));
        i = i + 1;
    }
    assert(v@.take(v@.len() as int) =~= v@);
    array_text(&items)
}

fn approvals_json_text(v: &Vec<PromotionApprovalBindingV12>) -> (r: Vec<char>)
    ensures
        r@ == json_array(v@.map_values(|a: PromotionApprovalBindingV12| approval_json(a))),
{
    let mut items: Vec<Vec<char>> = Vec::new();
    let mut i: usize = 0;
    while i < v.len()
        invariant
            i <= v.len(),
            views(items@) == v@.take(i as int).map_values(|a: PromotionApprovalBindingV12| approval_json(a)),
        decreases v.len() - i,
    {
        let ghost before = views(items@);
        let item = approval_json_text(&v[i]);
        items.push(item);
        assert(views(items@) =~= before.push(approval_json(v@[i as int])));
        assert(views(items@) =~= v@.take(i + 1).map_values(|a: PromotionApprovalBindingV12| approval_json(a)));
        i = i + 1;
    }
    assert(v@.take(v@.len() as int) =~= v@);
    array_text(&items)
}

fn contract_json_text(c: &PromotionSelectedContractV12) -> (r: Vec<char>)
    ensures
        r@ == contract_json(*c),
{
    proof {
        reveal(contract_json);
    }
    let mut m: Vec<Vec<char>> = Vec::new();
    m.push(member_text("profile_ref", json_str(c.profile_ref.as_str())));
    m.push(member_text("resolved_profile_fingerprint", json_str(c.resolved_profile_fingerprint.as_str())));
    m.push(member_text("resolved_definitions", bindings_json_text(&c.resolved_definitions)));
    m.push(member_text("lifecycle_policy_ref", json_str(c.lifecycle_policy_ref.as_str())));
    m.push(member_text("lifecycle_policy_fingerprint", json_str(c.lifecycle_policy_fingerprint.as_str())));
    m.push(member_text("prior_lifecycle_head_ref", opt_string_text(&c.prior_lifecycle_head_ref)));
    m.push(member_text("prior_lifecycle_head_fingerprint", opt_string_text(&c.prior_lifecycle_head_fingerprint)));
    m.push(member_text("prior_lifecycle_state", json_str(c.prior_lifecycle_state.as_str())));
    m.push(member_text("prior_lifecycle_state_fingerprint", opt_string_text(&c.prior_lifecycle_state_fingerprint)));
    m.push(member_text("active_observations", observations_json_text(&c.active_observations)));
    m.push(member_text("reopened_coverage_ids", string_array_text(&c.reopened_coverage_ids)));
    assert(views(m@) =~= seq![
        json_member("profile_ref"@, json_string(c.profile_ref@)),
        json_member("resolved_profile_fingerprint"@, json_string(c.resolved_profile_fingerprint@)),
        json_member("resolved_definitions"@, json_array(c.resolved_definitions@.map_values(|b: LifecycleDefinitionBindingV10| binding_json(b)))),
        json_member("lifecycle_policy_ref"@, json_string(c.lifecycle_policy_ref@)),
        json_member("lifecycle_policy_fingerprint"@, json_string(c.lifecycle_policy_fingerprint@)),
        json_member("prior_lifecycle_head_ref"@, json_opt_string(opt_view(c.prior_lifecycle_head_ref))),
        json_member("prior_lifecycle_head_fingerprint"@, json_opt_string(opt_view(c.prior_lifecycle_head_fingerprint))),
        json_member("prior_lifecycle_state"@, json_string(c.prior_lifecycle_state@)),
        json_member("prior_lifecycle_state_fingerprint"@, json_opt_string(opt_view(c.prior_lifecycle_state_fingerprint))),
        json_member("active_observations"@, json_array(c.active_observations@.map_values(|o: LifecycleActiveObservationV10| observation_json(o)))),
        json_member("reopened_coverage_ids"@, json_string_array(string_views(c.reopened_coverage_ids@))),
    ]);
    object_text(&m)
}

fn authority_json_text(h: &PromotionHumanAuthorityV12) -> (r: Vec<char>)
    ensures
        r@ == authority_json(*h),
{
    proof {
        reveal(authority_json);
    }
    let mut m: Vec<Vec<char>> = Vec::new();
    m.push(member_text("approval_bindings", approvals_json_text(&h.approval_bindings)));
    m.push(member_text("approver_registry_state_ref", json_str(h.approver_registry_state_ref.as_str())));
    m.push(member_text("approver_registry_state_fingerprint", json_str(h.approver_registry_state_fingerprint.as_str())));
    m.push(member_text("registry_head_transition_ref", json_str(h.registry_head_transition_ref.as_str())));
    m.push(member_text("registry_head_transition_fingerprint", json_str(h.registry_head_transition_fingerprint.as_str())));
    assert(views(m@) =~= seq![
        json_member("approval_bindings"@, json_array(h.approval_bindings@.map_values(|a: PromotionApprovalBindingV12| approval_json(a)))),
        json_member("approver_registry_state_ref"@, json_string(h.approver_registry_state_ref@)),
        json_member("approver_registry_state_fingerprint"@, json_string(h.approver_registry_state_fingerprint@)),
        json_member("registry_head_transition_ref"@, json_string(h.registry_head_transition_ref@)),
        json_member("registry_head_transition_fingerprint"@, json_string(h.registry_head_transition_fingerprint@)),
    ]);
    object_text(&m)
}

fn output_record_json_text(o: &PromotionOutputRecordV12) -> (r: Vec<char>)
    ensures
        r@ == output_record_json(*o),
{
    proof {
        reveal(output_record_json);
    }
    let mut m: Vec<Vec<char>> = Vec::new();
    m.push(member_text("record_ref", json_str(o.record_ref.as_str())));
    m.push(member_text("record_fingerprint", json_str(o.record_fingerprint.as_str())));
    m.push(member_text("document_sha256", json_str(o.document_sha256.as_str())));
    m.push(member_text("byte_length", decimal_text(o.byte_length)));
    assert(views(m@) =~= seq![
        json_member("record_ref"@, json_string(o.record_ref@)),
        json_member("record_fingerprint"@, json_string(o.record_fingerprint@)),
        json_member("document_sha256"@, json_string(o.document_sha256@)),
        json_member("byte_length"@, decimal_of(o.byte_length as nat)),
    ]);
    object_text(&m)
}

fn outputs_json_text(o: &PromotionOutputsV12) -> (r: Vec<char>)
    ensures
        r@ == outputs_json(*o),
{
    proof {
        reveal(outputs_json);
    }
    let mut m: Vec<Vec<char>> = Vec::new();
    m.push(member_text("new_canonical_fingerprint", json_str(o.new_canonical_fingerprint.as_str())));
    m.push(member_text("new_canonical_document_sha256", json_str(o.new_canonical_document_sha256.as_str())));
    m.push(member_text("new_canonical_byte_length", decimal_text(o.new_canonical_byte_length)));
    m.push(member_text("promotion_record", output_record_json_text(&o.promotion_record)));
    m.push(member_text("lifecycle_transition", output_record_json_text(&o.lifecycle_transition)));
    assert(views(m@) =~= seq![
        json_member("new_canonical_fingerprint"@, json_string(o.new_canonical_fingerprint@)),
        json_member("new_canonical_document_sha256"@, json_string(o.new_canonical_document_sha256@)),
        json_member("new_canonical_byte_length"@, decimal_of(o.new_canonical_byte_length as nat)),
        json_member("promotion_record"@, output_record_json(o.promotion_record)),
        json_member("lifecycle_transition"@, output_record_json(o.lifecycle_transition)),
    ]);
    object_text(&m)
}

fn opt_number_text(v: Option<u64>) -> (r: Vec<char>)
    ensures
        r@ == json_opt_number(opt_nat(v)),
{
    match v {
        Some(n) => decimal_text(n),
        None => null_text(),
    }
}

fn recovery_json_text(r: &PromotionRecoveryV12) -> (out: Vec<char>)
    ensures
        out@ == recovery_json(*r),
{
    proof {
        reveal(recovery_json);
    }
    let mut m: Vec<Vec<char>> = Vec::new();
    m.push(member_text("old_canonical_status", json_str(r.old_canonical_status.as_str())));
    m.push(member_text("old_canonical_fingerprint", opt_string_text(&r.old_canonical_fingerprint)));
    m.push(member_text("old_canonical_document_sha256", opt_string_text(&r.old_canonical_document_sha256)));
    m.push(member_text("old_canonical_byte_length", opt_number_text(r.old_canonical_byte_length)));
    assert(views(m@) =~= seq![
        json_member("old_canonical_status"@, json_string(r.old_canonical_status@)),
        json_member("old_canonical_fingerprint"@, json_opt_string(opt_view(r.old_canonical_fingerprint))),
        json_member("old_canonical_document_sha256"@, json_opt_string(opt_view(r.old_canonical_document_sha256))),
        json_member("old_canonical_byte_length"@, json_opt_number(opt_nat(r.old_canonical_byte_length))),
    ]);
    object_text(&m)
}

fn intent_preimage_member_texts(r: &PromotionTransactionIntentV12) -> (m: Vec<Vec<char>>)
    ensures
        views(m@) == intent_preimage_members(*r),
{
    let mut m: Vec<Vec<char>> = Vec::new();
    m.push(member_text("schema_id", json_str(r.schema_id.as_str())));
    m.push(member_text("schema_version", json_str(r.schema_version.as_str())));
    m.push(member_text("transaction_id", json_str(r.transaction_id.as_str())));
    m.push(member_text("promotion_id", json_str(r.promotion_id.as_str())));
    m.push(member_text("mutation_mode", json_str(r.mutation_mode.as_str())));
    m.push(member_text("target", target_json_text(&r.target)));
    m.push(member_text("candidate_lineage", lineage_json_text(&r.candidate_lineage)));
    m.push(member_text("selected_contract", contract_json_text(&r.selected_contract)));
    m.push(member_text("human_authority", authority_json_text(&r.human_authority)));
    m.push(member_text("outputs", outputs_json_text(&r.outputs)));
    m.push(member_text("recovery", recovery_json_text(&r.recovery)));
    assert(views(m@) =~= intent_preimage_members(*r));
    m
}

/// The fingerprint preimage JSON of a promotion intent.
pub fn intent_preimage_json_text(r: &PromotionTransactionIntentV12) -> (t: Vec<char>)
    ensures
        t@ == intent_preimage_json(*r),
{
    let m = intent_preimage_member_texts(r);
    object_text(&m)
}

/// The complete JSON of a promotion intent.
pub open spec fn intent_record_json(r: PromotionTransactionIntentV12) -> Seq<char> {
    json_object(
        intent_preimage_members(r) + seq![
            json_member("intent_fingerprint"@, json_string(r.intent_fingerprint@)),
        ],
    )
}

/// The complete JSON of a promotion intent.
pub fn intent_record_json_text(r: &PromotionTransactionIntentV12) -> (t: Vec<char>)
    ensures
        t@ == intent_record_json(*r),
{
    let mut m = intent_preimage_member_texts(r);
    let ghost base = views(m@);
    m.push(member_text("intent_fingerprint", json_str(r.intent_fingerprint.as_str())));
    assert(views(m@) =~= base + seq![
        json_member("intent_fingerprint"@, json_string(r.intent_fingerprint@)),
    ]);
    object_text(&m)
}

} // verus!
