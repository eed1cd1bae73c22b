use vstd::prelude::*;
use crate::json::{
    array_text, decimal_of, decimal_text, json_array, json_member, json_null, json_object,
    json_opt_number, json_string, json_string_array, member_text, null_text, object_text,
    string_array_text, json_str,
};
use crate::text::{string_views, views};

verus! {

/// A reference and the fingerprint it must carry.
#[derive(Clone, Debug, PartialEq, Eq)]
pub struct PairV1 {
    pub reference: String,
    pub fingerprint: String,
}

/// The exact bytes of a canonical Charter: reference, fingerprint, document hash and length.
#[derive(Clone, Debug, PartialEq, Eq)]
pub struct CanonicalDocumentV1 {
    pub reference: String,
    pub fingerprint: String,
    pub document_sha256: String,
    pub byte_length: u64,
}

/// An output record: reference, semantic fingerprint, document hash and length.
#[derive(Clone, Debug, PartialEq, Eq)]
pub struct OutputRecordV1 {
    pub reference: String,
    pub fingerprint: String,
    pub document_sha256: String,
    pub byte_length: u64,
}

/// The authority head that a posture transition rebases.
#[derive(Clone, Debug, PartialEq, Eq)]
pub struct AuthorityHeadV1 {
    pub kind: String,
    pub source: PairV1,
    pub canonical: CanonicalDocumentV1,
    pub lifecycle_transition: PairV1,
    pub promotion_ancestor: PairV1,
}

/// A change of one posture dimension's level override.
#[derive(Clone, Debug, PartialEq, Eq)]
pub struct PostureChangeV1 {
    pub dimension_id: String,
    pub dimension_index: u8,
    pub authority_path: String,
    pub operation: String,
    pub baseline_level: u8,
    pub expected_stored_value: Option<u8>,
    pub expected_effective_level: u8,
    pub proposed_stored_value: Option<u8>,
    pub proposed_effective_level: u8,
}

/// The reassessment that a posture change reopens.
#[derive(Clone, Debug, PartialEq, Eq)]
pub struct PostureReassessmentV1 {
    pub intake_definition: PairV1,
    pub affected_coverage_ids: Vec<String>,
    pub validation_result_inputs: Vec<PairV1>,
}

/// One dimension of a kernel replay.
#[derive(Clone, Debug, PartialEq, Eq)]
pub struct KernelReplayDimensionV1 {
    pub dimension_id: String,
    pub source_effective_level: u8,
    pub resulting_effective_level: u8,
    pub floor: u8,
    pub red_line_refs: Vec<String>,
    pub trigger_refs: Vec<String>,
    pub allowed_shortcut_refs: Vec<String>,
    pub proof_obligation_refs: Vec<String>,
}

/// The posture kernel replayed before and after a change.
#[derive(Clone, Debug, PartialEq, Eq)]
pub struct KernelReplayV1 {
    pub constitutional_artifact_ref: String,
    pub source_authority_fingerprint: String,
    pub resulting_authority_fingerprint: String,
    pub source_input_fingerprint: String,
    pub resulting_input_fingerprint: String,
    pub profile_input: PairV1,
    pub override_inputs: Vec<PairV1>,
    pub condition_inputs: Vec<PairV1>,
    pub contract_inputs: Vec<PairV1>,
    pub evidence_inputs: Vec<PairV1>,
    pub snapshot_inputs: Vec<PairV1>,
    pub freshness_basis: Option<PairV1>,
    pub dimensions: Vec<KernelReplayDimensionV1>,
    pub applicable_scope_refs: Vec<String>,
    pub omitted_condition_refs: Vec<String>,
    pub unresolved_condition_refs: Vec<String>,
}

#[verifier::opaque]
pub open spec fn pair_json(p: PairV1) -> Seq<char> {
    json_object(
        seq![
            json_member("ref"@, json_string(p.reference@)),
            json_member("fingerprint"@, json_string(p.fingerprint@)),
        ],
    )
}

#[verifier::opaque]
pub open spec fn pairs_json(s: Seq<PairV1>) -> Seq<char> {
    json_array(s.map_values(|p: PairV1| pair_json(p)))
}

#[verifier::opaque]
pub open spec fn opt_pair_json(o: Option<PairV1>) -> Seq<char> {
    match o {
        Some(p) => pair_json(p),
        None => json_null(),
    }
}

#[verifier::opaque]
pub open spec fn canonical_json(c: CanonicalDocumentV1) -> Seq<char> {
    json_object(
        seq![
            json_member("ref"@, json_string(c.reference@)),
            json_member("fingerprint"@, json_string(c.fingerprint@)),
            json_member("document_sha256"@, json_string(c.document_sha256@)),
            json_member("byte_length"@, decimal_of(c.byte_length as nat)),
        ],
    )
}

#[verifier::opaque]
pub open spec fn output_json(c: OutputRecordV1) -> Seq<char> {
    json_object(
        seq![
            json_member("ref"@, json_string(c.reference@)),
            json_member("fingerprint"@, json_string(c.fingerprint@)),
            json_member("document_sha256"@, json_string(c.document_sha256@)),
            json_member("byte_length"@, decimal_of(c.byte_length as nat)),
        ],
    )
}

#[verifier::opaque]
pub open spec fn head_json(h: AuthorityHeadV1) -> Seq<char> {
    json_object(
        seq![
            json_member("kind"@, json_string(h.kind@)),
            json_member("source"@, pair_json(h.source)),
            json_member("canonical"@, canonical_json(h.canonical)),
            json_member("lifecycle_transition"@, pair_json(h.lifecycle_transition)),
            json_member("promotion_ancestor"@, pair_json(h.promotion_ancestor)),
        ],
    )
}

pub open spec fn opt_level(v: Option<u8>) -> Option<nat> {
    match v {
        Some(l) => Some(l as nat),
        None => None,
    }
}

#[verifier::opaque]
pub open spec fn change_json(c: PostureChangeV1) -> Seq<char> {
    json_object(
        seq![
            json_member("dimension_id"@, json_string(c.dimension_id@)),
            json_member("dimension_index"@, decimal_of(c.dimension_index as nat)),
            json_member("authority_path"@, json_string(c.authority_path@)),
            json_member("operation"@, json_string(c.operation@)),
            json_member("baseline_level"@, decimal_of(c.baseline_level as nat)),
            json_member("expected_stored_value"@, json_opt_number(opt_level(c.expected_stored_value))),
            json_member("expected_effective_level"@, decimal_of(c.expected_effective_level as nat)),
            json_member("proposed_stored_value"@, json_opt_number(opt_level(c.proposed_stored_value))),
            json_member("proposed_effective_level"@, decimal_of(c.proposed_effective_level as nat)),
        ],
    )
}

#[verifier::opaque]
pub open spec fn reassessment_json(r: PostureReassessmentV1) -> Seq<char> {
    json_object(
        seq![
            json_member("intake_definition"@, pair_json(r.intake_definition)),
            json_member("affected_coverage_ids"@, json_string_array(string_views(r.affected_coverage_ids@))),
            json_member("validation_result_inputs"@, pairs_json(r.validation_result_inputs@)),
        ],
    )
}

#[verifier::opaque]
pub open spec fn dimension_json(d: KernelReplayDimensionV1) -> Seq<char> {
    json_object(
        seq![
            json_member("dimension_id"@, json_string(d.dimension_id@)),
            json_member("source_effective_level"@, decimal_of(d.source_effective_level as nat)),
            json_member("resulting_effective_level"@, decimal_of(d.resulting_effective_level as nat)),
            json_member("floor"@, decimal_of(d.floor as nat)),
            json_member("red_line_refs"@, json_string_array(string_views(d.red_line_refs@))),
            json_member("trigger_refs"@, json_string_array(string_views(d.trigger_refs@))),
            json_member("allowed_shortcut_refs"@, json_string_array(string_views(d.allowed_shortcut_refs@))),
            json_member("proof_obligation_refs"@, json_string_array(string_views(d.proof_obligation_refs@))),
        ],
    )
}

#[verifier::opaque]
pub open spec fn dimensions_json(s: Seq<KernelReplayDimensionV1>) -> Seq<char> {
    json_array(s.map_values(|d: KernelReplayDimensionV1| dimension_json(d)))
}

#[verifier::opaque]
pub open spec fn replay_json(k: KernelReplayV1) -> Seq<char> {
    json_object(
        seq![
            json_member("constitutional_artifact_ref"@, json_string(k.constitutional_artifact_ref@)),
            json_member("source_authority_fingerprint"@, json_string(k.source_authority_fingerprint@)),
            json_member("resulting_authority_fingerprint"@, json_string(k.resulting_authority_fingerprint@)),
            json_member("source_input_fingerprint"@, json_string(k.source_input_fingerprint@)),
            json_member("resulting_input_fingerprint"@, json_string(k.resulting_input_fingerprint@)),
            json_member("profile_input"@, pair_json(k.profile_input)),
            json_member("override_inputs"@, pairs_json(k.override_inputs@)),
            json_member("condition_inputs"@, pairs_json(k.condition_inputs@)),
            json_member("contract_inputs"@, pairs_json(k.contract_inputs@)),
            json_member("evidence_inputs"@, pairs_json(k.evidence_inputs@)),
            json_member("snapshot_inputs"@, pairs_json(k.snapshot_inputs@)),
            json_member("freshness_basis"@, opt_pair_json(k.freshness_basis)),
            json_member("dimensions"@, dimensions_json(k.dimensions@)),
            json_member("applicable_scope_refs"@, json_string_array(string_views(k.applicable_scope_refs@))),
            json_member("omitted_condition_refs"@, json_string_array(string_views(k.omitted_condition_refs@))),
            json_member("unresolved_condition_refs"@, json_string_array(string_views(k.unresolved_condition_refs@))),
        ],
    )
}

pub fn pair_json_text(p: &PairV1) -> (r: Vec<char>)
    ensures
        r@ == pair_json(*p),
{
    proof {
        reveal(pair_json);
    }
    let mut m: Vec<Vec<char>> = Vec::new();
    m.push(member_text("ref", json_str(p.reference.as_str())));
    m.push(member_text("fingerprint", json_str(p.fingerprint.as_str())));
    assert(views(m@) =~= seq![
        json_member("ref"@, json_string(p.reference@)),
        json_member("fingerprint"@, json_string(p.fingerprint@)),
    ]);
    object_text(&m)
}

pub fn pairs_json_text(v: &Vec<PairV1>) -> (r: Vec<char>)
    ensures
        r@ == pairs_json(v@),
{
    proof {
        reveal(pairs_json);
    }
    let mut items: Vec<Vec<char>> = Vec::new();
    let mut i: usize = 0;
    while i < v.len()
        invariant
            i <= v.len(),
            views(items@) == v@.take(i as int).map_values(|p: PairV1| pair_json(p)),
        decreases v.len() - i,
    {
        let ghost before = views(items@);
        let item = pair_json_text(&v[i]);
        items.push(item);
        assert(views(items@) =~= before.push(pair_json(v@[i as int])));
        assert(views(items@) =~= v@.take(i + 1).map_values(|p: PairV1| pair_json(p)));
        i = i + 1;
    }
    assert(v@.take(v@.len() as int) =~= v@);
    array_text(&items)
}

pub fn opt_pair_json_text(o: &Option<PairV1>) -> (r: Vec<char>)
    ensures
        r@ == opt_pair_json(*o),
{
    proof {
        reveal(opt_pair_json);
    }
    match o {
        Some(p) => pair_json_text(p),
        None => null_text(),
    }
}

pub fn canonical_json_text(c: &CanonicalDocumentV1) -> (r: Vec<char>)
    ensures
        r@ == canonical_json(*c),
{
    proof {
        reveal(canonical_json);
    }
    let mut m: Vec<Vec<char>> = Vec::new();
    m.push(member_text("ref", json_str(c.reference.as_str())));
    m.push(member_text("fingerprint", json_str(c.fingerprint.as_str())));
    m.push(member_text("document_sha256", json_str(c.document_sha256.as_str())));
    m.push(member_text("byte_length", decimal_text(c.byte_length)));
    assert(views(m@) =~= seq![
        json_member("ref"@, json_string(c.reference@)),
        json_member("fingerprint"@, json_string(c.fingerprint@)),
        json_member("document_sha256"@, json_string(c.document_sha256@)),
        json_member("byte_length"@, decimal_of(c.byte_length as nat)),
    ]);
    object_text(&m)
}

pub fn output_json_text(c: &OutputRecordV1) -> (r: Vec<char>)
    ensures
        r@ == output_json(*c),
{
    proof {
        reveal(output_json);
    }
    let mut m: Vec<Vec<char>> = Vec::new();
    m.push(member_text("ref", json_str(c.reference.as_str())));
    m.push(member_text("fingerprint", json_str(c.fingerprint.as_str())));
    m.push(member_text("document_sha256", json_str(c.document_sha256.as_str())));
    m.push(member_text("byte_length", decimal_text(c.byte_length)));
    assert(views(m@) =~= seq![
        json_member("ref"@, json_string(c.reference@)),
        json_member("fingerprint"@, json_string(c.fingerprint@)),
        json_member("document_sha256"@, json_string(c.document_sha256@)),
        json_member("byte_length"@, decimal_of(c.byte_length as nat)),
    ]);
    object_text(&m)
}

pub fn head_json_text(h: &AuthorityHeadV1) -> (r: Vec<char>)
    ensures
        r@ == head_json(*h),
{
    proof {
        reveal(head_json);
    }
    let mut m: Vec<Vec<char>> = Vec::new();
    m.push(member_text("kind", json_str(h.kind.as_str())));
    m.push(member_text("source", pair_json_text(&h.source)));
    m.push(member_text("canonical", canonical_json_text(&h.canonical)));
    m.push(member_text("lifecycle_transition", pair_json_text(&h.lifecycle_transition)));
    m.push(member_text("promotion_ancestor", pair_json_text(&h.promotion_ancestor)));
    assert(views(m@) =~= seq![
        json_member("kind"@, json_string(h.kind@)),
        json_member("source"@, pair_json(h.source)),
        json_member("canonical"@, canonical_json(h.canonical)),
        json_member("lifecycle_transition"@, pair_json(h.lifecycle_transition)),
        json_member("promotion_ancestor"@, pair_json(h.promotion_ancestor)),
    ]);
    object_text(&m)
}

fn opt_level_text(v: Option<u8>) -> (r: Vec<char>)
    ensures
        r@ == json_opt_number(opt_level(v)),
{
    match v {
        Some(l) => decimal_text(l as u64),
        None => null_text(),
    }
}

pub fn change_json_text(c: &PostureChangeV1) -> (r: Vec<char>)
    ensures
        r@ == change_json(*c),
{
    proof {
        reveal(change_json);
    }
    let mut m: Vec<Vec<char>> = Vec::new();
    m.push(member_text("dimension_id", json_str(c.dimension_id.as_str())));
    m.push(member_text("dimension_index", decimal_text(c.dimension_index as u64)));
    m.push(member_text("authority_path", json_str(c.authority_path.as_str())));
    m.push(member_text("operation", json_str(c.operation.as_str())));
    m.push(member_text("baseline_level", decimal_text(c.baseline_level as u64)));
    m.push(member_text("expected_stored_value", opt_level_text(c.expected_stored_value)));
    m.push(member_text("expected_effective_level", decimal_text(c.expected_effective_level as u64)));
    m.push(member_text("proposed_stored_value", opt_level_text(c.proposed_stored_value)));
    m.push(member_text("proposed_effective_level", decimal_text(c.proposed_effective_level as u64)));
    assert(views(m@) =~= seq![
        json_member("dimension_id"@, json_string(c.dimension_id@)),
        json_member("dimension_index"@, decimal_of(c.dimension_index as nat)),
        json_member("authority_path"@, json_string(c.authority_path@)),
        json_member("operation"@, json_string(c.operation@)),
        json_member("baseline_level"@, decimal_of(c.baseline_level as nat)),
        json_member("expected_stored_value"@, json_opt_number(opt_level(c.expected_stored_value))),
        json_member("expected_effective_level"@, decimal_of(c.expected_effective_level as nat)),
        json_member("proposed_stored_value"@, json_opt_number(opt_level(c.proposed_stored_value))),
        json_member("proposed_effective_level"@, decimal_of(c.proposed_effective_level as nat)),
    ]);
    object_text(&m)
}

pub fn reassessment_json_text(r: &PostureReassessmentV1) -> (out: Vec<char>)
    ensures
        out@ == reassessment_json(*r),
{
    proof {
        reveal(reassessment_json);
    }
    let mut m: Vec<Vec<char>> = Vec::new();
    m.push(member_text("intake_definition", pair_json_text(&r.intake_definition)));
    m.push(member_text("affected_coverage_ids", string_array_text(&r.affected_coverage_ids)));
    m.push(member_text("validation_result_inputs", pairs_json_text(&r.validation_result_inputs)));
    assert(views(m@) =~= seq![
        json_member("intake_definition"@, pair_json(r.intake_definition)),
        json_member("affected_coverage_ids"@, json_string_array(string_views(r.affected_coverage_ids@))),
        json_member("validation_result_inputs"@, pairs_json(r.validation_result_inputs@)),
    ]);
    object_text(&m)
}

pub fn dimension_json_text(d: &KernelReplayDimensionV1) -> (r: Vec<char>)
    ensures
        r@ == dimension_json(*d),
{
    proof {
        reveal(dimension_json);
    }
    let mut m: Vec<Vec<char>> = Vec::new();
    m.push(member_text("dimension_id", json_str(d.dimension_id.as_str())));
    m.push(member_text("source_effective_level", decimal_text(d.source_effective_level as u64)));
    m.push(member_text("resulting_effective_level", decimal_text(d.resulting_effective_level as u64)));
    m.push(member_text("floor", decimal_text(d.floor as u64)));
    m.push(member_text("red_line_refs", string_array_text(&d.red_line_refs)));
    m.push(member_text("trigger_refs", string_array_text(&d.trigger_refs)));
    m.push(member_text("allowed_shortcut_refs", string_array_text(&d.allowed_shortcut_refs)));
    m.push(member_text("proof_obligation_refs", string_array_text(&d.proof_obligation_refs)));
    assert(views(m@) =~= seq![
        json_member("dimension_id"@, json_string(d.dimension_id@)),
        json_member("source_effective_level"@, decimal_of(d.source_effective_level as nat)),
        json_member("resulting_effective_level"@, decimal_of(d.resulting_effective_level as nat)),
        json_member("floor"@, decimal_of(d.floor as nat)),
        json_member("red_line_refs"@, json_string_array(string_views(d.red_line_refs@))),
        json_member("trigger_refs"@, json_string_array(string_views(d.trigger_refs@))),
        json_member("allowed_shortcut_refs"@, json_string_array(string_views(d.allowed_shortcut_refs@))),
        json_member("proof_obligation_refs"@, json_string_array(string_views(d.proof_obligation_refs@))),
    ]);
    object_text(&m)
}

pub fn dimensions_json_text(v: &Vec<KernelReplayDimensionV1>) -> (r: Vec<char>)
    ensures
        r@ == dimensions_json(v@),
{
    proof {
        reveal(dimensions_json);
    }
    let mut items: Vec<Vec<char>> = Vec::new();
    let mut i: usize = 0;
    while i < v.len()
        invariant
            i <= v.len(),
            views(items@) == v@.take(i as int).map_values(|d: KernelReplayDimensionV1| dimension_json(d)),
        decreases v.len() - i,
    {
        let ghost before = views(items@);
        let item = dimension_json_text(&v[i]);
        items.push(item);
        assert(views(items@) =~= before.push(dimension_json(v@[i as int])));
        assert(views(items@) =~= v@.take(i + 1).map_values(|d: KernelReplayDimensionV1| dimension_json(d)));
        i = i + 1;
    }
    assert(v@.take(v@.len() as int) =~= v@);
    array_text(&items)
}

pub fn replay_json_text(k: &KernelReplayV1) -> (r: Vec<char>)
    ensures
        r@ == replay_json(*k),
{
    proof {
        reveal(replay_json);
    }
    let mut m: Vec<Vec<char>> = Vec::new();
    m.push(member_text("constitutional_artifact_ref", json_str(k.constitutional_artifact_ref.as_str())));
    m.push(member_text("source_authority_fingerprint", json_str(k.source_authority_fingerprint.as_str())));
    m.push(member_text("resulting_authority_fingerprint", json_str(k.resulting_authority_fingerprint.as_str())));
    m.push(member_text("source_input_fingerprint", json_str(k.source_input_fingerprint.as_str())));
    m.push(member_text("resulting_input_fingerprint", json_str(k.resulting_input_fingerprint.as_str())));
    m.push(member_text("profile_input", pair_json_text(&k.profile_input)));
    m.push(member_text("override_inputs", pairs_json_text(&k.override_inputs)));
    m.push(member_text("condition_inputs", pairs_json_text(&k.condition_inputs)));
    m.push(member_text("contract_inputs", pairs_json_text(&k.contract_inputs)));
    m.push(member_text("evidence_inputs", pairs_json_text(&k.evidence_inputs)));
    m.push(member_text("snapshot_inputs", pairs_json_text(&k.snapshot_inputs)));
    m.push(member_text("freshness_basis", opt_pair_json_text(&k.freshness_basis)));
    m.push(member_text("dimensions", dimensions_json_text(&k.dimensions)));
    m.push(member_text("applicable_scope_refs", string_array_text(&k.applicable_scope_refs)));
    m.push(member_text("omitted_condition_refs", string_array_text(&k.omitted_condition_refs)));
    m.push(member_text("unresolved_condition_refs", string_array_text(&k.unresolved_condition_refs)));
    assert(views(m@) =~= seq![
        json_member("constitutional_artifact_ref"@, json_string(k.constitutional_artifact_ref@)),
        json_member("source_authority_fingerprint"@, json_string(k.source_authority_fingerprint@)),
        json_member("resulting_authority_fingerprint"@, json_string(k.resulting_authority_fingerprint@)),
        json_member("source_input_fingerprint"@, json_string(k.source_input_fingerprint@)),
        json_member("resulting_input_fingerprint"@, json_string(k.resulting_input_fingerprint@)),
        json_member("profile_input"@, pair_json(k.profile_input)),
        json_member("override_inputs"@, pairs_json(k.override_inputs@)),
        json_member("condition_inputs"@, pairs_json(k.condition_inputs@)),
        json_member("contract_inputs"@, pairs_json(k.contract_inputs@)),
        json_member("evidence_inputs"@, pairs_json(k.evidence_inputs@)),
        json_member("snapshot_inputs"@, pairs_json(k.snapshot_inputs@)),
        json_member("freshness_basis"@, opt_pair_json(k.freshness_basis)),
        json_member("dimensions"@, dimensions_json(k.dimensions@)),
        json_member("applicable_scope_refs"@, json_string_array(string_views(k.applicable_scope_refs@))),
        json_member("omitted_condition_refs"@, json_string_array(string_views(k.omitted_condition_refs@))),
        json_member("unresolved_condition_refs"@, json_string_array(string_views(k.unresolved_condition_refs@))),
    ]);
    object_text(&m)
}

/// An extensions object that must stay empty.
#[derive(Clone, Debug, PartialEq, Eq)]
pub struct EmptyExtensionsV1 {}

/// A posture transition: one dimension's level override replaced under reviewed authority.
#[derive(Clone, Debug, PartialEq, Eq)]
pub struct PostureTransitionRecordV1 {
    pub schema_id: String,
    pub schema_version: String,
    pub transition_id: String,
    pub recommendation: PairV1,
    pub repository_identity: PairV1,
    pub source_kernel: PairV1,
    pub evaluation_policy: PairV1,
    pub target_authority_ref: String,
    pub target_authority_class: String,
    pub prior_authority_head: AuthorityHeadV1,
    pub expected_canonical: CanonicalDocumentV1,
    pub change: PostureChangeV1,
    pub approval_inputs: Vec<PairV1>,
    pub authorized_by_ref: String,
    pub reassessment: PostureReassessmentV1,
    pub kernel_replay: KernelReplayV1,
    pub resulting_canonical: CanonicalDocumentV1,
    pub resulting_kernel: PairV1,
    pub effective_at_utc: String,
    pub extensions: EmptyExtensionsV1,
    pub transition_fingerprint: String,
}

/// What a caller supplies to construct a posture transition.
#[derive(Clone, Debug, PartialEq, Eq)]
pub struct PostureTransitionDraftV1 {
    pub recommendation: PairV1,
    pub repository_identity: PairV1,
    pub source_kernel: PairV1,
    pub evaluation_policy: PairV1,
    pub prior_authority_head: AuthorityHeadV1,
    pub expected_canonical: CanonicalDocumentV1,
    pub change: PostureChangeV1,
    pub approval_inputs: Vec<PairV1>,
    pub authorized_by_ref: String,
    pub reassessment: PostureReassessmentV1,
    pub kernel_replay: KernelReplayV1,
    pub resulting_canonical: CanonicalDocumentV1,
    pub resulting_kernel: PairV1,
    pub effective_at_utc: String,
}

/// A posture transition together with its exact record bytes.
#[derive(Clone, Debug, PartialEq, Eq)]
pub struct ValidatedPostureTransitionV1 {
    pub record: PostureTransitionRecordV1,
    pub raw_bytes: Vec<u8>,
}

/// The members of a posture transition that its fingerprint covers: all but its ID,
/// fingerprint and effective time.
pub open spec fn posture_preimage_members(r: PostureTransitionRecordV1) -> Seq<Seq<char>> {
    seq![
        json_member("schema_id"@, json_string(r.schema_id@)),
        json_member("schema_version"@, json_string(r.schema_version@)),
        json_member("recommendation"@, pair_json(r.recommendation)),
        json_member("repository_identity"@, pair_json(r.repository_identity)),
        json_member("source_kernel"@, pair_json(r.source_kernel)),
        json_member("evaluation_policy"@, pair_json(r.evaluation_policy)),
        json_member("target_authority_ref"@, json_string(r.target_authority_ref@)),
        json_member("target_authority_class"@, json_string(r.target_authority_class@)),
        json_member("prior_authority_head"@, head_json(r.prior_authority_head)),
        json_member("expected_canonical"@, canonical_json(r.expected_canonical)),
        json_member("change"@, change_json(r.change)),
        json_member("approval_inputs"@, pairs_json(r.approval_inputs@)),
        json_member("authorized_by_ref"@, json_string(r.authorized_by_ref@)),
        json_member("reassessment"@, reassessment_json(r.reassessment)),
        json_member("kernel_replay"@, replay_json(r.kernel_replay)),
        json_member("resulting_canonical"@, canonical_json(r.resulting_canonical)),
        json_member("resulting_kernel"@, pair_json(r.resulting_kernel)),
        json_member("extensions"@, json_object(seq![])),
    ]
}

/// The fingerprint preimage of a posture transition.
pub open spec fn posture_preimage_json(r: PostureTransitionRecordV1) -> Seq<char> {
    json_object(posture_preimage_members(r))
}

/// The complete JSON of a posture transition.
pub open spec fn posture_record_json(r: PostureTransitionRecordV1) -> Seq<char> {
    json_object(
        posture_preimage_members(r) + seq![
            json_member("transition_id"@, json_string(r.transition_id@)),
            json_member("effective_at_utc"@, json_string(r.effective_at_utc@)),
            json_member("transition_fingerprint"@, json_string(r.transition_fingerprint@)),
        ],
    )
}

fn posture_members_first(r: &PostureTransitionRecordV1) -> (m: Vec<Vec<char>>)
    ensures
        views(m@) == posture_preimage_members(*r).take(9),
{
    let mut m: Vec<Vec<char>> = Vec::new();
    m.push(member_text("schema_id", json_str(r.schema_id.as_str())));
    m.push(member_text("schema_version", json_str(r.schema_version.as_str())));
    m.push(member_text("recommendation", pair_json_text(&r.recommendation)));
    m.push(member_text("repository_identity", pair_json_text(&r.repository_identity)));
    m.push(member_text("source_kernel", pair_json_text(&r.source_kernel)));
    m.push(member_text("evaluation_policy", pair_json_text(&r.evaluation_policy)));
    m.push(member_text("target_authority_ref", json_str(r.target_authority_ref.as_str())));
    m.push(member_text("target_authority_class", json_str(r.target_authority_class.as_str())));
    m.push(member_text("prior_authority_head", head_json_text(&r.prior_authority_head)));
    assert(views(m@) =~= posture_preimage_members(*r).take(9));
    m
}

fn posture_members_second(r: &PostureTransitionRecordV1) -> (m: Vec<Vec<char>>)
    ensures
        views(m@) == posture_preimage_members(*r).skip(9),
{
    let mut m: Vec<Vec<char>> = Vec::new();
    m.push(member_text("expected_canonical", canonical_json_text(&r.expected_canonical)));
    m.push(member_text("change", change_json_text(&r.change)));
    m.push(member_text("approval_inputs", pairs_json_text(&r.approval_inputs)));
    m.push(member_text("authorized_by_ref", json_str(r.authorized_by_ref.as_str())));
    m.push(member_text("reassessment", reassessment_json_text(&r.reassessment)));
    m.push(member_text("kernel_replay", replay_json_text(&r.kernel_replay)));
    m.push(member_text("resulting_canonical", canonical_json_text(&r.resulting_canonical)));
    m.push(member_text("resulting_kernel", pair_json_text(&r.resulting_kernel)));
    let empty: Vec<Vec<char>> = Vec::new();
    let ext = object_text(&empty);
    assert(views(empty@) =~= Seq::<Seq<char>>::empty());
    m.push(member_text("extensions", ext));
    assert(views(m@) =~= posture_preimage_members(*r).skip(9));
    m
}

fn posture_preimage_member_texts(r: &PostureTransitionRecordV1) -> (m: Vec<Vec<char>>)
    ensures
        views(m@) == posture_preimage_members(*r),
{
    let mut m = posture_members_first(r);
    let mut rest = posture_members_second(r);
    let ghost a = views(m@);
    let ghost b = views(rest@);
    m.append(&mut rest);
    assert(views(m@) =~= a + b);
    assert(posture_preimage_members(*r) =~= posture_preimage_members(*r).take(9) + posture_preimage_members(*r).skip(9));
    m
}

/// The fingerprint preimage JSON of a posture transition.
pub fn posture_preimage_json_text(r: &PostureTransitionRecordV1) -> (t: Vec<char>)
    ensures
        t@ == posture_preimage_json(*r),
{
    let m = posture_preimage_member_texts(r);
    object_text(&m)
}

/// The complete JSON of a posture transition.
pub fn posture_record_json_text(r: &PostureTransitionRecordV1) -> (t: Vec<char>)
    ensures
        t@ == posture_record_json(*r),
{
    let mut m = posture_preimage_member_texts(r);
    let ghost base = views(m@);
    m.push(member_text("transition_id", json_str(r.transition_id.as_str())));
    m.push(member_text("effective_at_utc", json_str(r.effective_at_utc.as_str())));
    m.push(member_text("transition_fingerprint", json_str(r.transition_fingerprint.as_str())));
    assert(views(m@) =~= base + seq![
        json_member("transition_id"@, json_string(r.transition_id@)),
        json_member("effective_at_utc"@, json_string(r.effective_at_utc@)),
        json_member("transition_fingerprint"@, json_string(r.transition_fingerprint@)),
    ]);
    object_text(&m)
}

/// The authority inputs that a posture transaction carries from its transition.
#[derive(Clone, Debug, PartialEq, Eq)]
pub struct PostureAuthorityInputsV1 {
    pub recommendation: PairV1,
    pub source_kernel: PairV1,
    pub evaluation_policy: PairV1,
    pub approval_inputs: Vec<PairV1>,
    pub authorized_by_ref: String,
    pub reassessment: PostureReassessmentV1,
}

/// The outputs a posture transaction installs.
#[derive(Clone, Debug, PartialEq, Eq)]
pub struct PostureTransactionOutputsV1 {
    pub canonical: CanonicalDocumentV1,
    pub posture_transition: OutputRecordV1,
    pub lifecycle_transition: OutputRecordV1,
}

/// What recovery restores if a posture transaction is rolled back.
#[derive(Clone, Debug, PartialEq, Eq)]
pub struct PostureTransactionRecoveryV1 {
    pub old_canonical_status: String,
    pub old_canonical: CanonicalDocumentV1,
}

/// The intent of a posture transaction, written before any canonical mutation.
#[derive(Clone, Debug, PartialEq, Eq)]
pub struct PostureTransactionIntentV1 {
    pub schema_id: String,
    pub schema_version: String,
    pub transaction_id: String,
    pub mutation_mode: String,
    pub basis_head: AuthorityHeadV1,
    pub expected_canonical: CanonicalDocumentV1,
    pub change: PostureChangeV1,
    pub authority_inputs: PostureAuthorityInputsV1,
    pub outputs: PostureTransactionOutputsV1,
    pub kernel_replay: KernelReplayV1,
    pub recovery: PostureTransactionRecoveryV1,
    pub intent_fingerprint: String,
}

/// A posture transaction intent together with its exact record bytes.
#[derive(Clone, Debug, PartialEq, Eq)]
pub struct ValidatedPostureTransactionIntentV1 {
    pub record: PostureTransactionIntentV1,
    pub raw_bytes: Vec<u8>,
}

#[verifier::opaque]
pub open spec fn authority_inputs_json(a: PostureAuthorityInputsV1) -> Seq<char> {
    json_object(
        seq![
            json_member("recommendation"@, pair_json(a.recommendation)),
            json_member("source_kernel"@, pair_json(a.source_kernel)),
            json_member("evaluation_policy"@, pair_json(a.evaluation_policy)),
            json_member("approval_inputs"@, pairs_json(a.approval_inputs@)),
            json_member("authorized_by_ref"@, json_string(a.authorized_by_ref@)),
            json_member("reassessment"@, reassessment_json(a.reassessment)),
        ],
    )
}

#[verifier::opaque]
pub open spec fn outputs_json(o: PostureTransactionOutputsV1) -> Seq<char> {
    json_object(
        seq![
            json_member("canonical"@, canonical_json(o.canonical)),
            json_member("posture_transition"@, output_json(o.posture_transition)),
            json_member("lifecycle_transition"@, output_json(o.lifecycle_transition)),
        ],
    )
}

#[verifier::opaque]
pub open spec fn recovery_json(r: PostureTransactionRecoveryV1) -> Seq<char> {
    json_object(
        seq![
            json_member("old_canonical_status"@, json_string(r.old_canonical_status@)),
            json_member("old_canonical"@, canonical_json(r.old_canonical)),
        ],
    )
}

/// The members of a posture transaction intent that its fingerprint covers: all but the
/// fingerprint itself.
pub open spec fn intent_preimage_members(r: PostureTransactionIntentV1) -> Seq<Seq<char>> {
    seq![
        json_member("schema_id"@, json_string(r.schema_id@)),
        json_member("schema_version"@, json_string(r.schema_version@)),
        json_member("transaction_id"@, json_string(r.transaction_id@)),
        json_member("mutation_mode"@, json_string(r.mutation_mode@)),
        json_member("basis_head"@, head_json(r.basis_head)),
        json_member("expected_canonical"@, canonical_json(r.expected_canonical)),
        json_member("change"@, change_json(r.change)),
        json_member("authority_inputs"@, authority_inputs_json(r.authority_inputs)),
        json_member("outputs"@, outputs_json(r.outputs)),
        json_member("kernel_replay"@, replay_json(r.kernel_replay)),
        json_member("recovery"@, recovery_json(r.recovery)),
    ]
}

/// The fingerprint preimage of a posture transaction intent.
pub open spec fn intent_preimage_json(r: PostureTransactionIntentV1) -> Seq<char> {
    json_object(intent_preimage_members(r))
}

/// The complete JSON of a posture transaction intent.
pub open spec fn intent_record_json(r: PostureTransactionIntentV1) -> Seq<char> {
    json_object(
        intent_preimage_members(r) + seq![
            json_member("intent_fingerprint"@, json_string(r.intent_fingerprint@)),
        ],
    )
}

pub fn authority_inputs_json_text(a: &PostureAuthorityInputsV1) -> (r: Vec<char>)
    ensures
        r@ == authority_inputs_json(*a),
{
    proof {
        reveal(authority_inputs_json);
    }
    let mut m: Vec<Vec<char>> = Vec::new();
    m.push(member_text("recommendation", pair_json_text(&a.recommendation)));
    m.push(member_text("source_kernel", pair_json_text(&a.source_kernel)));
    m.push(member_text("evaluation_policy", pair_json_text(&a.evaluation_policy)));
    m.push(member_text("approval_inputs", pairs_json_text(&a.approval_inputs)));
    m.push(member_text("authorized_by_ref", json_str(a.authorized_by_ref.as_str())));
    m.push(member_text("reassessment", reassessment_json_text(&a.reassessment)));
    assert(views(m@) =~= seq![
        json_member("recommendation"@, pair_json(a.recommendation)),
        json_member("source_kernel"@, pair_json(a.source_kernel)),
        json_member("evaluation_policy"@, pair_json(a.evaluation_policy)),
        json_member("approval_inputs"@, pairs_json(a.approval_inputs@)),
        json_member("authorized_by_ref"@, json_string(a.authorized_by_ref@)),
        json_member("reassessment"@, reassessment_json(a.reassessment)),
    ]);
    object_text(&m)
}

pub fn outputs_json_text(o: &PostureTransactionOutputsV1) -> (r: Vec<char>)
    ensures
        r@ == outputs_json(*o),
{
    proof {
        reveal(outputs_json);
    }
    let mut m: Vec<Vec<char>> = Vec::new();
    m.push(member_text("canonical", canonical_json_text(&o.canonical)));
    m.push(member_text("posture_transition", output_json_text(&o.posture_transition)));
    m.push(member_text("lifecycle_transition", output_json_text(&o.lifecycle_transition)));
    assert(views(m@) =~= seq![
        json_member("canonical"@, canonical_json(o.canonical)),
        json_member("posture_transition"@, output_json(o.posture_transition)),
        json_member("lifecycle_transition"@, output_json(o.lifecycle_transition)),
    ]);
    object_text(&m)
}

pub fn recovery_json_text(r: &PostureTransactionRecoveryV1) -> (out: Vec<char>)
    ensures
        out@ == recovery_json(*r),
{
    proof {
        reveal(recovery_json);
    }
    let mut m: Vec<Vec<char>> = Vec::new();
    m.push(member_text("old_canonical_status", json_str(r.old_canonical_status.as_str())));
    m.push(member_text("old_canonical", canonical_json_text(&r.old_canonical)));
    assert(views(m@) =~= seq![
        json_member("old_canonical_status"@, json_string(r.old_canonical_status@)),
        json_member("old_canonical"@, canonical_json(r.old_canonical)),
    ]);
    object_text(&m)
}

fn intent_members_first(r: &PostureTransactionIntentV1) -> (m: Vec<Vec<char>>)
    ensures
        views(m@) == intent_preimage_members(*r).take(6),
{
    let mut m: Vec<Vec<char>> = Vec::new();
    m.push(member_text("schema_id", json_str(r.schema_id.as_str())));
    m.push(member_text("schema_version", json_str(r.schema_version.as_str())));
    m.push(member_text("transaction_id", json_str(r.transaction_id.as_str())));
    m.push(member_text("mutation_mode", json_str(r.mutation_mode.as_str())));
    m.push(member_text("basis_head", head_json_text(&r.basis_head)));
    m.push(member_text("expected_canonical", canonical_json_text(&r.expected_canonical)));
    assert(views(m@) =~= intent_preimage_members(*r).take(6));
    m
}

fn intent_members_second(r: &PostureTransactionIntentV1) -> (m: Vec<Vec<char>>)
    ensures
        views(m@) == intent_preimage_members(*r).skip(6),
{
    let mut m: Vec<Vec<char>> = Vec::new();
    m.push(member_text("change", change_json_text(&r.change)));
    m.push(member_text("authority_inputs", authority_inputs_json_text(&r.authority_inputs)));
    m.push(member_text("outputs", outputs_json_text(&r.outputs)));
    m.push(member_text("kernel_replay", replay_json_text(&r.kernel_replay)));
    m.push(member_text("recovery", recovery_json_text(&r.recovery)));
    assert(views(m@) =~= intent_preimage_members(*r).skip(6));
    m
}

fn intent_preimage_member_texts(r: &PostureTransactionIntentV1) -> (m: Vec<Vec<char>>)
    ensures
        views(m@) == intent_preimage_members(*r),
{
    let mut m = intent_members_first(r);
    let mut rest = intent_members_second(r);
    let ghost a = views(m@);
    let ghost b = views(rest@);
    m.append(&mut rest);
    assert(views(m@) =~= a + b);
    assert(intent_preimage_members(*r) =~= intent_preimage_members(*r).take(6)
        + intent_preimage_members(*r).skip(6));
    m
}

/// The fingerprint preimage JSON of a posture transaction intent.
pub fn intent_preimage_json_text(r: &PostureTransactionIntentV1) -> (t: Vec<char>)
    ensures
        t@ == intent_preimage_json(*r),
{
    let m = intent_preimage_member_texts(r);
    object_text(&m)
}

/// The complete JSON of a posture transaction intent.
pub fn intent_record_json_text(r: &PostureTransactionIntentV1) -> (t: Vec<char>)
    ensures
        t@ == intent_record_json(*r),
{
    let mut m = intent_preimage_member_texts(r);
    let ghost base = views(m@);
    m.push(member_text("intent_fingerprint", json_str(r.intent_fingerprint.as_str())));
    assert(views(m@) =~= base + seq![
        json_member("intent_fingerprint"@, json_string(r.intent_fingerprint@)),
    ]);
    object_text(&m)
}

} // verus!
