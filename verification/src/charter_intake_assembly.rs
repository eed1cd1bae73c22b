use vstd::prelude::*;
use crate::charter_intake::{
    coverage_for_path, coverage_order, coverage_order_list, coverage_owner_from, coverage_targets,
    first_position_of, position_in, CharterCoverageSubmission, CharterFieldSource, CharterIntakeError,
    CharterIntakeErrorKind, CharterIntakeSourceKind,
};
use crate::text::{
    chars_eq, chars_lt, chars_of, lemma_seq_lt_total, lemma_seq_lt_transitive, seq_lt, slice_chars,
    string_of, string_views, text_le, views,
};
use crate::charter_intake::{
    audit_fields_valid, basis_outcome, coverage_error, coverage_error_from, validate_and_order_coverage, validate_audit_fields,
    validate_basis, CharterAcquisitionMode, CharterCandidateBundle, CharterCandidateV11, CharterCoverageResult,
    CharterIntakeConsumer, CharterIntakeRecordV11,
};
use crate::digest::{content_fingerprint, fingerprint_hex, fingerprint_of_bytes, is_fingerprint, lemma_sha256_prefix};
use crate::json::{
    array_text, fingerprint_json, json_array, json_fingerprint, json_member, json_object,
    json_opt_string, json_str, json_string, json_string_array, member_text, object_text,
    opt_string_text, string_array_text,
};

verus! {

/// A candidate leaf that carries no field source: the schema identity and the rubric scale.
pub open spec fn excluded_leaf(path: Seq<char>) -> bool {
    path == "/schema_id"@ || path == "/schema_version"@ || path == "/posture/rubric_scale"@
}

/// A field source as (target path, coverage ID, source kind).
pub open spec fn field_source_view(f: CharterFieldSource) -> (Seq<char>, Seq<char>, CharterIntakeSourceKind) {
    (f.target_path@, f.coverage_id@, f.source_kind)
}

pub open spec fn field_source_views(s: Seq<CharterFieldSource>) -> Seq<(Seq<char>, Seq<char>, CharterIntakeSourceKind)> {
    s.map_values(|f: CharterFieldSource| field_source_view(f))
}

/// The field source of a candidate leaf: its path, the coverage ID that owns it, and the source
/// kind of the submission that `order` places at that ID's position.
pub open spec fn leaf_source(
    path: Seq<char>,
    coverage: Seq<CharterCoverageSubmission>,
    order: Seq<usize>,
) -> Option<(Seq<char>, Seq<char>, CharterIntakeSourceKind)> {
    match coverage_owner_from(path, 0) {
        Some(id) => {
            let k = choose|k: int| first_position_of(id, k);
            Some((path, id, coverage[order[k] as int].source_kind))
        },
        None => None,
    }
}

/// The field sources of the leaves that carry one, in leaf order.
pub open spec fn leaf_sources(
    leaves: Seq<Seq<char>>,
    coverage: Seq<CharterCoverageSubmission>,
    order: Seq<usize>,
) -> Seq<(Seq<char>, Seq<char>, CharterIntakeSourceKind)>
    decreases leaves.len(),
{
    if leaves.len() == 0 {
        Seq::empty()
    } else {
        let rest = leaf_sources(leaves.drop_last(), coverage, order);
        match leaf_source(leaves.last(), coverage, order) {
            Some(s) => if excluded_leaf(leaves.last()) {
                rest
            } else {
                rest.push(s)
            },
            None => rest,
        }
    }
}

/// Every leaf that should carry a field source has a coverage owner.
pub open spec fn leaves_owned(leaves: Seq<Seq<char>>) -> bool {
    forall|i: int|
        0 <= i < leaves.len() && !excluded_leaf(#[trigger] leaves[i]) ==> coverage_owner_from(leaves[i], 0) is Some
}

/// Field sources in non-decreasing order of target path.
pub open spec fn sources_by_path(s: Seq<(Seq<char>, Seq<char>, CharterIntakeSourceKind)>) -> bool {
    forall|i: int, j: int| 0 <= i < j < s.len() ==> text_le((#[trigger] s[i]).0, (#[trigger] s[j]).0)
}

/// The coverage owners of the table are the coverage IDs, position by position.
proof fn lemma_targets_follow_coverage_order()
    ensures
        forall|k: int| 0 <= k < 16 ==> (#[trigger] coverage_targets()[k]).0 == coverage_order()[k],
{
    assert(coverage_targets().map_values(|t: (Seq<char>, Seq<Seq<char>>)| t.0) =~= coverage_order());
    assert forall|k: int| 0 <= k < 16 implies (#[trigger] coverage_targets()[k]).0 == coverage_order()[k] by {
        assert(coverage_targets().map_values(|t: (Seq<char>, Seq<Seq<char>>)| t.0)[k] == coverage_targets()[k].0);
    }
}

/// The owner of a path, searched from position `k`, is a coverage ID.
proof fn lemma_owner_is_known(path: Seq<char>, k: int)
    requires
        0 <= k <= 16,
    ensures
        coverage_owner_from(path, k) matches Some(id) ==> coverage_order().contains(id),
    decreases 16 - k,
{
    if k < 16 {
        lemma_targets_follow_coverage_order();
        assert(coverage_targets()[k].0 == coverage_order()[k]);
        lemma_owner_is_known(path, k + 1);
    }
}

fn is_excluded_leaf(path: &String) -> (r: bool)
    ensures
        r == excluded_leaf(path@),
{
    let p = chars_of(path.as_str());
    chars_eq(&p, &chars_of("/schema_id")) || chars_eq(&p, &chars_of("/schema_version")) || chars_eq(
        &p,
        &chars_of("/posture/rubric_scale"),
    )
}

fn insert_by_path(v: &mut Vec<CharterFieldSource>, x: CharterFieldSource)
    requires
        sources_by_path(field_source_views(old(v)@)),
    ensures
        sources_by_path(field_source_views(final(v)@)),
        field_source_views(final(v)@).to_multiset() == field_source_views(old(v)@).to_multiset().insert(
            field_source_view(x),
        ),
{
    let ghost ov = field_source_views(v@);
    let ghost xv = field_source_view(x);
    let xp = chars_of(x.target_path.as_str());
    let mut pos: usize = 0;
    let mut done = false;
    while !done && pos < v.len()
        invariant
            pos <= v.len(),
            ov == field_source_views(v@),
            sources_by_path(ov),
            xp@ == xv.0,
            forall|k: int| 0 <= k < pos ==> text_le((#[trigger] ov[k]).0, xv.0),
            done ==> pos < v.len() && seq_lt(xv.0, ov[pos as int].0),
        decreases v.len() - pos + (if done { 0int } else { 1int }),
    {
        if chars_lt(&xp, &chars_of(v[pos].target_path.as_str())) {
            done = true;
        } else {
            proof {
                lemma_seq_lt_total(ov[pos as int].0, xv.0);
            }
            pos = pos + 1;
        }
    }
    v.insert(pos, x);
    proof {
        let nv = field_source_views(v@);
        assert(nv =~= ov.insert(pos as int, xv));
        assert forall|i: int, j: int| 0 <= i < j < nv.len() implies text_le((#[trigger] nv[i]).0, (#[trigger] nv[j]).0) by {
            if j < pos {
                assert(nv[i] == ov[i] && nv[j] == ov[j]);
            } else if i < pos && j == pos {
                assert(nv[i] == ov[i]);
            } else if i < pos {
                assert(nv[i] == ov[i] && nv[j] == ov[j - 1]);
            } else if i == pos {
                assert(nv[j] == ov[j - 1]);
                if j - 1 > pos {
                    assert(text_le(ov[pos as int].0, ov[j - 1].0));
                    if seq_lt(ov[pos as int].0, ov[j - 1].0) {
                        lemma_seq_lt_transitive(xv.0, ov[pos as int].0, ov[j - 1].0);
                    }
                }
            } else {
                assert(nv[i] == ov[i - 1] && nv[j] == ov[j - 1]);
            }
        }
        vstd::seq_lib::to_multiset_insert(ov, pos as int, xv);
    }
}

/// The field sources of a candidate's leaves: every leaf but the schema identity and the rubric
/// scale is owned by a coverage ID and takes the source kind of that ID's submission; the
/// sources come in order of target path. `order` is the arrangement of `coverage` in coverage
/// order that the coverage check gives.
pub fn candidate_field_sources(
    leaves: &Vec<String>,
    coverage: &[CharterCoverageSubmission],
    order: &Vec<usize>,
) -> (r: Result<Vec<CharterFieldSource>, CharterIntakeError>)
    requires
        order.len() == 16,
        forall|k: int|
            0 <= k < 16 ==> (#[trigger] order@[k]) < coverage.len() && coverage@[order@[k] as int].coverage_id@
                == coverage_order()[k],
    ensures
        r is Ok <==> leaves_owned(crate::text::string_views(leaves@)),
        r matches Ok(v) ==> field_source_views(v@).to_multiset() == leaf_sources(
            crate::text::string_views(leaves@),
            coverage@,
            order@,
        ).to_multiset() && sources_by_path(field_source_views(v@)),
        r matches Err(e) ==> e.error_kind() == CharterIntakeErrorKind::CoverageMismatch,
{
    broadcast use vstd::seq_lib::group_to_multiset_ensures, vstd::multiset::group_multiset_axioms;

    let ghost lv = crate::text::string_views(leaves@);
    let order_list = coverage_order_list();
    let mut out: Vec<CharterFieldSource> = Vec::new();
    let mut i: usize = 0;
    assert(lv.take(0) =~= Seq::<Seq<char>>::empty());
    assert(field_source_views(out@) =~= Seq::empty());
    while i < leaves.len()
        invariant
            lv == crate::text::string_views(leaves@),
            order_list@.map_values(|s: &'static str| s@) == coverage_order(),
            order.len() == 16,
            forall|k: int|
                0 <= k < 16 ==> (#[trigger] order@[k]) < coverage.len() && coverage@[order@[k] as int].coverage_id@
                    == coverage_order()[k],
            i <= leaves.len(),
            leaves_owned(lv.take(i as int)),
            sources_by_path(field_source_views(out@)),
            field_source_views(out@).to_multiset() == leaf_sources(lv.take(i as int), coverage@, order@).to_multiset(),
        decreases leaves.len() - i,
    {
        let path = &leaves[i];
        assert(lv.take(i + 1).drop_last() =~= lv.take(i as int));
        assert(lv.take(i + 1).last() == path@);
        let owner = coverage_for_path(path.as_str());
        if is_excluded_leaf(path) {
            assert(leaves_owned(lv.take(i + 1))) by {
                assert forall|j: int|
                    0 <= j < lv.take(i + 1).len() && !excluded_leaf(#[trigger] lv.take(i + 1)[j]) implies coverage_owner_from(
                    lv.take(i + 1)[j],
                    0,
                ) is Some by {
                    assert(lv.take(i + 1)[j] == lv.take(i as int)[j]);
                }
            }
        } else {
            match owner {
                None => {
                    assert(!leaves_owned(lv)) by {
                        assert(lv[i as int] == path@);
                    }
                    let mut detail = chars_of("candidate leaf `");
                    let mut shown = chars_of(path.as_str());
                    let mut tail = chars_of("` has no Charter coverage owner");
                    detail.append(&mut shown);
                    detail.append(&mut tail);
                    return Err(
                        CharterIntakeError::new(
                            CharterIntakeErrorKind::CoverageMismatch,
                            string_of(&detail).as_str(),
                        ),
                    );
                },
                Some(id) => {
                    let id_string = string_of(&chars_of(id));
                    proof {
                        lemma_owner_is_known(path@, 0);
                    }
                    let m = match position_in(&order_list, &id_string) {
                        Some(m) => m,
                        None => {
                            proof {
                                let k = coverage_order().index_of(id@);
                                assert(order_list@[k]@ == coverage_order()[k]);
                            }
                            return Err(
                                CharterIntakeError::new(
                                    CharterIntakeErrorKind::CoverageMismatch,
                                    "candidate leaf owner is not a Charter coverage ID",
                                ),
                            );
                        },
                    };
                    proof {
                        assert forall|j: int| 0 <= j < m implies coverage_order()[j] != id@ by {
                            assert(order_list@[j]@ == coverage_order()[j]);
                        }
                        assert(order_list@[m as int]@ == coverage_order()[m as int]);
                        assert(first_position_of(id@, m as int));
                        let k = choose|k: int| first_position_of(id@, k);
                        crate::charter_intake::lemma_first_position_unique(id@, k, m as int);
                    }
                    let kind = coverage[order[m]].source_kind;
                    let source = CharterFieldSource {
                        target_path: path.clone(),
                        coverage_id: id_string,
                        source_kind: kind,
                    };
                    let ghost before = field_source_views(out@);
                    insert_by_path(&mut out, source);
                    assert(leaf_sources(lv.take(i + 1), coverage@, order@) == leaf_sources(
                        lv.take(i as int),
                        coverage@,
                        order@,
                    ).push(field_source_view(source)));
                    proof {
                        vstd::seq_lib::to_multiset_build(
                            leaf_sources(lv.take(i as int), coverage@, order@),
                            field_source_view(source),
                        );
                    }
                    assert(leaves_owned(lv.take(i + 1))) by {
                        assert forall|j: int|
                            0 <= j < lv.take(i + 1).len() && !excluded_leaf(#[trigger] lv.take(i + 1)[j]) implies coverage_owner_from(
                            lv.take(i + 1)[j],
                            0,
                        ) is Some by {
                            if j < i {
                                assert(lv.take(i + 1)[j] == lv.take(i as int)[j]);
                            }
                        }
                    }
                },
            }
        }
        i = i + 1;
    }
    assert(lv.take(leaves.len() as int) =~= lv);
    Ok(out)
}

// ---------------------------------------------------------------------------
// The intake record and candidate of an evaluated intake
// ---------------------------------------------------------------------------

pub const CHARTER_KIND_REF: &'static str = "handbook.artifact-kind.project-authority@1.1.0";

pub const CHARTER_INSTANCE_ID: &'static str = "project_authority";

pub const CHARTER_SCHEMA_REF: &'static str = "handbook.schemas.artifacts.project-authority@1.1.0";

pub const CHARTER_INTAKE_REF: &'static str = "handbook.intake.charter@1.0.0";

pub const CHARTER_APPROVAL_POLICY_REF: &'static str = "handbook.approval.constitutional-candidate@1.0.0";

/// The serialized name of an acquisition mode.
pub open spec fn mode_name(m: CharterAcquisitionMode) -> Seq<char> {
    match m {
        CharterAcquisitionMode::GuidedAdaptive => "guided_adaptive"@,
        CharterAcquisitionMode::Express => "express"@,
        CharterAcquisitionMode::AgentAssisted => "agent_assisted"@,
    }
}

/// The serialized name of a source kind.
pub open spec fn source_kind_name(k: CharterIntakeSourceKind) -> Seq<char> {
    match k {
        CharterIntakeSourceKind::UserDeclaration => "user_declaration"@,
        CharterIntakeSourceKind::EvidencedInference => "evidenced_inference"@,
        CharterIntakeSourceKind::DeterministicDefault => "deterministic_default"@,
        CharterIntakeSourceKind::KnownUnknown => "known_unknown"@,
        CharterIntakeSourceKind::Contradiction => "contradiction"@,
        CharterIntakeSourceKind::Waiver => "waiver"@,
    }
}

fn mode_text(m: CharterAcquisitionMode) -> (r: Vec<char>)
    ensures
        r@ == json_string(mode_name(m)),
{
    match m {
        CharterAcquisitionMode::GuidedAdaptive => json_str("guided_adaptive"),
        CharterAcquisitionMode::Express => json_str("express"),
        CharterAcquisitionMode::AgentAssisted => json_str("agent_assisted"),
    }
}

fn source_kind_text(k: CharterIntakeSourceKind) -> (r: Vec<char>)
    ensures
        r@ == json_string(source_kind_name(k)),
{
    match k {
        CharterIntakeSourceKind::UserDeclaration => json_str("user_declaration"),
        CharterIntakeSourceKind::EvidencedInference => json_str("evidenced_inference"),
        CharterIntakeSourceKind::DeterministicDefault => json_str("deterministic_default"),
        CharterIntakeSourceKind::KnownUnknown => json_str("known_unknown"),
        CharterIntakeSourceKind::Contradiction => json_str("contradiction"),
        CharterIntakeSourceKind::Waiver => json_str("waiver"),
    }
}

pub open spec fn opt_text(o: Option<String>) -> Option<Seq<char>> {
    match o {
        Some(s) => Some(s@),
        None => None,
    }
}

/// The JSON of an intake consumer.
pub open spec fn consumer_json(c: CharterIntakeConsumer) -> Seq<char> {
    json_object(
        seq![
            json_member("kind"@, json_string(c.kind@)),
            json_member("id"@, json_string(c.id@)),
            json_member("version"@, json_string(c.version@)),
        ],
    )
}

/// The JSON of a coverage result.
pub open spec fn coverage_result_json(r: CharterCoverageResult) -> Seq<char> {
    json_object(
        seq![
            json_member("coverage_id"@, json_string(r.coverage_id@)),
            json_member("applicability"@, json_string(r.applicability@)),
            json_member("source_kind"@, json_string(source_kind_name(r.source_kind))),
            json_member("value_ref"@, json_string(r.value_ref@)),
            json_member("evidence_refs"@, json_string_array(string_views(r.evidence_refs@))),
            json_member("confidence"@, json_string(r.confidence@)),
            json_member("freshness"@, json_opt_string(opt_text(r.freshness))),
            json_member("sensitivity"@, json_string(r.sensitivity@)),
            json_member("evaluation"@, json_string(r.evaluation@)),
            json_member("contradiction_refs"@, json_string_array(string_views(r.contradiction_refs@))),
            json_member("waiver_ref"@, json_opt_string(opt_text(r.waiver_ref))),
        ],
    )
}

/// The JSON of a field source.
pub open spec fn field_source_json(f: CharterFieldSource) -> Seq<char> {
    json_object(
        seq![
            json_member("target_path"@, json_string(f.target_path@)),
            json_member("coverage_id"@, json_string(f.coverage_id@)),
            json_member("source_kind"@, json_string(source_kind_name(f.source_kind))),
        ],
    )
}

/// The identity preimage of an intake record: all but its ID, its finalization time and its
/// fingerprint.
#[verifier::opaque]
pub open spec fn intake_identity_json(i: CharterIntakeRecordV11) -> Seq<char> {
    json_object(
        seq![
            json_member("schema_id"@, json_string(i.schema_id@)),
            json_member("schema_version"@, json_string(i.schema_version@)),
            json_member("intake_definition_ref"@, json_string(i.intake_definition_ref@)),
            json_member("acquisition_mode"@, json_string(mode_name(i.acquisition_mode))),
            json_member("target_kind_ref"@, json_string(i.target_kind_ref@)),
            json_member("target_instance_id"@, json_string(i.target_instance_id@)),
            json_member("profile_ref"@, json_string(i.profile_ref@)),
            json_member("resolved_profile_fingerprint"@, json_string(i.resolved_profile_fingerprint@)),
            json_member("basis_artifact_fingerprint"@, json_opt_string(opt_text(i.basis_artifact_fingerprint))),
            json_member("consumer"@, consumer_json(i.consumer)),
            json_member(
                "coverage_results"@,
                json_array(i.coverage_results@.map_values(|r: CharterCoverageResult| coverage_result_json(r))),
            ),
            json_member("prompt_event_refs"@, json_string_array(string_views(i.prompt_event_refs@))),
        ],
    )
}

/// The identity preimage of a candidate record: all but its ID and fingerprint.
#[verifier::opaque]
pub open spec fn candidate_identity_json(c: CharterCandidateV11) -> Seq<char> {
    json_object(
        seq![
            json_member("schema_id"@, json_string(c.schema_id@)),
            json_member("schema_version"@, json_string(c.schema_version@)),
            json_member("intake_record_ref"@, json_string(c.intake_record_ref@)),
            json_member("target_kind_ref"@, json_string(c.target_kind_ref@)),
            json_member("target_instance_id"@, json_string(c.target_instance_id@)),
            json_member("target_schema_ref"@, json_string(c.target_schema_ref@)),
            json_member("profile_ref"@, json_string(c.profile_ref@)),
            json_member("resolved_profile_fingerprint"@, json_string(c.resolved_profile_fingerprint@)),
            json_member("basis_artifact_fingerprint"@, json_opt_string(opt_text(c.basis_artifact_fingerprint))),
            json_member("normalized_content_ref"@, json_string(c.normalized_content_ref@)),
            json_member(
                "field_sources"@,
                json_array(c.field_sources@.map_values(|f: CharterFieldSource| field_source_json(f))),
            ),
            json_member("validation_result_refs"@, json_string_array(string_views(c.validation_result_refs@))),
            json_member("unresolved_coverage_ids"@, json_string_array(string_views(c.unresolved_coverage_ids@))),
            json_member("promotion_eligibility"@, json_string(c.promotion_eligibility@)),
            json_member("required_approval_policy_ref"@, json_string(c.required_approval_policy_ref@)),
        ],
    )
}

/// The coverage result of a submission: applicable, and waived where it names a waiver,
/// satisfied otherwise.
pub open spec fn result_of_submission(r: CharterCoverageResult, s: CharterCoverageSubmission) -> bool {
    &&& r.coverage_id@ == s.coverage_id@
    &&& r.applicability@ == "applicable"@
    &&& r.source_kind == s.source_kind
    &&& r.value_ref@ == s.value_ref@
    &&& string_views(r.evidence_refs@) == string_views(s.evidence_refs@)
    &&& r.confidence@ == s.confidence@
    &&& opt_text(r.freshness) == opt_text(s.freshness)
    &&& r.sensitivity@ == s.sensitivity@
    &&& r.evaluation@ == (if s.waiver_ref is Some { "waived"@ } else { "satisfied"@ })
    &&& string_views(r.contradiction_refs@) == string_views(s.contradiction_refs@)
    &&& opt_text(r.waiver_ref) == opt_text(s.waiver_ref)
}

/// The intake record of an evaluated intake, but for its identity: the Charter target and
/// profile, the basis, the consumer, the coverage results in coverage order, the prompt events
/// and the finalization time.
pub open spec fn intake_built_from(
    i: CharterIntakeRecordV11,
    profile_ref: Seq<char>,
    profile_fingerprint: Seq<char>,
    mode: CharterAcquisitionMode,
    coverage: Seq<CharterCoverageSubmission>,
    order: Seq<usize>,
    consumer: CharterIntakeConsumer,
    prompt_event_refs: Seq<Seq<char>>,
    finalized_at_utc: Seq<char>,
    basis: Option<Seq<char>>,
) -> bool {
    &&& i.schema_id@ == "handbook.artifact-intake-record"@
    &&& i.schema_version@ == "1.1"@
    &&& i.intake_definition_ref@ == CHARTER_INTAKE_REF@
    &&& i.acquisition_mode == mode
    &&& i.target_kind_ref@ == CHARTER_KIND_REF@
    &&& i.target_instance_id@ == CHARTER_INSTANCE_ID@
    &&& i.profile_ref@ == profile_ref
    &&& i.resolved_profile_fingerprint@ == profile_fingerprint
    &&& opt_text(i.basis_artifact_fingerprint) == basis
    &&& i.consumer.kind@ == consumer.kind@ && i.consumer.id@ == consumer.id@ && i.consumer.version@
        == consumer.version@
    &&& i.coverage_results@.len() == 16
    &&& forall|k: int| 0 <= k < 16 ==> result_of_submission(#[trigger] i.coverage_results@[k], coverage[order[k] as int])
    &&& string_views(i.prompt_event_refs@) == prompt_event_refs
    &&& i.finalized_at_utc@ == finalized_at_utc
}

/// The candidate of an evaluated intake, but for its identity: the Charter target and profile,
/// the basis, its intake and normalized content, the field sources, and no results or
/// unresolved coverage, requiring approval.
pub open spec fn candidate_built_from(
    c: CharterCandidateV11,
    profile_ref: Seq<char>,
    profile_fingerprint: Seq<char>,
    basis: Option<Seq<char>>,
    intake_record_ref: Seq<char>,
    normalized_content: Seq<u8>,
    field_sources: Seq<(Seq<char>, Seq<char>, CharterIntakeSourceKind)>,
) -> bool {
    &&& c.schema_id@ == "handbook.artifact-candidate"@
    &&& c.schema_version@ == "1.1"@
    &&& c.intake_record_ref@ == intake_record_ref
    &&& c.target_kind_ref@ == CHARTER_KIND_REF@
    &&& c.target_instance_id@ == CHARTER_INSTANCE_ID@
    &&& c.target_schema_ref@ == CHARTER_SCHEMA_REF@
    &&& c.profile_ref@ == profile_ref
    &&& c.resolved_profile_fingerprint@ == profile_fingerprint
    &&& opt_text(c.basis_artifact_fingerprint) == basis
    &&& c.normalized_content_ref@ == "candidate-content/charter_"@ + fingerprint_hex(content_fingerprint(normalized_content))
        + ".yaml"@
    &&& field_source_views(c.field_sources@) == field_sources
    &&& c.validation_result_refs@.len() == 0
    &&& c.unresolved_coverage_ids@.len() == 0
    &&& c.promotion_eligibility@ == "requires_approval"@
    &&& c.required_approval_policy_ref@ == CHARTER_APPROVAL_POLICY_REF@
}

fn copy_strings(v: &Vec<String>) -> (r: Vec<String>)
    ensures
        r@ == v@,
{
    let mut out: Vec<String> = Vec::new();
    let mut i: usize = 0;
    while i < v.len()
        invariant
            i <= v.len(),
            out@ == v@.subrange(0, i as int),
        decreases v.len() - i,
    {
        out.push(v[i].clone());
        assert(out@ =~= v@.subrange(0, i + 1));
        i = i + 1;
    }
    assert(out@ =~= v@);
    out
}

fn coverage_result_of(s: &CharterCoverageSubmission) -> (r: CharterCoverageResult)
    ensures
        result_of_submission(r, *s),
{
    CharterCoverageResult {
        coverage_id: s.coverage_id.clone(),
        applicability: "applicable".to_owned(),
        source_kind: s.source_kind,
        value_ref: s.value_ref.clone(),
        evidence_refs: copy_strings(&s.evidence_refs),
        confidence: s.confidence.clone(),
        freshness: s.freshness.clone(),
        sensitivity: s.sensitivity.clone(),
        evaluation: if s.waiver_ref.is_some() {
            "waived".to_owned()
        } else {
            "satisfied".to_owned()
        },
        contradiction_refs: copy_strings(&s.contradiction_refs),
        waiver_ref: s.waiver_ref.clone(),
    }
}

fn coverage_result_text(r: &CharterCoverageResult) -> (t: Vec<char>)
    ensures
        t@ == coverage_result_json(*r),
{
    let mut m: Vec<Vec<char>> = Vec::new();
    m.push(member_text("coverage_id", json_str(r.coverage_id.as_str())));
    m.push(member_text("applicability", json_str(r.applicability.as_str())));
    m.push(member_text("source_kind", source_kind_text(r.source_kind)));
    m.push(member_text("value_ref", json_str(r.value_ref.as_str())));
    m.push(member_text("evidence_refs", string_array_text(&r.evidence_refs)));
    m.push(member_text("confidence", json_str(r.confidence.as_str())));
    m.push(member_text("freshness", opt_string_text(&r.freshness)));
    m.push(member_text("sensitivity", json_str(r.sensitivity.as_str())));
    m.push(member_text("evaluation", json_str(r.evaluation.as_str())));
    m.push(member_text("contradiction_refs", string_array_text(&r.contradiction_refs)));
    m.push(member_text("waiver_ref", opt_string_text(&r.waiver_ref)));
    assert(views(m@) =~= seq![
        json_member("coverage_id"@, json_string(r.coverage_id@)),
        json_member("applicability"@, json_string(r.applicability@)),
        json_member("source_kind"@, json_string(source_kind_name(r.source_kind))),
        json_member("value_ref"@, json_string(r.value_ref@)),
        json_member("evidence_refs"@, json_string_array(string_views(r.evidence_refs@))),
        json_member("confidence"@, json_string(r.confidence@)),
        json_member("freshness"@, json_opt_string(opt_text(r.freshness))),
        json_member("sensitivity"@, json_string(r.sensitivity@)),
        json_member("evaluation"@, json_string(r.evaluation@)),
        json_member("contradiction_refs"@, json_string_array(string_views(r.contradiction_refs@))),
        json_member("waiver_ref"@, json_opt_string(opt_text(r.waiver_ref))),
    ]);
    object_text(&m)
}

fn coverage_results_text(v: &Vec<CharterCoverageResult>) -> (t: Vec<char>)
    ensures
        t@ == json_array(v@.map_values(|r: CharterCoverageResult| coverage_result_json(r))),
{
    let mut items: Vec<Vec<char>> = Vec::new();
    let mut i: usize = 0;
    while i < v.len()
        invariant
            i <= v.len(),
            views(items@) == v@.map_values(|r: CharterCoverageResult| coverage_result_json(r)).take(i as int),
        decreases v.len() - i,
    {
        let ghost before = views(items@);
        items.push(coverage_result_text(&v[i]));
        assert(views(items@) =~= before.push(coverage_result_json(v@[i as int])));
        assert(views(items@) =~= v@.map_values(|r: CharterCoverageResult| coverage_result_json(r)).take(i + 1));
        i = i + 1;
    }
    assert(v@.map_values(|r: CharterCoverageResult| coverage_result_json(r)).take(v.len() as int) =~= v@.map_values(
        |r: CharterCoverageResult| coverage_result_json(r),
    ));
    array_text(&items)
}

fn field_sources_text(v: &Vec<CharterFieldSource>) -> (t: Vec<char>)
    ensures
        t@ == json_array(v@.map_values(|f: CharterFieldSource| field_source_json(f))),
{
    let mut items: Vec<Vec<char>> = Vec::new();
    let mut i: usize = 0;
    while i < v.len()
        invariant
            i <= v.len(),
            views(items@) == v@.map_values(|f: CharterFieldSource| field_source_json(f)).take(i as int),
        decreases v.len() - i,
    {
        let f = &v[i];
        let mut m: Vec<Vec<char>> = Vec::new();
        m.push(member_text("target_path", json_str(f.target_path.as_str())));
        m.push(member_text("coverage_id", json_str(f.coverage_id.as_str())));
        m.push(member_text("source_kind", source_kind_text(f.source_kind)));
        assert(views(m@) =~= seq![
            json_member("target_path"@, json_string(f.target_path@)),
            json_member("coverage_id"@, json_string(f.coverage_id@)),
            json_member("source_kind"@, json_string(source_kind_name(f.source_kind))),
        ]);
        let ghost before = views(items@);
        items.push(object_text(&m));
        assert(views(items@) =~= before.push(field_source_json(*f)));
        assert(views(items@) =~= v@.map_values(|x: CharterFieldSource| field_source_json(x)).take(i + 1));
        i = i + 1;
    }
    assert(v@.map_values(|f: CharterFieldSource| field_source_json(f)).take(v.len() as int) =~= v@.map_values(
        |f: CharterFieldSource| field_source_json(f),
    ));
    array_text(&items)
}

fn consumer_text(consumer: &CharterIntakeConsumer) -> (t: Vec<char>)
    ensures
        t@ == consumer_json(*consumer),
{
    let mut c: Vec<Vec<char>> = Vec::new();
    c.push(member_text("kind", json_str(consumer.kind.as_str())));
    c.push(member_text("id", json_str(consumer.id.as_str())));
    c.push(member_text("version", json_str(consumer.version.as_str())));
    assert(views(c@) =~= seq![
        json_member("kind"@, json_string(consumer.kind@)),
        json_member("id"@, json_string(consumer.id@)),
        json_member("version"@, json_string(consumer.version@)),
    ]);
    object_text(&c)
}

#[verifier::rlimit(30)]
fn intake_identity_text(i: &CharterIntakeRecordV11) -> (t: Vec<char>)
    ensures
        t@ == intake_identity_json(*i),
{
    let mut m: Vec<Vec<char>> = Vec::new();
    m.push(member_text("schema_id", json_str(i.schema_id.as_str())));
    m.push(member_text("schema_version", json_str(i.schema_version.as_str())));
    m.push(member_text("intake_definition_ref", json_str(i.intake_definition_ref.as_str())));
    m.push(member_text("acquisition_mode", mode_text(i.acquisition_mode)));
    m.push(member_text("target_kind_ref", json_str(i.target_kind_ref.as_str())));
    m.push(member_text("target_instance_id", json_str(i.target_instance_id.as_str())));
    m.push(member_text("profile_ref", json_str(i.profile_ref.as_str())));
    m.push(member_text("resolved_profile_fingerprint", json_str(i.resolved_profile_fingerprint.as_str())));
    m.push(member_text("basis_artifact_fingerprint", opt_string_text(&i.basis_artifact_fingerprint)));
    m.push(member_text("consumer", consumer_text(&i.consumer)));
    m.push(member_text("coverage_results", coverage_results_text(&i.coverage_results)));
    m.push(member_text("prompt_event_refs", string_array_text(&i.prompt_event_refs)));
    reveal(intake_identity_json);
    assert(views(m@) =~= seq![
        json_member("schema_id"@, json_string(i.schema_id@)),
        json_member("schema_version"@, json_string(i.schema_version@)),
        json_member("intake_definition_ref"@, json_string(i.intake_definition_ref@)),
        json_member("acquisition_mode"@, json_string(mode_name(i.acquisition_mode))),
        json_member("target_kind_ref"@, json_string(i.target_kind_ref@)),
        json_member("target_instance_id"@, json_string(i.target_instance_id@)),
        json_member("profile_ref"@, json_string(i.profile_ref@)),
        json_member("resolved_profile_fingerprint"@, json_string(i.resolved_profile_fingerprint@)),
        json_member("basis_artifact_fingerprint"@, json_opt_string(opt_text(i.basis_artifact_fingerprint))),
        json_member("consumer"@, consumer_json(i.consumer)),
        json_member(
            "coverage_results"@,
            json_array(i.coverage_results@.map_values(|r: CharterCoverageResult| coverage_result_json(r))),
        ),
        json_member("prompt_event_refs"@, json_string_array(string_views(i.prompt_event_refs@))),
    ]);
    object_text(&m)
}

#[verifier::rlimit(30)]
fn candidate_identity_text(c: &CharterCandidateV11) -> (t: Vec<char>)
    ensures
        t@ == candidate_identity_json(*c),
{
    let mut m: Vec<Vec<char>> = Vec::new();
    m.push(member_text("schema_id", json_str(c.schema_id.as_str())));
    m.push(member_text("schema_version", json_str(c.schema_version.as_str())));
    m.push(member_text("intake_record_ref", json_str(c.intake_record_ref.as_str())));
    m.push(member_text("target_kind_ref", json_str(c.target_kind_ref.as_str())));
    m.push(member_text("target_instance_id", json_str(c.target_instance_id.as_str())));
    m.push(member_text("target_schema_ref", json_str(c.target_schema_ref.as_str())));
    m.push(member_text("profile_ref", json_str(c.profile_ref.as_str())));
    m.push(member_text("resolved_profile_fingerprint", json_str(c.resolved_profile_fingerprint.as_str())));
    m.push(member_text("basis_artifact_fingerprint", opt_string_text(&c.basis_artifact_fingerprint)));
    m.push(member_text("normalized_content_ref", json_str(c.normalized_content_ref.as_str())));
    m.push(member_text("field_sources", field_sources_text(&c.field_sources)));
    m.push(member_text("validation_result_refs", string_array_text(&c.validation_result_refs)));
    m.push(member_text("unresolved_coverage_ids", string_array_text(&c.unresolved_coverage_ids)));
    m.push(member_text("promotion_eligibility", json_str(c.promotion_eligibility.as_str())));
    m.push(member_text("required_approval_policy_ref", json_str(c.required_approval_policy_ref.as_str())));
    reveal(candidate_identity_json);
    assert(views(m@) =~= seq![
        json_member("schema_id"@, json_string(c.schema_id@)),
        json_member("schema_version"@, json_string(c.schema_version@)),
        json_member("intake_record_ref"@, json_string(c.intake_record_ref@)),
        json_member("target_kind_ref"@, json_string(c.target_kind_ref@)),
        json_member("target_instance_id"@, json_string(c.target_instance_id@)),
        json_member("target_schema_ref"@, json_string(c.target_schema_ref@)),
        json_member("profile_ref"@, json_string(c.profile_ref@)),
        json_member("resolved_profile_fingerprint"@, json_string(c.resolved_profile_fingerprint@)),
        json_member("basis_artifact_fingerprint"@, json_opt_string(opt_text(c.basis_artifact_fingerprint))),
        json_member("normalized_content_ref"@, json_string(c.normalized_content_ref@)),
        json_member(
            "field_sources"@,
            json_array(c.field_sources@.map_values(|f: CharterFieldSource| field_source_json(f))),
        ),
        json_member("validation_result_refs"@, json_string_array(string_views(c.validation_result_refs@))),
        json_member("unresolved_coverage_ids"@, json_string_array(string_views(c.unresolved_coverage_ids@))),
        json_member("promotion_eligibility"@, json_string(c.promotion_eligibility@)),
        json_member("required_approval_policy_ref"@, json_string(c.required_approval_policy_ref@)),
    ]);
    object_text(&m)
}

fn hex_after_prefix(f: &Vec<char>) -> (r: Vec<char>)
    requires
        is_fingerprint(f@),
    ensures
        r@ == fingerprint_hex(f@),
{
    proof {
        lemma_sha256_prefix();
    }
    let hex = slice_chars(f, 7, f.len());
    assert(hex@ =~= fingerprint_hex(f@));
    hex
}

fn prefixed(a: &str, b: &Vec<char>) -> (r: String)
    ensures
        r@ == a@ + b@,
{
    let mut out = chars_of(a);
    let mut rest = b.clone();
    assert(rest@ == b@);
    out.append(&mut rest);
    string_of(&out)
}

fn joined(a: &str, b: &Vec<char>, c: &str) -> (r: String)
    ensures
        r@ == a@ + b@ + c@,
{
    let mut out = chars_of(a);
    let mut middle = b.clone();
    assert(middle@ == b@);
    out.append(&mut middle);
    let mut tail = chars_of(c);
    out.append(&mut tail);
    string_of(&out)
}

/// Two intake records built from the same intake have the same identity preimage.
proof fn lemma_intake_preimage_determined(
    a: CharterIntakeRecordV11,
    b: CharterIntakeRecordV11,
    profile_ref: Seq<char>,
    profile_fingerprint: Seq<char>,
    mode: CharterAcquisitionMode,
    coverage: Seq<CharterCoverageSubmission>,
    order: Seq<usize>,
    consumer: CharterIntakeConsumer,
    prompt_event_refs: Seq<Seq<char>>,
    finalized_at_utc: Seq<char>,
    basis: Option<Seq<char>>,
)
    requires
        intake_built_from(a, profile_ref, profile_fingerprint, mode, coverage, order, consumer, prompt_event_refs, finalized_at_utc, basis),
        intake_built_from(b, profile_ref, profile_fingerprint, mode, coverage, order, consumer, prompt_event_refs, finalized_at_utc, basis),
    ensures
        intake_identity_json(a) == intake_identity_json(b),
{
    assert forall|k: int| 0 <= k < 16 implies coverage_result_json(a.coverage_results@[k]) == coverage_result_json(
        b.coverage_results@[k],
    ) by {
        assert(result_of_submission(a.coverage_results@[k], coverage[order[k] as int]));
        assert(result_of_submission(b.coverage_results@[k], coverage[order[k] as int]));
    }
    assert(a.coverage_results@.map_values(|r: CharterCoverageResult| coverage_result_json(r))
        =~= b.coverage_results@.map_values(|r: CharterCoverageResult| coverage_result_json(r)));
    reveal(intake_identity_json);
}

/// Two candidates built from the same intake have the same identity preimage.
proof fn lemma_candidate_preimage_determined(
    a: CharterCandidateV11,
    b: CharterCandidateV11,
    profile_ref: Seq<char>,
    profile_fingerprint: Seq<char>,
    basis: Option<Seq<char>>,
    intake_record_ref: Seq<char>,
    normalized_content: Seq<u8>,
    field_sources: Seq<(Seq<char>, Seq<char>, CharterIntakeSourceKind)>,
)
    requires
        candidate_built_from(a, profile_ref, profile_fingerprint, basis, intake_record_ref, normalized_content, field_sources),
        candidate_built_from(b, profile_ref, profile_fingerprint, basis, intake_record_ref, normalized_content, field_sources),
    ensures
        candidate_identity_json(a) == candidate_identity_json(b),
{
    assert(field_source_views(a.field_sources@).len() == a.field_sources@.len());
    assert(field_source_views(b.field_sources@).len() == b.field_sources@.len());
    assert forall|k: int| 0 <= k < a.field_sources@.len() implies field_source_json(a.field_sources@[k]) == field_source_json(
        b.field_sources@[k],
    ) by {
        assert(field_source_views(a.field_sources@)[k] == field_source_view(a.field_sources@[k]));
        assert(field_source_views(b.field_sources@)[k] == field_source_view(b.field_sources@[k]));
    }
    assert(a.field_sources@.map_values(|f: CharterFieldSource| field_source_json(f))
        =~= b.field_sources@.map_values(|f: CharterFieldSource| field_source_json(f)));
    assert(string_views(a.validation_result_refs@) =~= string_views(b.validation_result_refs@));
    assert(string_views(a.unresolved_coverage_ids@) =~= string_views(b.unresolved_coverage_ids@));
    reveal(candidate_identity_json);
}

/// The intake reference of an intake record with the given fingerprint.
pub open spec fn intake_ref_of(fingerprint: Seq<char>) -> Seq<char> {
    "intake-records/intake_"@ + fingerprint_hex(fingerprint) + ".json"@
}

/// Builds the intake record and the candidate of an intake whose submissions, basis, audit
/// fields and field sources passed their checks; `order` arranges `coverage` in coverage order.
#[verifier::rlimit(40)]
fn seal_intake(
    profile_ref: &str,
    profile_fingerprint: &str,
    mode: CharterAcquisitionMode,
    coverage: &[CharterCoverageSubmission],
    order: &Vec<usize>,
    consumer: &CharterIntakeConsumer,
    prompt_event_refs: &Vec<String>,
    finalized_at_utc: &str,
    basis: &Option<String>,
) -> (r: Result<CharterIntakeRecordV11, CharterIntakeError>)
    requires
        order.len() == 16,
        forall|k: int|
            0 <= k < 16 ==> (#[trigger] order@[k]) < coverage.len() && coverage@[order@[k] as int].coverage_id@
                == coverage_order()[k],
    ensures
        r matches Ok(i) ==> {
            &&& intake_built_from(
                i,
                profile_ref@,
                profile_fingerprint@,
                mode,
                coverage@,
                order@,
                *consumer,
                string_views(prompt_event_refs@),
                finalized_at_utc@,
                opt_text(*basis),
            )
            &&& json_fingerprint(intake_identity_json(i)) == Some(i.record_fingerprint@)
            &&& is_fingerprint(i.record_fingerprint@)
            &&& i.intake_record_id@ == "intake_"@ + fingerprint_hex(i.record_fingerprint@)
        },
        r matches Err(e) ==> e.error_kind() == CharterIntakeErrorKind::FingerprintFailed,
{
    let mut results: Vec<CharterCoverageResult> = Vec::new();
    let mut k: usize = 0;
    while k < 16
        invariant
            order.len() == 16,
            forall|j: int|
                0 <= j < 16 ==> (#[trigger] order@[j]) < coverage.len() && coverage@[order@[j] as int].coverage_id@
                    == coverage_order()[j],
            k <= 16,
            results@.len() == k,
            forall|j: int| 0 <= j < k ==> result_of_submission(#[trigger] results@[j], coverage@[order@[j] as int]),
        decreases 16 - k,
    {
        results.push(coverage_result_of(&coverage[order[k]]));
        k = k + 1;
    }
    let intake_consumer = CharterIntakeConsumer {
        kind: consumer.kind.clone(),
        id: consumer.id.clone(),
        version: consumer.version.clone(),
    };
    let mut intake = CharterIntakeRecordV11 {
        schema_id: "handbook.artifact-intake-record".to_owned(),
        schema_version: "1.1".to_owned(),
        intake_record_id: String::new(),
        intake_definition_ref: CHARTER_INTAKE_REF.to_owned(),
        acquisition_mode: mode,
        target_kind_ref: CHARTER_KIND_REF.to_owned(),
        target_instance_id: CHARTER_INSTANCE_ID.to_owned(),
        profile_ref: profile_ref.to_owned(),
        resolved_profile_fingerprint: profile_fingerprint.to_owned(),
        basis_artifact_fingerprint: basis.clone(),
        consumer: intake_consumer,
        coverage_results: results,
        prompt_event_refs: copy_strings(prompt_event_refs),
        finalized_at_utc: finalized_at_utc.to_owned(),
        record_fingerprint: String::new(),
    };
    let fingerprint = match fingerprint_json(&intake_identity_text(&intake)) {
        Some(f) => f,
        None => {
            return Err(
                CharterIntakeError::new(
                    CharterIntakeErrorKind::FingerprintFailed,
                    "intake identity could not be fingerprinted",
                ),
            );
        },
    };
    let hex = hex_after_prefix(&fingerprint);
    let ghost unsealed = intake;
    intake.intake_record_id = prefixed("intake_", &hex);
    intake.record_fingerprint = string_of(&fingerprint);
    proof {
        lemma_intake_preimage_determined(
            intake,
            unsealed,
            profile_ref@,
            profile_fingerprint@,
            mode,
            coverage@,
            order@,
            *consumer,
            string_views(prompt_event_refs@),
            finalized_at_utc@,
            opt_text(*basis),
        );
    }
    Ok(intake)
}

#[verifier::rlimit(40)]
fn seal_candidate(
    profile_ref: &str,
    profile_fingerprint: &str,
    basis: &Option<String>,
    intake_fingerprint: &String,
    field_sources: Vec<CharterFieldSource>,
    normalized_content: &Vec<u8>,
) -> (r: Result<CharterCandidateV11, CharterIntakeError>)
    requires
        is_fingerprint(intake_fingerprint@),
    ensures
        r matches Ok(c) ==> {
            &&& candidate_built_from(
                c,
                profile_ref@,
                profile_fingerprint@,
                opt_text(*basis),
                intake_ref_of(intake_fingerprint@),
                normalized_content@,
                field_source_views(field_sources@),
            )
            &&& json_fingerprint(candidate_identity_json(c)) == Some(c.candidate_fingerprint@)
            &&& c.candidate_id@ == "candidate_"@ + fingerprint_hex(c.candidate_fingerprint@)
        },
        r matches Err(e) ==> e.error_kind() == CharterIntakeErrorKind::FingerprintFailed,
{
    let intake_hex = hex_after_prefix(&chars_of(intake_fingerprint.as_str()));
    let content_fingerprint_text = fingerprint_of_bytes(normalized_content.as_slice());
    let content_hex = hex_after_prefix(&content_fingerprint_text);
    let mut candidate = CharterCandidateV11 {
        schema_id: "handbook.artifact-candidate".to_owned(),
        schema_version: "1.1".to_owned(),
        candidate_id: String::new(),
        intake_record_ref: joined("intake-records/intake_", &intake_hex, ".json"),
        target_kind_ref: CHARTER_KIND_REF.to_owned(),
        target_instance_id: CHARTER_INSTANCE_ID.to_owned(),
        target_schema_ref: CHARTER_SCHEMA_REF.to_owned(),
        profile_ref: profile_ref.to_owned(),
        resolved_profile_fingerprint: profile_fingerprint.to_owned(),
        basis_artifact_fingerprint: basis.clone(),
        normalized_content_ref: joined("candidate-content/charter_", &content_hex, ".yaml"),
        field_sources,
        validation_result_refs: Vec::new(),
        unresolved_coverage_ids: Vec::new(),
        promotion_eligibility: "requires_approval".to_owned(),
        required_approval_policy_ref: CHARTER_APPROVAL_POLICY_REF.to_owned(),
        candidate_fingerprint: String::new(),
    };
    let fingerprint = match fingerprint_json(&candidate_identity_text(&candidate)) {
        Some(f) => f,
        None => {
            return Err(
                CharterIntakeError::new(
                    CharterIntakeErrorKind::FingerprintFailed,
                    "candidate identity could not be fingerprinted",
                ),
            );
        },
    };
    let hex = hex_after_prefix(&fingerprint);
    let ghost unsealed = candidate;
    candidate.candidate_id = prefixed("candidate_", &hex);
    candidate.candidate_fingerprint = string_of(&fingerprint);
    proof {
        lemma_candidate_preimage_determined(
            candidate,
            unsealed,
            profile_ref@,
            profile_fingerprint@,
            opt_text(*basis),
            intake_ref_of(intake_fingerprint@),
            normalized_content@,
            field_source_views(unsealed.field_sources@),
        );
    }
    Ok(candidate)
}

pub fn assemble_charter_candidate(
    profile_ref: &str,
    profile_fingerprint: &str,
    mode: CharterAcquisitionMode,
    coverage: &[CharterCoverageSubmission],
    order: &Vec<usize>,
    consumer: &CharterIntakeConsumer,
    prompt_event_refs: &Vec<String>,
    finalized_at_utc: &str,
    basis: &Option<String>,
    field_sources: Vec<CharterFieldSource>,
    normalized_content: Vec<u8>,
) -> (r: Result<CharterCandidateBundle, CharterIntakeError>)
    requires
        order.len() == 16,
        forall|k: int|
            0 <= k < 16 ==> (#[trigger] order@[k]) < coverage.len() && coverage@[order@[k] as int].coverage_id@
                == coverage_order()[k],
    ensures
        r matches Ok(b) ==> {
            &&& intake_built_from(
                b.intake,
                profile_ref@,
                profile_fingerprint@,
                mode,
                coverage@,
                order@,
                *consumer,
                string_views(prompt_event_refs@),
                finalized_at_utc@,
                opt_text(*basis),
            )
            &&& json_fingerprint(intake_identity_json(b.intake)) == Some(b.intake.record_fingerprint@)
            &&& b.intake.intake_record_id@ == "intake_"@ + fingerprint_hex(b.intake.record_fingerprint@)
            &&& candidate_built_from(
                b.candidate,
                profile_ref@,
                profile_fingerprint@,
                opt_text(*basis),
                intake_ref_of(b.intake.record_fingerprint@),
                normalized_content@,
                field_source_views(field_sources@),
            )
            &&& json_fingerprint(candidate_identity_json(b.candidate)) == Some(b.candidate.candidate_fingerprint@)
            &&& b.candidate.candidate_id@ == "candidate_"@ + fingerprint_hex(b.candidate.candidate_fingerprint@)
            &&& b.normalized_content@ == normalized_content@
        },
        r matches Err(e) ==> e.error_kind() == CharterIntakeErrorKind::FingerprintFailed,
{
    let intake = match seal_intake(
        profile_ref,
        profile_fingerprint,
        mode,
        coverage,
        order,
        consumer,
        prompt_event_refs,
        finalized_at_utc,
        basis,
    ) {
        Ok(i) => i,
        Err(e) => {
            return Err(e);
        },
    };
    let candidate = match seal_candidate(
        profile_ref,
        profile_fingerprint,
        basis,
        &intake.record_fingerprint,
        field_sources,
        &normalized_content,
    ) {
        Ok(c) => c,
        Err(e) => {
            return Err(e);
        },
    };
    Ok(CharterCandidateBundle { intake, candidate, normalized_content })
}

/// An intake envelope, without its content: the acquisition mode, the coverage submissions,
/// the consumer, the prompt events, the finalization time and the expected current Charter.
#[derive(Clone, Debug, PartialEq, Eq)]
pub struct CharterIntakeEnvelope {
    pub mode: CharterAcquisitionMode,
    pub coverage: Vec<CharterCoverageSubmission>,
    pub consumer: CharterIntakeConsumer,
    pub prompt_event_refs: Vec<String>,
    pub finalized_at_utc: String,
    pub expected_current_fingerprint: Option<String>,
}

/// `order` arranges `coverage` in coverage order.
pub open spec fn arranges(coverage: Seq<CharterCoverageSubmission>, order: Seq<usize>) -> bool {
    order.len() == 16 && forall|k: int|
        0 <= k < 16 ==> (#[trigger] order[k]) < coverage.len() && coverage[order[k] as int].coverage_id@
            == coverage_order()[k]
}

pub open spec fn opt_str(o: Option<&str>) -> Option<Seq<char>> {
    match o {
        Some(s) => Some(s@),
        None => None,
    }
}

proof fn lemma_coverage_refusals_from(c: Seq<CharterCoverageSubmission>, i: int)
    ensures
        coverage_error_from(c, i) != Some(CharterIntakeErrorKind::FingerprintFailed),
        coverage_error_from(c, i) != Some(CharterIntakeErrorKind::CandidateContentInvalid),
        coverage_error_from(c, i) != Some(CharterIntakeErrorKind::BasisMismatch),
    decreases c.len() - i,
{
    if 0 <= i < c.len() {
        lemma_coverage_refusals_from(c, i + 1);
    }
}

/// Evaluates a Charter intake into its intake record, candidate and normalized content.
/// `content_leaves` are the pointer paths of the leaves of the envelope's content, and
/// `normalized_content` its canonical bytes where it decodes as a canonical Charter. The basis
/// is checked first, then the coverage submissions, the content, the audit fields and the
/// ownership of every leaf.
pub fn evaluate_charter_intake(
    profile_ref: &str,
    profile_fingerprint: &str,
    envelope: &CharterIntakeEnvelope,
    content_leaves: &Vec<String>,
    normalized_content: Option<Vec<u8>>,
    observed_current_fingerprint: Option<&str>,
) -> (r: Result<CharterCandidateBundle, CharterIntakeError>)
    ensures
        ({
            let basis = basis_outcome(opt_text(envelope.expected_current_fingerprint), opt_str(observed_current_fingerprint));
            let coverage_refusal = coverage_error(envelope.coverage@);
            let audit = audit_fields_valid(envelope.consumer, envelope.finalized_at_utc@);
            let owned = leaves_owned(string_views(content_leaves@));
            &&& basis is Err ==> (r matches Err(e) && e.error_kind() == CharterIntakeErrorKind::BasisMismatch)
            &&& (basis is Ok && coverage_refusal is Some) ==> (r matches Err(e) && Some(e.error_kind())
                == coverage_refusal)
            &&& (basis is Ok && coverage_refusal is None && normalized_content is None) ==> (r matches Err(e)
                && e.error_kind() == CharterIntakeErrorKind::CandidateContentInvalid)
            &&& (basis is Ok && coverage_refusal is None && normalized_content is Some && !(audit && owned))
                ==> (r matches Err(e) && e.error_kind() == CharterIntakeErrorKind::CoverageMismatch)
            &&& (r matches Err(e) && e.error_kind() == CharterIntakeErrorKind::FingerprintFailed) ==> (basis is Ok
                && coverage_refusal is None && normalized_content is Some && audit && owned)
            &&& (envelope.expected_current_fingerprint matches Some(e) && observed_current_fingerprint matches Some(o)
                && e@ != o@) ==> (r matches Err(x) && x.error_kind() == CharterIntakeErrorKind::BasisMismatch
                && x.error_detail() == "expected-current does not match observed canonical Charter bytes"@)
            &&& r matches Ok(b) ==> opt_text(b.candidate.basis_artifact_fingerprint) == opt_str(observed_current_fingerprint)
                && opt_text(b.intake.basis_artifact_fingerprint) == opt_str(observed_current_fingerprint)
                && opt_text(envelope.expected_current_fingerprint) == opt_str(observed_current_fingerprint)
            &&& r matches Ok(b) ==> {
                &&& basis matches Ok(bv)
                &&& coverage_refusal is None
                &&& normalized_content matches Some(n) && b.normalized_content@ == n@
                &&& audit && owned
                &&& exists|order: Seq<usize>|
                    {
                        &&& #[trigger] arranges(envelope.coverage@, order)
                        &&& intake_built_from(
                            b.intake,
                            profile_ref@,
                            profile_fingerprint@,
                            envelope.mode,
                            envelope.coverage@,
                            order,
                            envelope.consumer,
                            string_views(envelope.prompt_event_refs@),
                            envelope.finalized_at_utc@,
                            bv,
                        )
                        &&& field_source_views(b.candidate.field_sources@).to_multiset() == leaf_sources(
                            string_views(content_leaves@),
                            envelope.coverage@,
                            order,
                        ).to_multiset()
                    }
                &&& sources_by_path(field_source_views(b.candidate.field_sources@))
                &&& json_fingerprint(intake_identity_json(b.intake)) == Some(b.intake.record_fingerprint@)
                &&& b.intake.intake_record_id@ == "intake_"@ + fingerprint_hex(b.intake.record_fingerprint@)
                &&& candidate_built_from(
                    b.candidate,
                    profile_ref@,
                    profile_fingerprint@,
                    bv,
                    intake_ref_of(b.intake.record_fingerprint@),
                    b.normalized_content@,
                    field_source_views(b.candidate.field_sources@),
                )
                &&& json_fingerprint(candidate_identity_json(b.candidate)) == Some(b.candidate.candidate_fingerprint@)
                &&& b.candidate.candidate_id@ == "candidate_"@ + fingerprint_hex(b.candidate.candidate_fingerprint@)
            }
        }),
{
    let expected: Option<&str> = match &envelope.expected_current_fingerprint {
        Some(e) => Some(e.as_str()),
        None => None,
    };
    assert(opt_str(expected) == opt_text(envelope.expected_current_fingerprint));
    let basis = match validate_basis(expected, observed_current_fingerprint) {
        Ok(b) => b,
        Err(e) => {
            return Err(e);
        },
    };
    proof {
        lemma_coverage_refusals_from(envelope.coverage@, 0);
    }
    let order = match validate_and_order_coverage(envelope.coverage.as_slice()) {
        Ok(o) => o,
        Err(e) => {
            return Err(e);
        },
    };
    let content = match normalized_content {
        Some(c) => c,
        None => {
            return Err(
                CharterIntakeError::new(
                    CharterIntakeErrorKind::CandidateContentInvalid,
                    "candidate content could not be closed-decoded as CanonicalCharter",
                ),
            );
        },
    };
    match validate_audit_fields(&envelope.consumer, envelope.finalized_at_utc.as_str()) {
        Ok(()) => {},
        Err(e) => {
            return Err(e);
        },
    }
    let sources = match candidate_field_sources(content_leaves, envelope.coverage.as_slice(), &order) {
        Ok(s) => s,
        Err(e) => {
            return Err(e);
        },
    };
    let ghost source_views = field_source_views(sources@);
    let bundle = match assemble_charter_candidate(
        profile_ref,
        profile_fingerprint,
        envelope.mode,
        envelope.coverage.as_slice(),
        &order,
        &envelope.consumer,
        &envelope.prompt_event_refs,
        envelope.finalized_at_utc.as_str(),
        &basis,
        sources,
        content,
    ) {
        Ok(b) => b,
        Err(e) => {
            return Err(e);
        },
    };
    assert(arranges(envelope.coverage@, order@));
    Ok(bundle)
}

} // verus!
