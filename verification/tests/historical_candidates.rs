use engine::charter_lifecycle_validation::{LifecycleValidationErrorKindV1, LifecycleValidationErrorV1};
use engine::historical_candidate::{
    classify_author_replay, inventory_filename_matches, validate_historical_candidate,
    AuthorReplayDecisionV1, HistoricalCandidateV1, HistoricalFieldSourceV1,
    InventoryCandidateBindingV1,
};
use sha2::{Digest, Sha256};

const PROFILE_FINGERPRINT: &str =
    "sha256:6a7b41befa77b999b9ee20f513636051726a8401a81bf2f369501e8f3dd4fa74";

fn hex_digest(bytes: &[u8]) -> String {
    Sha256::digest(bytes).iter().map(|b| format!("{b:02x}")).collect()
}

fn names() -> Vec<String> {
    [
        "schema_id",
        "schema_version",
        "candidate_id",
        "intake_record_ref",
        "target_kind_ref",
        "target_instance_id",
        "target_schema_ref",
        "profile_ref",
        "resolved_profile_fingerprint",
        "basis_artifact_fingerprint",
        "normalized_content_ref",
        "field_sources",
        "validation_result_refs",
        "unresolved_coverage_ids",
        "promotion_eligibility",
        "required_approval_policy_ref",
        "candidate_fingerprint",
    ]
    .iter()
    .map(|s| s.to_string())
    .collect()
}

fn candidate_v11() -> HistoricalCandidateV1 {
    let intake = format!("intake-records/intake_{}.json", "1".repeat(64));
    let content = format!("candidate-content/charter_{}.yaml", "2".repeat(64));
    let result = format!(
        "lifecycle-validation-results/lifecycle-validation-result_{}.json",
        "3".repeat(64)
    );
    let preimage = format!(
        "{{\"basis_artifact_fingerprint\":null,\"field_sources\":[{{\"coverage_id\":\"project_shape.definition\",\
         \"source_kind\":\"user_declaration\",\"target_path\":\"/project/name\"}}],\
         \"intake_record_ref\":\"{intake}\",\"normalized_content_ref\":\"{content}\",\
         \"profile_ref\":\"handbook.profile.shipped-root@1.1.0\",\"promotion_eligibility\":\"requires_approval\",\
         \"required_approval_policy_ref\":\"handbook.approval.constitutional-candidate@1.0.0\",\
         \"resolved_profile_fingerprint\":\"{PROFILE_FINGERPRINT}\",\"schema_id\":\"handbook.artifact-candidate\",\
         \"schema_version\":\"1.1\",\"target_instance_id\":\"project_authority\",\
         \"target_kind_ref\":\"handbook.artifact-kind.project-authority@1.1.0\",\
         \"target_schema_ref\":\"handbook.schemas.artifacts.project-authority@1.1.0\",\
         \"unresolved_coverage_ids\":[],\"validation_result_refs\":[\"{result}\"]}}"
    );
    let hex = hex_digest(preimage.as_bytes());
    HistoricalCandidateV1 {
        field_names: names(),
        schema_id: "handbook.artifact-candidate".to_owned(),
        schema_version: "1.1".to_owned(),
        candidate_id: format!("candidate_{hex}"),
        intake_record_ref: intake,
        target_kind_ref: "handbook.artifact-kind.project-authority@1.1.0".to_owned(),
        target_instance_id: "project_authority".to_owned(),
        target_schema_ref: "handbook.schemas.artifacts.project-authority@1.1.0".to_owned(),
        profile_ref: "handbook.profile.shipped-root@1.1.0".to_owned(),
        resolved_profile_fingerprint: PROFILE_FINGERPRINT.to_owned(),
        basis_artifact_fingerprint: None,
        normalized_content_ref: content,
        field_sources: vec![HistoricalFieldSourceV1 {
            target_path: "/project/name".to_owned(),
            coverage_id: "project_shape.definition".to_owned(),
            source_kind: "user_declaration".to_owned(),
        }],
        validation_result_refs: vec![result],
        unresolved_coverage_ids: Vec::new(),
        promotion_eligibility: "requires_approval".to_owned(),
        required_approval_policy_ref: "handbook.approval.constitutional-candidate@1.0.0".to_owned(),
        candidate_subject_fingerprint: String::new(),
        candidate_fingerprint: format!("sha256:{hex}"),
    }
}

#[test]
fn a_historical_candidate_recomputes_its_identity() {
    let candidate = candidate_v11();
    let id = validate_historical_candidate(&candidate, "1.1").unwrap();
    assert_eq!(id, candidate.candidate_id);
    assert!(inventory_filename_matches(&format!("{id}.json"), &id));
    assert!(!inventory_filename_matches(&id, &id));
}

#[test]
fn historical_identity_mismatches_are_authority_refusals() {
    let mut renamed = candidate_v11();
    renamed.candidate_id = format!("candidate_{}", "0".repeat(64));
    assert_eq!(
        validate_historical_candidate(&renamed, "1.1").unwrap_err().kind(),
        LifecycleValidationErrorKindV1::AuthorityMismatch
    );
    let mut edited = candidate_v11();
    edited.unresolved_coverage_ids = vec!["risk.domains".to_owned()];
    assert_eq!(
        validate_historical_candidate(&edited, "1.1").unwrap_err().kind(),
        LifecycleValidationErrorKindV1::AuthorityMismatch
    );
}

#[test]
fn historical_shape_failures_are_invalid_results() {
    let invalid = |c: &HistoricalCandidateV1, v: &str| {
        validate_historical_candidate(c, v).unwrap_err().kind() == LifecycleValidationErrorKindV1::InvalidResult
    };
    assert!(invalid(&candidate_v11(), "1.3"));
    assert!(invalid(&candidate_v11(), "1.0"));
    let mut open = candidate_v11();
    open.field_names.pop();
    open.field_names.push("extensions".to_owned());
    assert!(invalid(&open, "1.1"));
    let mut eager = candidate_v11();
    eager.promotion_eligibility = "eligible_without_approval".to_owned();
    assert!(invalid(&eager, "1.1"));
    let mut doubled = candidate_v11();
    doubled.field_sources.push(doubled.field_sources[0].clone());
    assert!(invalid(&doubled, "1.1"));
    let mut unsafe_path = candidate_v11();
    unsafe_path.field_sources[0].target_path = "project/name".to_owned();
    assert!(invalid(&unsafe_path, "1.1"));
    let mut legacy_result = candidate_v11();
    legacy_result.validation_result_refs = vec!["legacy_result".to_owned()];
    assert_eq!(
        validate_historical_candidate(&legacy_result, "1.1").unwrap_err().kind(),
        LifecycleValidationErrorKindV1::AuthorityMismatch
    );
    let mut bad_basis = candidate_v11();
    bad_basis.basis_artifact_fingerprint = Some("sha256:XYZ".to_owned());
    assert!(invalid(&bad_basis, "1.1"));
}

fn binding(subject: char, result: char) -> InventoryCandidateBindingV1 {
    InventoryCandidateBindingV1 {
        subject_fingerprint: format!("sha256:{}", subject.to_string().repeat(64)),
        result_ref: format!("lifecycle-validation-results/r_{result}.json"),
        result_fingerprint: format!("sha256:{}", result.to_string().repeat(64)),
    }
}

#[test]
fn author_replay_classification() {
    let subject = format!("sha256:{}", "a".repeat(64));
    let result_fp = format!("sha256:{}", "b".repeat(64));
    let result_ref = "lifecycle-validation-results/r_b.json".to_owned();
    let classify = |c: Vec<InventoryCandidateBindingV1>, stored: Vec<String>| {
        classify_author_replay(&c, &stored, &subject, &result_ref, &result_fp)
    };
    assert_eq!(classify(vec![binding('c', 'd')], vec![]).unwrap(), AuthorReplayDecisionV1::FirstAuthoring);
    assert_eq!(
        classify(vec![binding('c', 'd'), binding('a', 'b')], vec![result_ref.clone()]).unwrap(),
        AuthorReplayDecisionV1::Exact { candidate_index: 1 }
    );
    let refused = |r: Result<AuthorReplayDecisionV1, LifecycleValidationErrorV1>| {
        r.unwrap_err().kind() == LifecycleValidationErrorKindV1::AuthorityMismatch
    };
    assert!(refused(classify(vec![binding('a', 'd')], vec![])));
    assert!(refused(classify(vec![binding('c', 'b')], vec![])));
    assert!(refused(classify(vec![], vec![result_ref.clone()])));
    assert!(refused(classify(vec![binding('a', 'b')], vec![])));
    assert!(refused(classify(vec![binding('a', 'b'), binding('a', 'b')], vec![result_ref.clone()])));
}
