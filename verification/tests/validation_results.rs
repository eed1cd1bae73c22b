use engine::charter_lifecycle_validation::{
    inventory_aggregate_after, inventory_entry_count_within_bound, inventory_file_length_within_bound,
    inventory_filename_length_within_bound, owned_candidate_filename, owned_result_filename,
    MAX_INVENTORY_AGGREGATE_BYTES, MAX_INVENTORY_ENTRIES, MAX_INVENTORY_FILENAME_BYTES,
    MAX_INVENTORY_FILE_BYTES,
};
use engine::charter_intake::{CharterCoverageResult, CharterIntakeSourceKind};
use engine::charter_lifecycle_validation::{
    build_result, encode_result, pinned_definition_fingerprint, result_binding, result_ref,
    validate_bound_result_bytes, validate_result_authorities, validate_result_bytes,
    validate_result_record, CharterLifecycleValidationResultV10, CommittedCharterAuthorityV1,
    LifecycleValidationErrorKindV1, LifecycleValidationErrorV1,
    RetainedLifecycleAuthorityV1, ValidationCandidateV1,
};
use engine::{CharterLifecycleAuthorityV1, CharterLifecycleState};
use sha2::{Digest, Sha256};

const PROFILE_REF: &str = "handbook.profile.shipped-root@1.1.0";
const PROFILE_FINGERPRINT: &str =
    "sha256:6a7b41befa77b999b9ee20f513636051726a8401a81bf2f369501e8f3dd4fa74";

fn fingerprint(fill: char) -> String {
    format!("sha256:{}", fill.to_string().repeat(64))
}

fn coverage(id: &str, evaluation: &str) -> CharterCoverageResult {
    CharterCoverageResult {
        coverage_id: id.to_owned(),
        applicability: "applicable".to_owned(),
        source_kind: CharterIntakeSourceKind::UserDeclaration,
        value_ref: "value".to_owned(),
        evidence_refs: Vec::new(),
        confidence: "high".to_owned(),
        freshness: None,
        sensitivity: "internal".to_owned(),
        evaluation: evaluation.to_owned(),
        contradiction_refs: Vec::new(),
        waiver_ref: None,
    }
}

fn candidate(basis: Option<String>, coverage_results: Vec<CharterCoverageResult>) -> ValidationCandidateV1 {
    ValidationCandidateV1 {
        candidate_subject_fingerprint: fingerprint('1'),
        intake_record_ref: "intake-records/intake_1.json".to_owned(),
        normalized_content_ref: "candidate-content/charter_1.yaml".to_owned(),
        basis_artifact_fingerprint: basis,
        intake_record_fingerprint: fingerprint('2'),
        coverage_results,
        normalized_content: b"project: example\n".to_vec(),
    }
}

fn committed() -> CommittedCharterAuthorityV1 {
    CommittedCharterAuthorityV1 { canonical_bytes: b"charter".to_vec(), canonical_fingerprint: fingerprint('c') }
}

fn lifecycle_head(reopened: Vec<&str>) -> CharterLifecycleAuthorityV1 {
    CharterLifecycleAuthorityV1 {
        canonical_fingerprint: fingerprint('c'),
        lifecycle_transition_ref: "lifecycle-transitions/lifecycle-transition_1.json".to_owned(),
        lifecycle_transition_fingerprint: fingerprint('7'),
        state: CharterLifecycleState::ReassessmentRequired,
        state_fingerprint: fingerprint('5'),
        active_observation_refs: vec!["lifecycle-observations/lifecycle-observation_1.json".to_owned()],
        active_observation_fingerprints: vec![fingerprint('8')],
        active_observations: Vec::new(),
        reopened_coverage_ids: reopened.into_iter().map(str::to_owned).collect(),
    }
}

fn retained(reopened: Vec<&str>) -> RetainedLifecycleAuthorityV1 {
    RetainedLifecycleAuthorityV1 {
        canonical_bytes: Some(b"charter".to_vec()),
        authority: Some(lifecycle_head(reopened)),
    }
}

fn absent() -> RetainedLifecycleAuthorityV1 {
    RetainedLifecycleAuthorityV1 { canonical_bytes: None, authority: None }
}

#[test]
fn a_first_result_has_the_absent_lifecycle_closure() {
    let result = build_result(PROFILE_REF, PROFILE_FINGERPRINT, &candidate(None, Vec::new()), &None, &absent())
        .unwrap();
    assert_eq!(result.lifecycle_state, "absent");
    assert_eq!(result.lifecycle_head_ref, None);
    assert_eq!(result.basis_artifact_fingerprint, None);
    assert!(result.active_observations.is_empty());
    assert_eq!(result.validated_at_utc, "");
    let digest: String = Sha256::digest(b"project: example\n").iter().map(|b| format!("{b:02x}")).collect();
    assert_eq!(result.normalized_content_fingerprint, format!("sha256:{digest}"));
    let hex = result.validation_result_fingerprint.strip_prefix("sha256:").unwrap().to_owned();
    assert_eq!(result.validation_result_id, format!("lifecycle-validation-result_{hex}"));
    assert_eq!(result.resolved_definitions.len(), 13);
}

#[test]
fn a_stamped_result_validates_under_its_own_reference() {
    let mut result = build_result(
        PROFILE_REF,
        PROFILE_FINGERPRINT,
        &candidate(Some(fingerprint('c')), vec![coverage("risk.domains", "satisfied")]),
        &Some(committed()),
        &retained(vec!["risk.domains"]),
    )
    .unwrap();
    result.validated_at_utc = "2024-01-01T00:00:00Z".to_owned();
    let reference = result_ref(&result.validation_result_fingerprint);
    assert!(validate_result_record(&result, Some(&reference)).is_ok());
    assert!(validate_result_record(&result, Some("lifecycle-validation-results/other.json")).is_err());
    result.validation_status = "failed".to_owned();
    assert_eq!(
        validate_result_record(&result, None).unwrap_err().kind(),
        LifecycleValidationErrorKindV1::InvalidResult
    );
}

#[test]
fn reopened_coverage_is_bound_in_coverage_order() {
    let result = build_result(
        PROFILE_REF,
        PROFILE_FINGERPRINT,
        &candidate(
            Some(fingerprint('c')),
            vec![coverage("risk.domains", "waived"), coverage("delivery.constraints", "satisfied")],
        ),
        &Some(committed()),
        &retained(vec!["risk.domains", "delivery.constraints"]),
    )
    .unwrap();
    assert_eq!(result.reopened_coverage_ids, vec!["delivery.constraints", "risk.domains"]);
    assert_eq!(result.lifecycle_state, "reassessment_required");
    assert_eq!(result.lifecycle_state_fingerprint, Some(fingerprint('5')));
    assert_eq!(result.active_observations[0].observation_fingerprint, fingerprint('8'));
}

#[test]
fn authority_refusals_of_building_a_result() {
    let kind = |r: Result<CharterLifecycleValidationResultV10, LifecycleValidationErrorV1>| match r {
        Ok(_) => panic!("expected a refusal"),
        Err(e) => e.kind(),
    };
    let stale = build_result(PROFILE_REF, PROFILE_FINGERPRINT, &candidate(Some(fingerprint('d')), Vec::new()), &Some(committed()), &retained(Vec::new()));
    assert_eq!(kind(stale), LifecycleValidationErrorKindV1::AuthorityMismatch);
    let mut disagreeing = retained(Vec::new());
    disagreeing.canonical_bytes = Some(b"other".to_vec());
    let split = build_result(PROFILE_REF, PROFILE_FINGERPRINT, &candidate(Some(fingerprint('c')), Vec::new()), &Some(committed()), &disagreeing);
    assert_eq!(kind(split), LifecycleValidationErrorKindV1::AuthorityMismatch);
    let duplicated = build_result(PROFILE_REF, PROFILE_FINGERPRINT, &candidate(Some(fingerprint('c')), vec![coverage("risk.domains", "satisfied")]), &Some(committed()), &retained(vec!["risk.domains", "risk.domains"]));
    assert_eq!(kind(duplicated), LifecycleValidationErrorKindV1::AuthorityMismatch);
    let unknown = build_result(PROFILE_REF, PROFILE_FINGERPRINT, &candidate(Some(fingerprint('c')), vec![coverage("weather.today", "satisfied")]), &Some(committed()), &retained(vec!["weather.today"]));
    assert_eq!(kind(unknown), LifecycleValidationErrorKindV1::AuthorityMismatch);
    let unsettled = build_result(PROFILE_REF, PROFILE_FINGERPRINT, &candidate(Some(fingerprint('c')), vec![coverage("risk.domains", "open")]), &Some(committed()), &retained(vec!["risk.domains"]));
    let error = unsettled.unwrap_err();
    assert_eq!(error.kind(), LifecycleValidationErrorKindV1::AuthorityMismatch);
    assert_eq!(error.detail(), "reopened lifecycle coverage `risk.domains` is not satisfied by the intake");
}

#[test]
fn a_built_result_binds_the_authorities_it_was_built_against() {
    let candidate = candidate(Some(fingerprint('c')), vec![coverage("risk.domains", "satisfied")]);
    let lifecycle = retained(vec!["risk.domains"]);
    let result = build_result(PROFILE_REF, PROFILE_FINGERPRINT, &candidate, &Some(committed()), &lifecycle).unwrap();
    assert!(validate_result_authorities(&result, &Some(fingerprint('c')), &Some(committed()), &lifecycle, &candidate.coverage_results).is_ok());
    let moved = retained(vec![]);
    assert_eq!(
        validate_result_authorities(&result, &Some(fingerprint('c')), &Some(committed()), &moved, &candidate.coverage_results).unwrap_err().kind(),
        LifecycleValidationErrorKindV1::AuthorityMismatch
    );
    assert!(validate_result_authorities(&result, &None, &Some(committed()), &lifecycle, &candidate.coverage_results).is_err());
}

#[test]
fn pinned_definitions_resolve_by_reference() {
    assert_eq!(
        pinned_definition_fingerprint("handbook.lifecycle.constitutional-review-lock@1.0.0"),
        Some("sha256:88caafb9caaf137647c42a91cd2762ac0871e0a20e2a1844c2c0076d5fb43cc3".to_owned())
    );
    assert_eq!(pinned_definition_fingerprint("handbook.unknown@1.0.0"), None);
}

#[test]
fn encoded_result_bytes_round_trip_through_their_binding() {
    let mut result = build_result(
        PROFILE_REF,
        PROFILE_FINGERPRINT,
        &candidate(Some(fingerprint('c')), vec![coverage("risk.domains", "satisfied")]),
        &Some(committed()),
        &retained(vec!["risk.domains"]),
    )
    .unwrap();
    result.validated_at_utc = "2024-01-01T00:00:00Z".to_owned();
    let bytes = encode_result(&result).unwrap();
    assert_eq!(*bytes.last().unwrap(), b'\n');
    assert_eq!(bytes[0], b'{');
    assert!(validate_result_bytes(&bytes, None, &result).is_ok());
    let mut unframed = bytes.clone();
    unframed.pop();
    assert_eq!(
        validate_result_bytes(&unframed, None, &result).unwrap_err().kind(),
        LifecycleValidationErrorKindV1::InvalidResult
    );
    let reference = result_ref(&result.validation_result_fingerprint);
    let binding = result_binding(&reference, &result, &bytes).unwrap();
    assert_eq!(binding.result_byte_length, bytes.len());
    let digest: String = Sha256::digest(&bytes).iter().map(|b| format!("{b:02x}")).collect();
    assert_eq!(binding.result_document_sha256, format!("sha256:{digest}"));
    assert!(validate_bound_result_bytes(&bytes, &binding, &fingerprint('1'), &result).is_ok());
    assert_eq!(
        validate_bound_result_bytes(&bytes, &binding, &fingerprint('2'), &result).unwrap_err().kind(),
        LifecycleValidationErrorKindV1::AuthorityMismatch
    );
    let mut altered = bytes.clone();
    altered.insert(1, b' ');
    assert_eq!(
        validate_bound_result_bytes(&altered, &binding, &fingerprint('1'), &result).unwrap_err().kind(),
        LifecycleValidationErrorKindV1::ExistingBytesMismatch
    );
    assert!(result_binding("lifecycle-validation-results/other.json", &result, &bytes).is_err());
}

#[test]
fn inventory_limit_and_owned_name_boundaries_match_the_normative_vectors() {
    assert_eq!(MAX_INVENTORY_ENTRIES, 4096);
    assert_eq!(MAX_INVENTORY_FILE_BYTES, 262_144);
    assert_eq!(MAX_INVENTORY_AGGREGATE_BYTES, 1_073_741_824);
    assert_eq!(MAX_INVENTORY_FILENAME_BYTES, 128);

    assert!(inventory_entry_count_within_bound(4095));
    assert!(inventory_entry_count_within_bound(4096));
    assert!(!inventory_entry_count_within_bound(4097));
    assert!(inventory_file_length_within_bound(262_143));
    assert!(inventory_file_length_within_bound(262_144));
    assert!(!inventory_file_length_within_bound(262_145));
    assert_eq!(inventory_aggregate_after(0, 1_073_741_824).unwrap(), 1_073_741_824);
    assert!(inventory_aggregate_after(0, 1_073_741_825).is_err());
    assert!(inventory_aggregate_after(u64::MAX, 1).is_err());
    assert!(inventory_filename_length_within_bound(127));
    assert!(inventory_filename_length_within_bound(128));
    assert!(!inventory_filename_length_within_bound(129));

    let candidate_name = format!("candidate_{}.json", "0".repeat(64));
    let result_name = format!("lifecycle-validation-result_{}.json", "0".repeat(64));
    assert_eq!(candidate_name.len(), 79);
    assert_eq!(result_name.len(), 97);
    assert!(owned_candidate_filename(&candidate_name));
    assert!(owned_result_filename(&result_name));
    assert!(!owned_candidate_filename(&format!("candidate_{}.json", "0".repeat(63))));
    assert!(!owned_result_filename(&format!("lifecycle-validation-result_{}.json", "0".repeat(65))));
}
