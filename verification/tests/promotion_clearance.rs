use engine::charter_intake::{CharterCoverageResult, CharterIntakeSourceKind};
use engine::charter_promotion_workflow::{
    build_promotion_record, promotion_prior_state, promotion_record_bytes, promotion_ref,
    validate_lifecycle_clearance, CharterPromotionWorkflowErrorKindV1, PromotionPriorStateV1,
    PromotionRecordInputsV1,
};
use engine::{
    CharterLifecycleAuthorityV1, CharterLifecycleEventKind, CharterLifecycleObservation,
    CharterLifecycleState,
};

fn fingerprint(fill: char) -> String {
    format!("sha256:{}", fill.to_string().repeat(64))
}

fn coverage(id: &str, evaluation: &str) -> CharterCoverageResult {
    CharterCoverageResult {
        coverage_id: id.to_owned(),
        applicability: "applicable".to_owned(),
        source_kind: CharterIntakeSourceKind::UserDeclaration,
        value_ref: "value".to_owned(),
        evidence_refs: Vec::new(),
        confidence: "high".to_owned(),
        freshness: None,
        sensitivity: "internal".to_owned(),
        evaluation: evaluation.to_owned(),
        contradiction_refs: Vec::new(),
        waiver_ref: None,
    }
}

fn head(active: bool) -> CharterLifecycleAuthorityV1 {
    let observations = if active {
        vec![CharterLifecycleObservation {
            event_fingerprint: fingerprint('1'),
            basis_artifact_fingerprint: fingerprint('c'),
            kind: CharterLifecycleEventKind::ProductionPostureChanged,
            evidence_ref: "evidence".to_owned(),
            evidence_fingerprint: fingerprint('e'),
            reopened_coverage_ids: vec!["operational_reality.production_state".to_owned()],
        }]
    } else {
        Vec::new()
    };
    CharterLifecycleAuthorityV1 {
        canonical_fingerprint: fingerprint('c'),
        lifecycle_transition_ref: "lifecycle-transitions/t.json".to_owned(),
        lifecycle_transition_fingerprint: fingerprint('7'),
        state: if active { CharterLifecycleState::ReassessmentRequired } else { CharterLifecycleState::Current },
        state_fingerprint: fingerprint('5'),
        active_observation_refs: Vec::new(),
        active_observation_fingerprints: Vec::new(),
        active_observations: observations,
        reopened_coverage_ids: if active {
            vec!["operational_reality.production_state".to_owned()]
        } else {
            Vec::new()
        },
    }
}

#[test]
fn a_quiet_head_needs_no_clearance() {
    assert!(validate_lifecycle_clearance(&head(false), &Vec::new(), &fingerprint('c'), &fingerprint('c')).is_ok());
}

#[test]
fn an_active_head_is_cleared_by_changed_bytes_and_settled_coverage() {
    let settled = vec![coverage("operational_reality.production_state", "satisfied")];
    assert!(validate_lifecycle_clearance(&head(true), &settled, &fingerprint('d'), &fingerprint('c')).is_ok());
    let unchanged = validate_lifecycle_clearance(&head(true), &settled, &fingerprint('c'), &fingerprint('c'));
    assert_eq!(unchanged.unwrap_err().kind(), CharterPromotionWorkflowErrorKindV1::LifecycleClearanceIncomplete);
    let open = vec![coverage("operational_reality.production_state", "open")];
    assert!(validate_lifecycle_clearance(&head(true), &open, &fingerprint('d'), &fingerprint('c')).is_err());
    let mut unaddressed = head(true);
    unaddressed.reopened_coverage_ids.clear();
    assert!(validate_lifecycle_clearance(&unaddressed, &settled, &fingerprint('d'), &fingerprint('c')).is_err());
}

#[test]
fn the_prior_state_of_a_promotion() {
    assert_eq!(promotion_prior_state(None, &None, &Vec::new(), &fingerprint('d')).unwrap(), PromotionPriorStateV1::Initial);
    let settled = vec![coverage("operational_reality.production_state", "waived")];
    assert_eq!(
        promotion_prior_state(Some(&fingerprint('c')), &Some(head(true)), &settled, &fingerprint('d')).unwrap(),
        PromotionPriorStateV1::Retained {
            state: CharterLifecycleState::ReassessmentRequired,
            state_fingerprint: fingerprint('5'),
        }
    );
    let inconsistent = promotion_prior_state(Some(&fingerprint('c')), &None, &settled, &fingerprint('d'));
    assert_eq!(inconsistent.unwrap_err().kind(), CharterPromotionWorkflowErrorKindV1::LifecycleClearanceIncomplete);
    assert!(promotion_prior_state(None, &Some(head(false)), &settled, &fingerprint('d')).is_err());
    assert!(promotion_prior_state(Some(&fingerprint('a')), &Some(head(false)), &settled, &fingerprint('d')).is_err());
}

#[test]
fn a_promotion_record_is_identified_by_its_preimage() {
    let inputs = PromotionRecordInputsV1 {
        candidate_ref: "candidates/candidate_1.json".to_owned(),
        candidate_fingerprint: fingerprint('1'),
        expected_current_fingerprint: None,
        approval_refs: vec!["approvals/approval_2.json".to_owned()],
        validation_result_ref: "lifecycle-validation-results/r.json".to_owned(),
        authorized_by_ref: "actors/charter-owner".to_owned(),
        canonical_fingerprint: fingerprint('c'),
        registry_state_ref: "registry/state.json".to_owned(),
        registry_state_fingerprint: fingerprint('3'),
        registry_head_ref: "registry/head.json".to_owned(),
        registry_head_fingerprint: fingerprint('4'),
    };
    let record = build_promotion_record(&inputs).unwrap();
    assert_eq!(record.schema_version, "1.1");
    assert_eq!(record.decision, "approved");
    assert_eq!(record.resolved_definitions.len(), 13);
    assert_eq!(record.validation_result_refs, vec!["lifecycle-validation-results/r.json".to_owned()]);
    let hex = record.promotion_fingerprint.strip_prefix("sha256:").unwrap().to_owned();
    assert_eq!(record.promotion_id, format!("promotion_{hex}"));
    assert_eq!(promotion_ref(&record.promotion_id), format!("promotions/promotion_{hex}.json"));
    let bytes = promotion_record_bytes(&record).unwrap();
    let text = String::from_utf8(bytes).unwrap();
    assert!(text.starts_with("{\"approval_refs\":[\"approvals/approval_2.json\"],"));
    assert!(text.contains(&format!("\"promotion_id\":\"promotion_{hex}\"")));
    let mut again = inputs.clone();
    again.authorized_by_ref = "actors/someone-else".to_owned();
    let other = build_promotion_record(&again).unwrap();
    assert_ne!(other.promotion_fingerprint, record.promotion_fingerprint);
}
