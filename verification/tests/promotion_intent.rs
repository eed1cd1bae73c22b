use sha2::{Digest, Sha256};
use engine::charter_lifecycle_validation::{definition_bindings, LifecycleActiveObservationV10};
use engine::promotion_records::intent_record_json_text;
use engine::charter_promotion_intent_v12::{
    parse_promotion_intent_v12, promotion_intent_fingerprint_v12, promotion_intent_marker_v12, validate_promotion_intent_v12,
    PromotionApprovalBindingV12, PromotionCandidateLineageV12, PromotionHumanAuthorityV12,
    PromotionIntentTargetV12, PromotionOutputRecordV12, PromotionOutputsV12,
    PromotionRecoveryV12, PromotionSelectedContractV12, PromotionTransactionIntentV12,
};

fn hex(fill: char) -> String {
    fill.to_string().repeat(64)
}

fn fingerprint(fill: char) -> String {
    format!("sha256:{}", hex(fill))
}

fn approval(class: &str, authority: &str, fill: char) -> PromotionApprovalBindingV12 {
    PromotionApprovalBindingV12 {
        approval_ref: format!("approvals/approval_{}.json", hex(fill)),
        approval_fingerprint: fingerprint(fill),
        approval_class: class.to_owned(),
        authority_ref: authority.to_owned(),
    }
}

fn create_intent() -> PromotionTransactionIntentV12 {
    let mut record = PromotionTransactionIntentV12 {
        schema_id: "handbook.charter-promotion-transaction-intent".to_owned(),
        schema_version: "1.2".to_owned(),
        transaction_id: "promotion-transaction_0001".to_owned(),
        promotion_id: format!("promotion_{}", hex('1')),
        mutation_mode: "create".to_owned(),
        target: PromotionIntentTargetV12 {
            target_instance_id: "project_authority".to_owned(),
            canonical_artifact_ref: ".handbook/project/charter.yaml".to_owned(),
            basis_artifact_fingerprint: None,
            observed_current_artifact_fingerprint: None,
        },
        candidate_lineage: PromotionCandidateLineageV12 {
            candidate_ref: format!("candidates/candidate_{}.json", hex('2')),
            candidate_fingerprint: fingerprint('2'),
            candidate_subject_fingerprint: fingerprint('3'),
            intake_record_ref: format!("intake-records/intake_{}.json", hex('4')),
            intake_record_fingerprint: fingerprint('4'),
            normalized_content_ref: format!("candidate-content/charter_{}.yaml", hex('5')),
            normalized_content_fingerprint: fingerprint('5'),
            validation_result_ref: format!(
                "lifecycle-validation-results/lifecycle-validation-result_{}.json",
                hex('6')
            ),
            validation_result_fingerprint: fingerprint('6'),
        },
        selected_contract: PromotionSelectedContractV12 {
            profile_ref: "handbook.profile.shipped-root@1.1.0".to_owned(),
            resolved_profile_fingerprint:
                "sha256:6a7b41befa77b999b9ee20f513636051726a8401a81bf2f369501e8f3dd4fa74".to_owned(),
            resolved_definitions: definition_bindings(),
            lifecycle_policy_ref: "handbook.lifecycle.constitutional-review-lock@1.0.0".to_owned(),
            lifecycle_policy_fingerprint:
                "sha256:88caafb9caaf137647c42a91cd2762ac0871e0a20e2a1844c2c0076d5fb43cc3".to_owned(),
            prior_lifecycle_head_ref: None,
            prior_lifecycle_head_fingerprint: None,
            prior_lifecycle_state: "absent".to_owned(),
            prior_lifecycle_state_fingerprint: None,
            active_observations: Vec::new(),
            reopened_coverage_ids: Vec::new(),
        },
        human_authority: PromotionHumanAuthorityV12 {
            approval_bindings: vec![
                approval("charter", "actors/a", '7'),
                approval("charter", "actors/b", '8'),
            ],
            approver_registry_state_ref: format!("registry-states/registry-state_{}.json", hex('9')),
            approver_registry_state_fingerprint: fingerprint('9'),
            registry_head_transition_ref: format!(
                "registry-transitions/registry-transition_{}.json",
                hex('a')
            ),
            registry_head_transition_fingerprint: fingerprint('a'),
        },
        outputs: PromotionOutputsV12 {
            new_canonical_fingerprint: fingerprint('b'),
            new_canonical_document_sha256: fingerprint('b'),
            new_canonical_byte_length: 12,
            promotion_record: PromotionOutputRecordV12 {
                record_ref: format!("promotions/promotion_{}.json", hex('1')),
                record_fingerprint: fingerprint('1'),
                document_sha256: fingerprint('c'),
                byte_length: 100,
            },
            lifecycle_transition: PromotionOutputRecordV12 {
                record_ref: format!(
                    "lifecycle-transitions/lifecycle-transition_{}.json",
                    hex('d')
                ),
                record_fingerprint: fingerprint('d'),
                document_sha256: fingerprint('e'),
                byte_length: 100,
            },
        },
        recovery: PromotionRecoveryV12 {
            old_canonical_status: "absent".to_owned(),
            old_canonical_fingerprint: None,
            old_canonical_document_sha256: None,
            old_canonical_byte_length: None,
        },
        intent_fingerprint: String::new(),
    };
    resign(&mut record);
    record
}

fn resign(record: &mut PromotionTransactionIntentV12) {
    record.intent_fingerprint = promotion_intent_fingerprint_v12(record).unwrap();
}

fn amend_intent() -> PromotionTransactionIntentV12 {
    let mut record = create_intent();
    record.mutation_mode = "amend".to_owned();
    record.target.basis_artifact_fingerprint = Some(fingerprint('f'));
    record.target.observed_current_artifact_fingerprint = Some(fingerprint('f'));
    record.selected_contract.prior_lifecycle_head_ref = Some(format!(
        "lifecycle-transitions/lifecycle-transition_{}.json",
        hex('0')
    ));
    record.selected_contract.prior_lifecycle_head_fingerprint = Some(fingerprint('0'));
    record.selected_contract.prior_lifecycle_state = "reassessment_required".to_owned();
    record.selected_contract.prior_lifecycle_state_fingerprint = Some(fingerprint('3'));
    record.selected_contract.active_observations = vec![LifecycleActiveObservationV10 {
        observation_ref: format!(
            "lifecycle-observations/lifecycle-observation_{}.json",
            hex('4')
        ),
        observation_fingerprint: fingerprint('4'),
    }];
    record.selected_contract.reopened_coverage_ids = vec![
        "operational_reality.production_state".to_owned(),
        "governance.exception_policy".to_owned(),
    ];
    record.recovery = PromotionRecoveryV12 {
        old_canonical_status: "present".to_owned(),
        old_canonical_fingerprint: Some(fingerprint('f')),
        old_canonical_document_sha256: Some(fingerprint('f')),
        old_canonical_byte_length: Some(10),
    };
    resign(&mut record);
    record
}

#[test]
fn a_signed_create_intent_is_valid() {
    assert!(validate_promotion_intent_v12(&create_intent()).is_ok());
}

#[test]
fn a_signed_amend_intent_is_valid() {
    assert!(validate_promotion_intent_v12(&amend_intent()).is_ok());
}

#[test]
fn an_unsigned_change_breaks_the_fingerprint() {
    let mut record = create_intent();
    record.transaction_id = "promotion-transaction_0002".to_owned();
    let error = validate_promotion_intent_v12(&record).unwrap_err();
    assert_eq!(
        error.detail(),
        "promotion intent fingerprint does not match its exact exclusion preimage"
    );
}

#[test]
fn reordered_or_duplicate_approval_pairs_refuse_even_when_intent_is_resigned() {
    let second = approval("Security approval", "Security lead", 'a');
    let mut ordered = amend_intent();
    ordered.human_authority.approval_bindings.insert(0, second);
    resign(&mut ordered);
    parse_promotion_intent_v12(&encode(&ordered), ordered.clone())
        .expect("strictly increasing approval pairs are structurally valid");

    let mut reordered = ordered.clone();
    reordered.human_authority.approval_bindings.reverse();
    resign(&mut reordered);
    assert!(parse_promotion_intent_v12(&encode(&reordered), reordered.clone()).is_err());

    let mut duplicate_pair = amend_intent();
    let mut duplicate = duplicate_pair.human_authority.approval_bindings[0].clone();
    duplicate.approval_ref = format!("approvals/approval_{}.json", hex('b'));
    duplicate.approval_fingerprint = fingerprint('b');
    duplicate_pair.human_authority.approval_bindings.push(duplicate);
    resign(&mut duplicate_pair);
    assert!(parse_promotion_intent_v12(&encode(&duplicate_pair), duplicate_pair.clone()).is_err());
}

#[test]
fn reopened_coverage_must_follow_coverage_order() {
    let mut record = amend_intent();
    record.selected_contract.reopened_coverage_ids.reverse();
    resign(&mut record);
    let error = validate_promotion_intent_v12(&record).unwrap_err();
    assert_eq!(
        error.detail(),
        "promotion intent reopened coverage is unknown, duplicate, or reordered"
    );
    let mut record = amend_intent();
    record.selected_contract.reopened_coverage_ids.push("unknown.coverage".to_owned());
    resign(&mut record);
    assert!(validate_promotion_intent_v12(&record).is_err());
}

#[test]
fn create_and_amend_closures_are_exact() {
    let mut record = create_intent();
    record.recovery.old_canonical_status = "present".to_owned();
    resign(&mut record);
    assert_eq!(
        validate_promotion_intent_v12(&record).unwrap_err().detail(),
        "create promotion intent does not have its exact null/empty prior-authority closure"
    );
    let mut record = amend_intent();
    record.recovery.old_canonical_fingerprint = Some(fingerprint('e'));
    resign(&mut record);
    assert_eq!(
        validate_promotion_intent_v12(&record).unwrap_err().detail(),
        "amend promotion intent prior-authority/recovery closure is incomplete or unequal"
    );
    let mut record = create_intent();
    record.mutation_mode = "replace".to_owned();
    resign(&mut record);
    assert_eq!(
        validate_promotion_intent_v12(&record).unwrap_err().detail(),
        "promotion intent mutation mode is unsupported"
    );
}

#[test]
fn the_promotion_id_must_name_the_promotion_output() {
    let mut record = create_intent();
    record.promotion_id = format!("promotion_{}", hex('2'));
    resign(&mut record);
    assert!(validate_promotion_intent_v12(&record).is_err());
}

#[test]
fn a_changed_selected_contract_constant_is_refused() {
    let mut record = create_intent();
    record.selected_contract.resolved_definitions.pop();
    resign(&mut record);
    assert_eq!(
        validate_promotion_intent_v12(&record).unwrap_err().detail(),
        "promotion intent 1.2 schema or selected-contract constants are invalid"
    );
}

#[test]
fn the_intent_marker_is_seventy_two_bytes() {
    let marker = promotion_intent_marker_v12(b"intent\n");
    assert_eq!(marker.len(), 72);
    assert!(marker.starts_with(b"sha256:"));
}

fn encode(record: &PromotionTransactionIntentV12) -> Vec<u8> {
    let text: String = intent_record_json_text(record).into_iter().collect();
    let mut bytes = serde_json_canonicalizer::pipe(&text).unwrap().into_bytes();
    bytes.push(b'\n');
    bytes
}

fn sha(bytes: &[u8]) -> String {
    let digest: String = Sha256::digest(bytes).iter().map(|b| format!("{b:02x}")).collect();
    format!("sha256:{digest}")
}

#[test]
fn reviewed_amendment_vector_parses_with_exact_fingerprint_document_and_marker() {
    let record = amend_intent();
    let bytes = encode(&record);
    let parsed = parse_promotion_intent_v12(&bytes, record.clone()).unwrap();
    assert_eq!(parsed.raw_bytes, bytes);
    let document_sha256 = sha(&bytes);
    assert_eq!(document_sha256.len(), 71);
    assert_eq!(promotion_intent_marker_v12(&parsed.raw_bytes), format!("{document_sha256}\n").into_bytes());
}

#[test]
fn legacy_top_level_wrong_schema_and_fingerprint_mismatch_refuse() {
    let mut wrong_schema = amend_intent();
    wrong_schema.schema_version = "1.0".to_owned();
    assert!(parse_promotion_intent_v12(&encode(&wrong_schema), wrong_schema.clone()).is_err());

    let mut wrong_fingerprint = amend_intent();
    wrong_fingerprint.intent_fingerprint = format!("sha256:{}", "0".repeat(64));
    assert!(parse_promotion_intent_v12(&encode(&wrong_fingerprint), wrong_fingerprint.clone()).is_err());

    let record = amend_intent();
    let mut legacy_bytes = encode(&record);
    legacy_bytes.pop();
    assert!(parse_promotion_intent_v12(&legacy_bytes, record.clone()).is_err());
}
