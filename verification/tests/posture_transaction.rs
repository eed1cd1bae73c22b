use engine::charter_lifecycle_store::raw_fingerprint;
use engine::charter_lifecycle_transition_v11::{
    construct_lifecycle_transition_v11, lifecycle_transition_output_record_v11,
    LifecycleTransitionDraftV11,
};
use engine::charter_lifecycle_transition_v11::parse_lifecycle_transition_v11;
use engine::charter_posture_transaction_intent_v1::{
    construct_posture_transaction_intent_v1, parse_posture_transaction_intent_v1,
    parse_posture_transition_v1, validate_posture_transaction_intent_bindings_v1,
    validate_transaction_id_v1,
    construct_posture_transition_v1, posture_transaction_intent_marker_v1,
    posture_transition_marker_v1, posture_transition_pair_v1, AuthorityHeadV1,
    CanonicalDocumentV1, KernelReplayDimensionV1, KernelReplayV1, PairV1, PostureChangeV1,
    PostureReassessmentV1, PostureTransitionDraftV1,
};

const DIMENSION_IDS: [&str; 9] = [
    "speed_vs_quality",
    "type_safety_static_analysis",
    "testing_rigor",
    "scalability_performance",
    "reliability_operability",
    "security_privacy",
    "observability",
    "dx_tooling_automation",
    "ux_polish_api_usability",
];

fn fingerprint(fill: char) -> String {
    format!("sha256:{}", fill.to_string().repeat(64))
}

fn lifecycle_state_fingerprint(canonical_fingerprint: &str) -> String {
    engine::charter_lifecycle_state_fingerprint(
        "handbook.lifecycle.constitutional-review-lock@1.0.0",
        "sha256:88caafb9caaf137647c42a91cd2762ac0871e0a20e2a1844c2c0076d5fb43cc3",
        "project_authority",
        canonical_fingerprint,
        engine::CharterLifecycleState::Current,
        &[],
    )
    .unwrap()
}

fn pair(reference: &str, fill: char) -> PairV1 {
    PairV1 {
        reference: reference.to_owned(),
        fingerprint: fingerprint(fill),
    }
}

fn canonical(bytes: &[u8]) -> CanonicalDocumentV1 {
    let fingerprint = raw_fingerprint(bytes);
    CanonicalDocumentV1 {
        reference: ".handbook/project/charter.yaml".to_owned(),
        fingerprint: fingerprint.clone(),
        document_sha256: fingerprint,
        byte_length: bytes.len() as u64,
    }
}

fn authority_head(old: &CanonicalDocumentV1) -> AuthorityHeadV1 {
    AuthorityHeadV1 {
        kind: "promotion".to_owned(),
        source: pair(
            &format!("promotions/promotion_{}.json", "a".repeat(64)),
            'a',
        ),
        canonical: old.clone(),
        lifecycle_transition: pair(
            &format!(
                "lifecycle-transitions/lifecycle-transition_{}.json",
                "b".repeat(64)
            ),
            'b',
        ),
        promotion_ancestor: pair(
            &format!("promotions/promotion_{}.json", "c".repeat(64)),
            'c',
        ),
    }
}

fn change() -> PostureChangeV1 {
    PostureChangeV1 {
        dimension_id: "testing_rigor".to_owned(),
        dimension_index: 2,
        authority_path: "/engineering_posture/dimensions/2/level_override".to_owned(),
        operation: "replace".to_owned(),
        baseline_level: 3,
        expected_stored_value: Some(4),
        expected_effective_level: 4,
        proposed_stored_value: None,
        proposed_effective_level: 3,
    }
}

fn reassessment() -> PostureReassessmentV1 {
    PostureReassessmentV1 {
        intake_definition: pair(
            &format!("intake-records/intake_{}.json", "a".repeat(64)),
            'a',
        ),
        affected_coverage_ids: vec!["engineering_posture.dimensions".to_owned()],
        validation_result_inputs: vec![pair("validation-results/example", 'd')],
    }
}

fn kernel_replay(old: &CanonicalDocumentV1, new: &CanonicalDocumentV1) -> KernelReplayV1 {
    KernelReplayV1 {
        constitutional_artifact_ref: ".handbook/project/charter.yaml".to_owned(),
        source_authority_fingerprint: old.fingerprint.clone(),
        resulting_authority_fingerprint: new.fingerprint.clone(),
        source_input_fingerprint: fingerprint('e'),
        resulting_input_fingerprint: fingerprint('f'),
        profile_input: pair("profiles/project", '1'),
        override_inputs: Vec::new(),
        condition_inputs: Vec::new(),
        contract_inputs: Vec::new(),
        evidence_inputs: Vec::new(),
        snapshot_inputs: Vec::new(),
        freshness_basis: None,
        dimensions: DIMENSION_IDS
            .iter()
            .enumerate()
            .map(|(index, dimension_id)| KernelReplayDimensionV1 {
                dimension_id: (*dimension_id).to_owned(),
                source_effective_level: if index == 2 { 4 } else { 3 },
                resulting_effective_level: 3,
                floor: 1,
                red_line_refs: Vec::new(),
                trigger_refs: Vec::new(),
                allowed_shortcut_refs: Vec::new(),
                proof_obligation_refs: Vec::new(),
            })
            .collect(),
        applicable_scope_refs: Vec::new(),
        omitted_condition_refs: Vec::new(),
        unresolved_condition_refs: Vec::new(),
    }
}

fn posture_draft(old: &CanonicalDocumentV1, new: &CanonicalDocumentV1) -> PostureTransitionDraftV1 {
    PostureTransitionDraftV1 {
        recommendation: pair("recommendations/example", '2'),
        repository_identity: pair(".handbook/repository-identity.v1", '1'),
        source_kernel: pair("project-posture-kernels/example", '3'),
        evaluation_policy: pair("posture-policies/example", '4'),
        prior_authority_head: authority_head(old),
        expected_canonical: old.clone(),
        change: change(),
        approval_inputs: vec![pair("approvals/example", '5')],
        authorized_by_ref: "actors/constitutional-authority".to_owned(),
        reassessment: reassessment(),
        kernel_replay: kernel_replay(old, new),
        resulting_canonical: new.clone(),
        resulting_kernel: pair("project-posture-kernels/result", '6'),
        effective_at_utc: "2026-08-08T14:40:00Z".to_owned(),
    }
}

#[test]
fn lifecycle_constructor_binds_the_completed_posture_without_a_back_edge() {
    let old = canonical(b"old charter\n");
    let new = canonical(b"new charter\n");
    let posture = construct_posture_transition_v1(posture_draft(&old, &new)).unwrap();
    let lifecycle = construct_lifecycle_transition_v11(
        &posture,
        LifecycleTransitionDraftV11 {
            prior_transition: pair(
                &format!(
                    "lifecycle-transitions/lifecycle-transition_{}.json",
                    "7".repeat(64)
                ),
                '7',
            ),
            prior_state_fingerprint: lifecycle_state_fingerprint(
                &posture.record.expected_canonical.fingerprint,
            ),
        },
    )
    .unwrap();

    assert_eq!(
        lifecycle.record.authority_transition,
        posture_transition_pair_v1(&posture)
    );
    assert_eq!(
        lifecycle_transition_output_record_v11(&lifecycle).fingerprint,
        lifecycle.record.transition_fingerprint
    );
    assert_eq!(
        lifecycle.record.transitioned_at_utc,
        posture.record.effective_at_utc
    );
    assert_eq!(
        lifecycle.record.prior_state_fingerprint,
        lifecycle_state_fingerprint(&posture.record.expected_canonical.fingerprint)
    );
    assert_eq!(
        lifecycle.record.result_state_fingerprint,
        lifecycle_state_fingerprint(&posture.record.resulting_canonical.fingerprint)
    );
    assert_ne!(
        lifecycle.record.prior_state_fingerprint, lifecycle.record.result_state_fingerprint,
        "a posture rebase must retain distinct old and resulting lifecycle-current states"
    );
}

#[test]
fn posture_constructor_emits_exact_jcs_lf_content_identity_and_marker() {
    let old = canonical(b"old charter\n");
    let new = canonical(b"new charter\n");

    let posture = construct_posture_transition_v1(posture_draft(&old, &new)).unwrap();

    assert!(posture.raw_bytes.ends_with(b"\n"));
    assert_eq!(posture_transition_marker_v1(&posture.raw_bytes).len(), 72);
    assert_eq!(
        parse_posture_transition_v1(&posture.raw_bytes, posture.record.clone()).unwrap(),
        posture
    );
    assert_eq!(
        posture.record.transition_id,
        format!(
            "posture-transition_{}",
            posture
                .record
                .transition_fingerprint
                .strip_prefix("sha256:")
                .unwrap()
        )
    );
}

fn lifecycle_for(
    posture: &engine::charter_posture_transaction_intent_v1::ValidatedPostureTransitionV1,
    fill: char,
) -> engine::charter_lifecycle_transition_v11::ValidatedLifecycleTransitionV11 {
    construct_lifecycle_transition_v11(
        posture,
        LifecycleTransitionDraftV11 {
            prior_transition: pair(
                &format!(
                    "lifecycle-transitions/lifecycle-transition_{}.json",
                    fill.to_string().repeat(64)
                ),
                fill,
            ),
            prior_state_fingerprint: lifecycle_state_fingerprint(
                &posture.record.expected_canonical.fingerprint,
            ),
        },
    )
    .unwrap()
}

#[test]
fn intent_constructor_binds_exact_output_bytes_and_closed_parsers_refuse_substitution() {
    let old_bytes = b"old charter\n";
    let new_bytes = b"new charter\n";
    let posture = construct_posture_transition_v1(posture_draft(
        &canonical(old_bytes),
        &canonical(new_bytes),
    ))
    .unwrap();
    let lifecycle = lifecycle_for(&posture, '9');
    let intent =
        construct_posture_transaction_intent_v1(&posture, &lifecycle, old_bytes, new_bytes, |_| {
            true
        })
        .unwrap();
    validate_posture_transaction_intent_bindings_v1(&intent, &posture, &lifecycle, old_bytes, new_bytes)
        .unwrap();
    assert!(validate_posture_transaction_intent_bindings_v1(
        &intent,
        &posture,
        &lifecycle,
        b"substituted old charter\n",
        new_bytes,
    )
    .is_err());
    assert!(validate_transaction_id_v1(&intent.record.transaction_id).is_ok());
    assert_eq!(intent.record.transaction_id.len(), "posture-transaction_".len() + 32);
    assert_eq!(
        parse_posture_transaction_intent_v1(&intent.raw_bytes, intent.record.clone()).unwrap(),
        intent
    );
    assert_eq!(
        parse_lifecycle_transition_v11(&lifecycle.raw_bytes, lifecycle.record.clone()).unwrap(),
        lifecycle
    );
    assert_eq!(posture_transaction_intent_marker_v1(&intent.raw_bytes).len(), 72);

    let mut unexpected = posture.raw_bytes.clone();
    unexpected.truncate(unexpected.len() - 2);
    unexpected.extend_from_slice(b",\"unknown\":\"refuse\"}\n");
    assert!(parse_posture_transition_v1(&unexpected, posture.record.clone()).is_err());

    let non_jcs = b"{\"schema_id\": \"handbook.posture-transition\"}\n";
    assert!(parse_posture_transition_v1(non_jcs, posture.record.clone()).is_err());
}

#[test]
fn intent_constructor_refuses_bytes_that_are_not_the_bound_canonical() {
    let posture = construct_posture_transition_v1(posture_draft(
        &canonical(b"old charter\n"),
        &canonical(b"new charter\n"),
    ))
    .unwrap();
    let lifecycle = lifecycle_for(&posture, '8');
    assert!(construct_posture_transaction_intent_v1(
        &posture,
        &lifecycle,
        b"other old charter\n",
        b"new charter\n",
        |_| true
    )
    .is_err());
}

#[test]
fn intent_allocation_gives_up_when_no_id_is_available() {
    let posture = construct_posture_transition_v1(posture_draft(
        &canonical(b"old charter\n"),
        &canonical(b"new charter\n"),
    ))
    .unwrap();
    let lifecycle = lifecycle_for(&posture, '8');
    let error = construct_posture_transaction_intent_v1(
        &posture,
        &lifecycle,
        b"old charter\n",
        b"new charter\n",
        |_| false,
    )
    .unwrap_err();
    assert!(error.detail().contains("allocation exhausted collision retries"));
}

#[test]
fn parsers_refuse_bytes_that_are_not_the_record_encoding() {
    let posture = construct_posture_transition_v1(posture_draft(
        &canonical(b"old charter\n"),
        &canonical(b"new charter\n"),
    ))
    .unwrap();
    let mut doubled = posture.raw_bytes.clone();
    doubled.push(b'\n');
    assert!(parse_posture_transition_v1(&doubled, posture.record.clone()).is_err());
    let non_jcs = b"{\"schema_id\": \"handbook.posture-transition\"}\n";
    assert!(parse_posture_transition_v1(non_jcs, posture.record.clone()).is_err());
}
