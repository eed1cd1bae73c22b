use engine::charter_promotion_workflow::{
    normalize_required_approval_pairs, validate_promotion_intent, ApproverAuthorityPairV1,
    CharterPromotionCommitV1, CharterPromotionIntentV1, CharterPromotionProductProjectionErrorKindV1,
    CharterPromotionWorkflowCommitV1, CharterPromotionWorkflowErrorKindV1,
    CharterPromotionWorkflowErrorV1,
};

fn pair(class: &str, authority: &str) -> ApproverAuthorityPairV1 {
    ApproverAuthorityPairV1 {
        approval_class: class.to_owned(),
        authority_ref: authority.to_owned(),
    }
}

#[test]
fn required_pairs_are_sorted_by_class_then_authority() {
    let sorted = normalize_required_approval_pairs(vec![
        pair("security", "actors/b"),
        pair("charter", "actors/z"),
        pair("security", "actors/a"),
    ])
    .unwrap();
    assert_eq!(
        sorted,
        vec![
            pair("charter", "actors/z"),
            pair("security", "actors/a"),
            pair("security", "actors/b"),
        ]
    );
}

#[test]
fn normalizing_is_independent_of_the_input_order() {
    let a = normalize_required_approval_pairs(vec![pair("b", "x"), pair("a", "y"), pair("a", "x")])
        .unwrap();
    let b = normalize_required_approval_pairs(vec![pair("a", "x"), pair("b", "x"), pair("a", "y")])
        .unwrap();
    assert_eq!(a, b);
    assert_eq!(normalize_required_approval_pairs(a.clone()).unwrap(), a);
}

#[test]
fn duplicate_required_pairs_are_refused() {
    let error = normalize_required_approval_pairs(vec![pair("a", "x"), pair("b", "y"), pair("a", "x")])
        .unwrap_err();
    assert_eq!(error.kind(), CharterPromotionWorkflowErrorKindV1::ApprovalRefused);
    assert_eq!(error.detail(), "required approval authority pairs must be unique");
}

#[test]
fn the_pair_count_is_bounded_from_one_to_sixty_four() {
    let error = normalize_required_approval_pairs(Vec::new()).unwrap_err();
    assert_eq!(error.detail(), "required approval pair set must contain 1-64 entries");
    let many = (0..65).map(|index| pair("class", &format!("actors/{index:03}"))).collect();
    let error = normalize_required_approval_pairs(many).unwrap_err();
    assert_eq!(error.detail(), "required approval pair set must contain 1-64 entries");
    let enough: Vec<_> = (0..64).map(|index| pair("class", &format!("actors/{index:03}"))).collect();
    assert_eq!(normalize_required_approval_pairs(enough).unwrap().len(), 64);
}

#[test]
fn blank_or_oversized_pair_texts_are_refused() {
    let detail = "approval class and authority ref must be bounded non-empty strings";
    let error = normalize_required_approval_pairs(vec![pair(" \u{3000}", "x")]).unwrap_err();
    assert_eq!(error.detail(), detail);
    let error = normalize_required_approval_pairs(vec![pair("a", &"x".repeat(256))]).unwrap_err();
    assert_eq!(error.detail(), detail);
    assert!(normalize_required_approval_pairs(vec![pair("a", &"x".repeat(255))]).is_ok());
    let error = normalize_required_approval_pairs(vec![pair("a", &"é".repeat(128))]).unwrap_err();
    assert_eq!(error.detail(), detail);
}

#[test]
fn workflow_refusals_carry_their_code_and_one_next_action() {
    let refusal = CharterPromotionWorkflowErrorKindV1::BasisMismatch.product_refusal("moved");
    assert_eq!(refusal.code, "basis_mismatch");
    assert_eq!(refusal.message, "moved");
    assert!(refusal.retryable);
    assert_eq!(
        refusal.next_actions,
        vec!["re-finalize the candidate against current canonical Charter authority before retrying"
            .to_owned()]
    );
    let error = CharterPromotionWorkflowErrorV1::new(
        CharterPromotionWorkflowErrorKindV1::RegistryRefused,
        "no registry",
    );
    let refusal = error.product_refusal();
    assert_eq!(refusal.code, "registry_refused");
    assert_eq!(refusal.message, "no registry");
    assert!(!refusal.retryable);
    for kind in [
        CharterPromotionWorkflowErrorKindV1::InvalidIntent,
        CharterPromotionWorkflowErrorKindV1::CandidateRefused,
        CharterPromotionWorkflowErrorKindV1::ApprovalRefused,
        CharterPromotionWorkflowErrorKindV1::RegistryRefused,
        CharterPromotionWorkflowErrorKindV1::DefinitionDrift,
        CharterPromotionWorkflowErrorKindV1::LifecycleClearanceIncomplete,
        CharterPromotionWorkflowErrorKindV1::TransactionRefused,
    ] {
        assert!(!kind.product_refusal("x").retryable);
    }
}

fn commit(promotion_hex: &str, lifecycle_hex: &str) -> CharterPromotionWorkflowCommitV1 {
    let promotion_ref = format!("promotions/promotion_{promotion_hex}.json");
    let lifecycle_transition_ref =
        format!("lifecycle-transitions/lifecycle-transition_{lifecycle_hex}.json");
    CharterPromotionWorkflowCommitV1 {
        canonical_fingerprint: format!("sha256:{}", "c".repeat(64)),
        promotion_ref: promotion_ref.clone(),
        lifecycle_transition_ref: lifecycle_transition_ref.clone(),
        approval_refs: vec!["approvals/example".to_owned()],
        required_approval_pairs: vec![pair("charter", "actors/a")],
        transaction: CharterPromotionCommitV1 {
            promotion_ref,
            lifecycle_transition_ref,
        },
    }
}

#[test]
fn a_committed_promotion_projects_its_changed_paths() {
    let projection = commit(&"a".repeat(64), &"b".repeat(64)).product_projection().unwrap();
    assert_eq!(projection.canonical_path, ".handbook/project/charter.yaml");
    assert_eq!(projection.promotion_fingerprint, format!("sha256:{}", "a".repeat(64)));
    assert_eq!(
        projection.changed_paths,
        vec![
            ".handbook/project/charter.yaml".to_owned(),
            format!(".handbook/state/promotions/promotion_{}.json", "a".repeat(64)),
            format!(
                ".handbook/state/lifecycle-transitions/lifecycle-transition_{}.json",
                "b".repeat(64)
            ),
        ]
    );
    assert_eq!(projection.next_actions, vec!["retain the committed promotion reference".to_owned()]);
}

#[test]
fn projection_refusals_name_what_is_wrong() {
    let mut bad = commit(&"a".repeat(64), &"b".repeat(64));
    bad.canonical_fingerprint = "sha256:ABC".to_owned();
    assert_eq!(
        bad.product_projection().unwrap_err().kind(),
        CharterPromotionProductProjectionErrorKindV1::InvalidCanonicalFingerprint
    );
    let mut bad = commit(&"a".repeat(64), &"b".repeat(64));
    bad.transaction.promotion_ref = format!("promotions/promotion_{}.json", "d".repeat(64));
    assert_eq!(
        bad.product_projection().unwrap_err().kind(),
        CharterPromotionProductProjectionErrorKindV1::InconsistentCommit
    );
    let bad = commit(&"A".repeat(64), &"b".repeat(64));
    let error = bad.product_projection().unwrap_err();
    assert_eq!(error.kind(), CharterPromotionProductProjectionErrorKindV1::InvalidPromotionRef);
    let refusal = error.product_refusal();
    assert_eq!(refusal.code, "promotion_projection_invalid_promotion_ref");
    assert!(!refusal.retryable);
    let bad = commit(&"a".repeat(64), &"b".repeat(63));
    assert_eq!(
        bad.product_projection().unwrap_err().kind(),
        CharterPromotionProductProjectionErrorKindV1::InvalidLifecycleTransitionRef
    );
}

#[test]
fn a_promotion_intent_needs_bounded_refs() {
    let intent = CharterPromotionIntentV1 {
        candidate_ref: "candidates/candidate_x.json".to_owned(),
        approval_ref: "approvals/approval_x.json".to_owned(),
        expected_current_fingerprint: None,
    };
    assert!(validate_promotion_intent(&intent).is_ok());
    let mut empty = intent.clone();
    empty.candidate_ref = String::new();
    assert_eq!(
        validate_promotion_intent(&empty).unwrap_err().kind(),
        CharterPromotionWorkflowErrorKindV1::InvalidIntent
    );
    let mut long = intent.clone();
    long.approval_ref = "a".repeat(513);
    assert!(validate_promotion_intent(&long).is_err());
    long.approval_ref = "a".repeat(512);
    assert!(validate_promotion_intent(&long).is_ok());
}

#[test]
fn a_projection_refusal_names_its_kind_and_exact_detail() {
    let commit = CharterPromotionWorkflowCommitV1 {
        canonical_fingerprint: "sha256:ABC".to_owned(),
        promotion_ref: "promotions/promotion_1.json".to_owned(),
        lifecycle_transition_ref: "lifecycle-transitions/lifecycle-transition_1.json".to_owned(),
        approval_refs: Vec::new(),
        required_approval_pairs: Vec::new(),
        transaction: CharterPromotionCommitV1 {
            promotion_ref: "promotions/promotion_1.json".to_owned(),
            lifecycle_transition_ref: "lifecycle-transitions/lifecycle-transition_1.json".to_owned(),
        },
    };
    let error = commit.product_projection().unwrap_err();
    assert_eq!(error.kind(), CharterPromotionProductProjectionErrorKindV1::InvalidCanonicalFingerprint);
    assert_eq!(error.detail(), "canonical fingerprint is not an exact lowercase SHA-256 fingerprint");
}

#[test]
fn normalizing_a_normalized_set_gives_it_back() {
    let once = normalize_required_approval_pairs(vec![pair("z", "b"), pair("a", "c"), pair("z", "a")]).unwrap();
    let twice = normalize_required_approval_pairs(once.clone()).unwrap();
    assert_eq!(once, twice);
    assert_eq!(once, vec![pair("a", "c"), pair("z", "a"), pair("z", "b")]);
}
