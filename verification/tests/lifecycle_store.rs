use engine::charter_lifecycle_store::{
    inject_lifecycle_fault, CharterLifecycleFaultPointV1, ScopedLifecycleFaultV1,
};
use engine::{
    charter_lifecycle_event_commit_marker, charter_lifecycle_state_fingerprint,
    classify_lifecycle_recovery, CharterLifecycleRecoveryActionV1,
    CharterLifecycleRecoveryInputsV1, CharterLifecycleState, CharterLifecycleStoreErrorKindV1,
};

#[test]
fn every_lifecycle_fault_boundary_is_module_local_and_exactly_selected() {
    for selected in [
        CharterLifecycleFaultPointV1::Intent,
        CharterLifecycleFaultPointV1::Prepared,
        CharterLifecycleFaultPointV1::ObservationInstalled,
        CharterLifecycleFaultPointV1::RecordsInstalled,
    ] {
        let guard = ScopedLifecycleFaultV1::select(selected);
        for observed in [
            CharterLifecycleFaultPointV1::Intent,
            CharterLifecycleFaultPointV1::Prepared,
            CharterLifecycleFaultPointV1::ObservationInstalled,
            CharterLifecycleFaultPointV1::RecordsInstalled,
        ] {
            let result = inject_lifecycle_fault(&guard, observed, "test-only lifecycle fault");
            assert_eq!(result.is_err(), observed == selected);
        }
    }
}

#[test]
fn an_injected_fault_reports_its_kind_and_detail() {
    let guard = ScopedLifecycleFaultV1::select(CharterLifecycleFaultPointV1::Prepared);
    let error = inject_lifecycle_fault(&guard, CharterLifecycleFaultPointV1::Prepared, "boom")
        .unwrap_err();
    assert_eq!(error.kind(), CharterLifecycleStoreErrorKindV1::InjectedFault);
    assert_eq!(error.detail(), "boom");
}

fn inputs(
    observation_final: bool,
    transition_final: bool,
    observation_staged: bool,
    transition_staged: bool,
    matching_commit_marker: bool,
) -> CharterLifecycleRecoveryInputsV1 {
    CharterLifecycleRecoveryInputsV1 {
        observation_final,
        transition_final,
        observation_staged,
        transition_staged,
        matching_commit_marker,
    }
}

#[test]
fn recovery_classification_covers_each_interrupted_commit() {
    assert_eq!(classify_lifecycle_recovery(inputs(true, true, false, false, true)), CharterLifecycleRecoveryActionV1::Finalize);
    assert_eq!(
        classify_lifecycle_recovery(inputs(true, false, false, true, true)),
        CharterLifecycleRecoveryActionV1::PreserveAndRefuse
    );
    assert_eq!(
        classify_lifecycle_recovery(inputs(true, true, false, false, false)),
        CharterLifecycleRecoveryActionV1::RollForwardCommit
    );
    assert_eq!(
        classify_lifecycle_recovery(inputs(false, false, true, true, false)),
        CharterLifecycleRecoveryActionV1::InstallBothAndCommit
    );
    assert_eq!(
        classify_lifecycle_recovery(inputs(true, false, false, true, false)),
        CharterLifecycleRecoveryActionV1::InstallMissingAndCommit
    );
    assert_eq!(
        classify_lifecycle_recovery(inputs(false, true, true, false, false)),
        CharterLifecycleRecoveryActionV1::InstallMissingAndCommit
    );
    assert_eq!(
        classify_lifecycle_recovery(inputs(false, false, true, false, false)),
        CharterLifecycleRecoveryActionV1::RollbackOwnedState
    );
    assert_eq!(
        classify_lifecycle_recovery(inputs(false, false, false, false, false)),
        CharterLifecycleRecoveryActionV1::RollbackOwnedState
    );
}

#[test]
fn the_commit_marker_is_the_intent_fingerprint_and_a_line_feed() {
    let marker = charter_lifecycle_event_commit_marker(b"intent bytes");
    assert_eq!(marker.len(), 72);
    assert!(marker.starts_with(b"sha256:"));
    assert_eq!(marker[71], b'\n');
    assert_ne!(marker, charter_lifecycle_event_commit_marker(b"other intent bytes"));
}

#[test]
fn the_lifecycle_state_fingerprint_depends_on_the_canonical_fingerprint() {
    let policy_fingerprint =
        "sha256:88caafb9caaf137647c42a91cd2762ac0871e0a20e2a1844c2c0076d5fb43cc3";
    let a = charter_lifecycle_state_fingerprint(
        "handbook.lifecycle.constitutional-review-lock@1.0.0",
        policy_fingerprint,
        "project_authority",
        &format!("sha256:{}", "a".repeat(64)),
        CharterLifecycleState::Current,
        &[],
    )
    .unwrap();
    let b = charter_lifecycle_state_fingerprint(
        "handbook.lifecycle.constitutional-review-lock@1.0.0",
        policy_fingerprint,
        "project_authority",
        &format!("sha256:{}", "b".repeat(64)),
        CharterLifecycleState::Current,
        &[],
    )
    .unwrap();
    assert_eq!(a.len(), 71);
    assert_ne!(a, b);
}
