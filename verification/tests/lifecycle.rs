use engine::{
    address_charter_lifecycle, apply_charter_lifecycle_events, CharterLifecycleErrorKind,
    CharterLifecycleEvent, CharterLifecycleEventKind, CharterLifecycleState,
};

fn fingerprint(fill: char) -> String {
    format!("sha256:{}", fill.to_string().repeat(64))
}

fn event(id: char, kind: CharterLifecycleEventKind) -> CharterLifecycleEvent {
    CharterLifecycleEvent {
        event_fingerprint: fingerprint(id),
        basis_artifact_fingerprint: fingerprint('b'),
        kind,
        evidence_ref: "evidence/example".to_owned(),
        evidence_fingerprint: fingerprint('e'),
    }
}

#[test]
fn posture_change_requires_reassessment_and_reopens_its_coverage() {
    let transition = apply_charter_lifecycle_events(
        CharterLifecycleState::Current,
        &[],
        vec![
            event('2', CharterLifecycleEventKind::Review),
            event('1', CharterLifecycleEventKind::ProductionPostureChanged),
        ],
    )
    .unwrap();
    assert_eq!(transition.prior_state, CharterLifecycleState::Current);
    assert_eq!(transition.result_state, CharterLifecycleState::ReassessmentRequired);
    assert_eq!(transition.new_observations.len(), 2);
    assert_eq!(
        transition.new_observations[0].kind,
        CharterLifecycleEventKind::ProductionPostureChanged
    );
    assert_eq!(transition.new_observations[1].kind, CharterLifecycleEventKind::Review);
    assert_eq!(
        transition.reopened_coverage_ids,
        vec!["operational_reality.production_state".to_owned()]
    );
    assert!(transition.state_fingerprint.starts_with("sha256:"));
    assert_eq!(transition.state_fingerprint.len(), 71);
}

#[test]
fn a_review_alone_requires_review() {
    let transition = apply_charter_lifecycle_events(
        CharterLifecycleState::Current,
        &[],
        vec![event('3', CharterLifecycleEventKind::Review)],
    )
    .unwrap();
    assert_eq!(transition.result_state, CharterLifecycleState::ReviewRequired);
    assert!(transition.reopened_coverage_ids.is_empty());
}

#[test]
fn replaying_recorded_events_opens_nothing_new() {
    let first = apply_charter_lifecycle_events(
        CharterLifecycleState::Current,
        &[],
        vec![event('4', CharterLifecycleEventKind::TrustBoundaryChanged)],
    )
    .unwrap();
    let replay = apply_charter_lifecycle_events(
        first.result_state,
        &first.active_observations,
        vec![event('4', CharterLifecycleEventKind::TrustBoundaryChanged)],
    )
    .unwrap();
    assert!(replay.new_observations.is_empty());
    assert_eq!(replay.active_observations, first.active_observations);
    assert_eq!(replay.reopened_coverage_ids, vec!["governance.exception_policy".to_owned()]);
}

#[test]
fn duplicate_events_in_one_batch_are_observed_once() {
    let transition = apply_charter_lifecycle_events(
        CharterLifecycleState::Current,
        &[],
        vec![
            event('5', CharterLifecycleEventKind::Review),
            event('5', CharterLifecycleEventKind::Review),
        ],
    )
    .unwrap();
    assert_eq!(transition.new_observations.len(), 1);
}

#[test]
fn no_events_keep_the_prior_state() {
    let transition =
        apply_charter_lifecycle_events(CharterLifecycleState::ReviewRequired, &[], Vec::new())
            .unwrap();
    assert_eq!(transition.result_state, CharterLifecycleState::ReviewRequired);
    assert!(transition.new_observations.is_empty());
}

#[test]
fn an_event_on_another_basis_is_stale() {
    let first = apply_charter_lifecycle_events(
        CharterLifecycleState::Current,
        &[],
        vec![event('6', CharterLifecycleEventKind::Review)],
    )
    .unwrap();
    let mut other = event('7', CharterLifecycleEventKind::Review);
    other.basis_artifact_fingerprint = fingerprint('c');
    let error = apply_charter_lifecycle_events(
        first.result_state,
        &first.active_observations,
        vec![other],
    )
    .unwrap_err();
    assert_eq!(error.kind(), CharterLifecycleErrorKind::StaleBasis);
}

#[test]
fn a_blank_evidence_ref_is_an_invalid_event() {
    let mut bad = event('8', CharterLifecycleEventKind::Review);
    bad.evidence_ref = " \t".to_owned();
    let error =
        apply_charter_lifecycle_events(CharterLifecycleState::Current, &[], vec![bad]).unwrap_err();
    assert_eq!(error.kind(), CharterLifecycleErrorKind::InvalidEvent);
    let mut bad = event('8', CharterLifecycleEventKind::Review);
    bad.event_fingerprint = "sha256:ABC".to_owned();
    let error =
        apply_charter_lifecycle_events(CharterLifecycleState::Current, &[], vec![bad]).unwrap_err();
    assert_eq!(error.kind(), CharterLifecycleErrorKind::InvalidEvent);
}

#[test]
fn addressing_every_observation_and_its_coverage_clears_to_current() {
    let transition = apply_charter_lifecycle_events(
        CharterLifecycleState::Current,
        &[],
        vec![event('9', CharterLifecycleEventKind::ProductionPostureChanged)],
    )
    .unwrap();
    let state = address_charter_lifecycle(
        &transition.active_observations,
        &[fingerprint('9')],
        &transition.reopened_coverage_ids,
    )
    .unwrap();
    assert_eq!(state, CharterLifecycleState::Current);
    let error = address_charter_lifecycle(&transition.active_observations, &[fingerprint('9')], &[])
        .unwrap_err();
    assert_eq!(error.kind(), CharterLifecycleErrorKind::ClearanceIncomplete);
    let error = address_charter_lifecycle(
        &transition.active_observations,
        &[],
        &transition.reopened_coverage_ids,
    )
    .unwrap_err();
    assert_eq!(error.kind(), CharterLifecycleErrorKind::ClearanceIncomplete);
}

#[test]
fn the_state_fingerprint_depends_on_the_result() {
    let review = apply_charter_lifecycle_events(
        CharterLifecycleState::Current,
        &[],
        vec![event('a', CharterLifecycleEventKind::Review)],
    )
    .unwrap();
    let quiet =
        apply_charter_lifecycle_events(CharterLifecycleState::Current, &[], Vec::new()).unwrap();
    assert_ne!(review.state_fingerprint, quiet.state_fingerprint);
}
