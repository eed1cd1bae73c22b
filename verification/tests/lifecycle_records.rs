use engine::charter_lifecycle_store::{
    build_observation_record, build_transition_record, journal_entry_name, resolve_committed_head,
    CharterLifecycleStoreV1, CommittedLifecycleLinkV1,
    LIFECYCLE_EVENT_JOURNAL, event_intent_bytes, event_intent_record,
    lifecycle_event_id, order_active_records, pending_recovery_step, reassessment_trigger,
    replayed_event_commit, resolve_amendment_event, resolve_trigger_evidence_event,
    stage_lifecycle_event, validate_trigger_evidence, ActiveObservationRecordV1,
    LifecycleEventStagingV1, LifecycleTriggerEvidenceV1, ResolvedLifecycleEventV1,
};
use engine::{
    charter_lifecycle_event_commit_marker, CharterLifecycleAuthorityV1, CharterLifecycleEvent,
    CharterLifecycleEventDispositionV1, CharterLifecycleEventKind, CharterLifecycleObservation,
    CharterLifecycleRecoveryActionV1, CharterLifecycleState, CharterLifecycleStoreErrorKindV1,
};
use sha2::{Digest, Sha256};

const POLICY_FINGERPRINT: &str =
    "sha256:88caafb9caaf137647c42a91cd2762ac0871e0a20e2a1844c2c0076d5fb43cc3";
const POSTURE_TRIGGER_FINGERPRINT: &str =
    "sha256:35df6e191f201517abd07f428b87b9e3970117fb70110b801947116cb04c69f6";
const REVIEW_TRIGGER_FINGERPRINT: &str =
    "sha256:9672246337ff266fc07f67053ca053736cb0650d2ad5e053e4a19304acd48ed8";

fn fingerprint(fill: char) -> String {
    format!("sha256:{}", fill.to_string().repeat(64))
}

fn hex_digest(bytes: &[u8]) -> String {
    Sha256::digest(bytes).iter().map(|b| format!("{b:02x}")).collect()
}

fn resolved_posture_event() -> ResolvedLifecycleEventV1 {
    ResolvedLifecycleEventV1 {
        event: CharterLifecycleEvent {
            event_fingerprint: fingerprint('1'),
            basis_artifact_fingerprint: fingerprint('b'),
            kind: CharterLifecycleEventKind::ProductionPostureChanged,
            evidence_ref: "trigger-evidence/trigger-evidence_1.json".to_owned(),
            evidence_fingerprint: fingerprint('e'),
        },
        trigger_ref: "handbook.intake-trigger.production-posture-changed@1.0.0".to_owned(),
        trigger_fingerprint: POSTURE_TRIGGER_FINGERPRINT.to_owned(),
        event_kind: "production_posture_changed".to_owned(),
        observed_at_utc: "2024-01-01T00:00:00Z".to_owned(),
    }
}

fn head(active: Vec<CharterLifecycleObservation>) -> CharterLifecycleAuthorityV1 {
    let refs = active
        .iter()
        .enumerate()
        .map(|(i, _)| format!("lifecycle-observations/lifecycle-observation_{i}.json"))
        .collect::<Vec<_>>();
    let fps = active
        .iter()
        .enumerate()
        .map(|(i, _)| fingerprint(char::from(b'a' + i as u8)))
        .collect::<Vec<_>>();
    CharterLifecycleAuthorityV1 {
        canonical_fingerprint: fingerprint('b'),
        lifecycle_transition_ref: "lifecycle-transitions/lifecycle-transition_0.json".to_owned(),
        lifecycle_transition_fingerprint: fingerprint('7'),
        state: CharterLifecycleState::Current,
        state_fingerprint: fingerprint('5'),
        active_observation_refs: refs,
        active_observation_fingerprints: fps,
        active_observations: active,
        reopened_coverage_ids: Vec::new(),
    }
}

fn evidence() -> LifecycleTriggerEvidenceV1 {
    LifecycleTriggerEvidenceV1 {
        schema_id: "handbook.lifecycle-trigger-evidence".to_owned(),
        schema_version: "1.0".to_owned(),
        event_id: "trigger-evidence_1".to_owned(),
        target_instance_id: "project_authority".to_owned(),
        basis_canonical_fingerprint: fingerprint('b'),
        event_kind: "trust_boundary_changed".to_owned(),
        prior_evidence_ref: "evidence/prior".to_owned(),
        prior_evidence_fingerprint: fingerprint('c'),
        current_evidence_ref: "evidence/current".to_owned(),
        current_evidence_fingerprint: fingerprint('d'),
        observed_at_utc: "2024-02-03T04:05:06Z".to_owned(),
        extension_keys: Vec::new(),
        evidence_fingerprint: fingerprint('e'),
    }
}

#[test]
fn observation_record_is_identified_by_its_canonical_preimage() {
    let resolved = resolved_posture_event();
    let record = build_observation_record(&resolved, POLICY_FINGERPRINT, &fingerprint('b')).unwrap();
    let preimage = format!(
        "{{\"basis_canonical_fingerprint\":\"{b}\",\"event_kind\":\"production_posture_changed\",\
         \"evidence_fingerprint\":\"{e}\",\"evidence_ref\":\"trigger-evidence/trigger-evidence_1.json\",\
         \"lifecycle_policy_fingerprint\":\"{p}\",\
         \"lifecycle_policy_ref\":\"handbook.lifecycle.constitutional-review-lock@1.0.0\",\
         \"observed_at_utc\":\"2024-01-01T00:00:00Z\",\"schema_id\":\"handbook.lifecycle-observation\",\
         \"schema_version\":\"1.0\",\"target_instance_id\":\"project_authority\",\
         \"trigger_fingerprint\":\"{t}\",\
         \"trigger_ref\":\"handbook.intake-trigger.production-posture-changed@1.0.0\"}}",
        b = fingerprint('b'),
        e = fingerprint('e'),
        p = POLICY_FINGERPRINT,
        t = POSTURE_TRIGGER_FINGERPRINT,
    );
    let hex = hex_digest(preimage.as_bytes());
    assert_eq!(record.observation_fingerprint, format!("sha256:{hex}"));
    assert_eq!(record.observation_id, format!("lifecycle-observation_{hex}"));
    assert_eq!(record.basis_canonical_fingerprint, fingerprint('b'));
    assert_eq!(record.event_kind, "production_posture_changed");
}

#[test]
fn transition_record_excludes_its_audit_time_from_its_identity() {
    let build = |at: &str| {
        build_transition_record(
            POLICY_FINGERPRINT,
            CharterLifecycleState::Current,
            &fingerprint('5'),
            CharterLifecycleState::ReassessmentRequired,
            &fingerprint('6'),
            vec!["lifecycle-observations/a.json".to_owned()],
            vec!["lifecycle-observations/a.json".to_owned()],
            None,
            at,
        )
    };
    let first = build("2024-01-01T00:00:00Z").unwrap();
    let second = build("2025-06-07T08:09:10Z").unwrap();
    assert_eq!(first.transition_fingerprint, second.transition_fingerprint);
    assert_ne!(first.transitioned_at_utc, second.transitioned_at_utc);
    let preimage = format!(
        "{{\"active_observation_refs\":[\"lifecycle-observations/a.json\"],\
         \"clearance_promotion_ref\":null,\"lifecycle_policy_fingerprint\":\"{p}\",\
         \"lifecycle_policy_ref\":\"handbook.lifecycle.constitutional-review-lock@1.0.0\",\
         \"new_observation_refs\":[\"lifecycle-observations/a.json\"],\"prior_state\":\"current\",\
         \"prior_state_fingerprint\":\"{s5}\",\"result_state\":\"reassessment_required\",\
         \"result_state_fingerprint\":\"{s6}\",\"schema_id\":\"handbook.lifecycle-transition\",\
         \"schema_version\":\"1.0\",\"target_instance_id\":\"project_authority\"}}",
        p = POLICY_FINGERPRINT,
        s5 = fingerprint('5'),
        s6 = fingerprint('6'),
    );
    let hex = hex_digest(preimage.as_bytes());
    assert_eq!(first.transition_fingerprint, format!("sha256:{hex}"));
    assert_eq!(first.transition_id, format!("lifecycle-transition_{hex}"));
}

#[test]
fn transition_record_requires_a_second_precision_utc_time() {
    let refused = build_transition_record(
        POLICY_FINGERPRINT,
        CharterLifecycleState::Current,
        &fingerprint('5'),
        CharterLifecycleState::Current,
        &fingerprint('6'),
        Vec::new(),
        Vec::new(),
        Some("promotions/promotion_1.json".to_owned()),
        "2024-01-01T00:00:00.5Z",
    )
    .unwrap_err();
    assert_eq!(refused.kind(), CharterLifecycleStoreErrorKindV1::InvalidEvent);
}

#[test]
fn trigger_evidence_is_checked_for_identity_basis_and_content() {
    assert!(validate_trigger_evidence(&evidence(), &fingerprint('b')).is_ok());
    assert_eq!(
        validate_trigger_evidence(&evidence(), &fingerprint('f')).unwrap_err().kind(),
        CharterLifecycleStoreErrorKindV1::StaleBasis
    );
    let mut wrong_schema = evidence();
    wrong_schema.schema_version = "1.1".to_owned();
    assert_eq!(
        validate_trigger_evidence(&wrong_schema, &fingerprint('f')).unwrap_err().kind(),
        CharterLifecycleStoreErrorKindV1::InvalidEvent
    );
    let mut unchanged = evidence();
    unchanged.current_evidence_fingerprint = fingerprint('c');
    assert_eq!(
        validate_trigger_evidence(&unchanged, &fingerprint('b')).unwrap_err().kind(),
        CharterLifecycleStoreErrorKindV1::InvalidEvent
    );
    let mut extended = evidence();
    extended.extension_keys = vec!["vendor".to_owned()];
    assert!(validate_trigger_evidence(&extended, &fingerprint('b')).is_err());
    let mut late = evidence();
    late.observed_at_utc = "2024-02-30T04:05:06Z".to_owned();
    assert!(validate_trigger_evidence(&late, &fingerprint('b')).is_err());
}

#[test]
fn trigger_evidence_kinds_map_to_reassessment_triggers() {
    assert_eq!(
        reassessment_trigger("production_posture_changed").unwrap(),
        (
            CharterLifecycleEventKind::ProductionPostureChanged,
            "handbook.intake-trigger.production-posture-changed@1.0.0"
        )
    );
    assert_eq!(
        reassessment_trigger("trust_boundary_changed").unwrap().0,
        CharterLifecycleEventKind::TrustBoundaryChanged
    );
    assert_eq!(
        reassessment_trigger("charter_amendment_proposed").unwrap_err().kind(),
        CharterLifecycleStoreErrorKindV1::UnknownTrigger
    );
}

#[test]
fn trigger_evidence_resolves_against_the_pinned_trigger() {
    let resolved = resolve_trigger_evidence_event(
        &evidence(),
        "trigger-evidence/trigger-evidence_1.json",
        &fingerprint('9'),
        &fingerprint('b'),
    )
    .unwrap();
    assert_eq!(resolved.event.kind, CharterLifecycleEventKind::TrustBoundaryChanged);
    assert_eq!(resolved.event.event_fingerprint, fingerprint('9'));
    assert_eq!(resolved.event.evidence_fingerprint, fingerprint('e'));
    assert_eq!(resolved.trigger_ref, "handbook.intake-trigger.trust-boundary-changed@1.0.0");
    assert_eq!(
        resolved.trigger_fingerprint,
        "sha256:12950ab5172acce8b0b944f630791a4ffda4960095248fa3b5bea833f7fa4766"
    );
    let mut unknown = evidence();
    unknown.event_kind = "weather_changed".to_owned();
    assert_eq!(
        resolve_trigger_evidence_event(&unknown, "r", &fingerprint('9'), &fingerprint('b'))
            .unwrap_err()
            .kind(),
        CharterLifecycleStoreErrorKindV1::UnknownTrigger
    );
}

#[test]
fn candidate_amendments_resolve_as_reviews() {
    let resolved = resolve_amendment_event(
        "candidates/candidate_1.json",
        &fingerprint('4'),
        "2024-01-01T00:00:00Z",
        Some(&fingerprint('b')),
        &fingerprint('b'),
        true,
    )
    .unwrap();
    assert_eq!(resolved.event.kind, CharterLifecycleEventKind::Review);
    assert_eq!(resolved.event_kind, "charter_amendment_proposed");
    assert_eq!(resolved.trigger_fingerprint, REVIEW_TRIGGER_FINGERPRINT);
    assert_eq!(resolved.event.evidence_ref, "candidates/candidate_1.json");
    let stale = resolve_amendment_event(
        "c",
        &fingerprint('4'),
        "2024-01-01T00:00:00Z",
        Some(&fingerprint('a')),
        &fingerprint('b'),
        true,
    );
    assert_eq!(stale.unwrap_err().kind(), CharterLifecycleStoreErrorKindV1::StaleBasis);
    let unchanged = resolve_amendment_event(
        "c",
        &fingerprint('4'),
        "2024-01-01T00:00:00Z",
        Some(&fingerprint('b')),
        &fingerprint('b'),
        false,
    );
    assert_eq!(unchanged.unwrap_err().kind(), CharterLifecycleStoreErrorKindV1::UnknownTrigger);
    let untimed = resolve_amendment_event("c", &fingerprint('4'), "soon", None, &fingerprint('b'), true);
    assert_eq!(untimed.unwrap_err().kind(), CharterLifecycleStoreErrorKindV1::InvalidEvent);
}

fn observation(id: char, kind: CharterLifecycleEventKind) -> CharterLifecycleObservation {
    CharterLifecycleObservation {
        event_fingerprint: fingerprint(id),
        basis_artifact_fingerprint: fingerprint('b'),
        kind,
        evidence_ref: "evidence".to_owned(),
        evidence_fingerprint: fingerprint('e'),
        reopened_coverage_ids: Vec::new(),
    }
}

fn record(reference: &str, id: char, kind: CharterLifecycleEventKind) -> ActiveObservationRecordV1 {
    ActiveObservationRecordV1 {
        reference: reference.to_owned(),
        fingerprint: fingerprint(id),
        observation: observation(id, kind),
    }
}

#[test]
fn active_records_order_changes_before_reviews_then_by_fingerprint() {
    let ordered = order_active_records(vec![
        record("r3", '3', CharterLifecycleEventKind::Review),
        record("p2", '2', CharterLifecycleEventKind::TrustBoundaryChanged),
        record("r1", '1', CharterLifecycleEventKind::Review),
        record("p4", '4', CharterLifecycleEventKind::ProductionPostureChanged),
    ]);
    let refs = ordered.iter().map(|r| r.reference.as_str()).collect::<Vec<_>>();
    assert_eq!(refs, vec!["p2", "p4", "r1", "r3"]);
}

#[test]
fn a_new_event_is_staged_with_its_records() {
    let authority = head(Vec::new());
    let staging = stage_lifecycle_event(&authority, &resolved_posture_event(), POLICY_FINGERPRINT).unwrap();
    match staging {
        LifecycleEventStagingV1::Staged { plan, transition } => {
            assert_eq!(transition.result_state, CharterLifecycleState::ReassessmentRequired);
            assert_eq!(plan.event_id, format!("lifecycle-event-{}", "1".repeat(64)));
            assert_eq!(
                plan.observation_ref,
                format!("lifecycle-observations/{}.json", plan.observation.observation_id)
            );
            assert_eq!(plan.active_records.len(), 1);
            assert_eq!(plan.transition.new_observation_refs, vec![plan.observation_ref.clone()]);
            assert_eq!(plan.transition.active_observation_refs, vec![plan.observation_ref.clone()]);
            assert_eq!(plan.transition.prior_state, CharterLifecycleState::Current);
            assert_eq!(plan.transition.prior_state_fingerprint, fingerprint('5'));
            assert_eq!(plan.transition.result_state_fingerprint, plan.result_state_fingerprint);
            assert_eq!(
                plan.transition_ref,
                format!("lifecycle-transitions/{}.json", plan.transition.transition_id)
            );
            let observation_bytes = b"observation".to_vec();
            let transition_bytes = b"transition".to_vec();
            let intent = event_intent_record(
                &authority,
                &resolved_posture_event(),
                &plan,
                &observation_bytes,
                &transition_bytes,
            );
            assert_eq!(intent.transaction_id, plan.event_id);
            assert_eq!(intent.prior_state_fingerprint, fingerprint('5'));
            assert_eq!(
                intent.observation_staged_fingerprint,
                format!("sha256:{}", hex_digest(&observation_bytes))
            );
            let bytes = event_intent_bytes(&intent).unwrap();
            assert!(bytes.starts_with(b"{\"canonical_fingerprint\":"));
        }
        LifecycleEventStagingV1::Replayed(_) => panic!("a new event must be staged"),
    }
}

#[test]
fn an_active_event_replays_the_head() {
    let authority = head(vec![observation('1', CharterLifecycleEventKind::ProductionPostureChanged)]);
    match stage_lifecycle_event(&authority, &resolved_posture_event(), POLICY_FINGERPRINT).unwrap() {
        LifecycleEventStagingV1::Replayed(commit) => {
            assert_eq!(commit.disposition, CharterLifecycleEventDispositionV1::Replayed);
            assert_eq!(commit.observation_ref, None);
            assert_eq!(commit.transition_ref, authority.lifecycle_transition_ref);
            assert_eq!(commit.state_fingerprint, fingerprint('5'));
        }
        LifecycleEventStagingV1::Staged { .. } => panic!("an active event must replay"),
    }
    assert_eq!(replayed_event_commit(&authority).state, CharterLifecycleState::Current);
}

#[test]
fn a_stale_event_is_refused_as_stale() {
    let authority = head(vec![observation('2', CharterLifecycleEventKind::Review)]);
    let mut resolved = resolved_posture_event();
    resolved.event.basis_artifact_fingerprint = fingerprint('c');
    let refused = stage_lifecycle_event(&authority, &resolved, POLICY_FINGERPRINT);
    assert_eq!(
        refused.err().map(|e| e.kind()),
        Some(CharterLifecycleStoreErrorKindV1::StaleBasis)
    );
}

#[test]
fn lifecycle_event_ids_carry_the_event_hex() {
    assert_eq!(lifecycle_event_id(&fingerprint('a')), format!("lifecycle-event-{}", "a".repeat(64)));
}

#[test]
fn pending_recovery_follows_the_journal() {
    let authority = head(Vec::new());
    let plan = match stage_lifecycle_event(&authority, &resolved_posture_event(), POLICY_FINGERPRINT).unwrap() {
        LifecycleEventStagingV1::Staged { plan, .. } => plan,
        LifecycleEventStagingV1::Replayed(_) => panic!("expected staging"),
    };
    let intent = event_intent_record(&authority, &resolved_posture_event(), &plan, b"o", b"t");
    let raw = b"raw intent".to_vec();
    let staged = pending_recovery_step(&authority, &intent, &raw, None, false, false, true, true).unwrap();
    assert_eq!(staged.action, CharterLifecycleRecoveryActionV1::InstallBothAndCommit);
    assert!(staged.install_observation && staged.install_transition);
    let half = pending_recovery_step(&authority, &intent, &raw, None, true, false, true, true).unwrap();
    assert_eq!(half.action, CharterLifecycleRecoveryActionV1::InstallMissingAndCommit);
    assert!(!half.install_observation && half.install_transition);
    let marker = charter_lifecycle_event_commit_marker(&raw);
    let done = pending_recovery_step(&authority, &intent, &raw, Some(&marker), true, true, false, false)
        .unwrap();
    assert_eq!(done.action, CharterLifecycleRecoveryActionV1::Finalize);
    let forged = pending_recovery_step(&authority, &intent, &raw, Some(b"forged"), true, true, false, false);
    assert_eq!(
        forged.unwrap_err().kind(),
        CharterLifecycleStoreErrorKindV1::DurabilityViolation
    );
    let mut moved = authority.clone();
    moved.state_fingerprint = fingerprint('6');
    let stale = pending_recovery_step(&moved, &intent, &raw, None, false, false, true, true);
    assert_eq!(stale.unwrap_err().kind(), CharterLifecycleStoreErrorKindV1::DurabilityViolation);
    let finalize_anyway =
        pending_recovery_step(&moved, &intent, &raw, Some(&marker), true, true, false, false).unwrap();
    assert_eq!(finalize_anyway.action, CharterLifecycleRecoveryActionV1::Finalize);
}

#[test]
fn the_store_keeps_its_root_and_names_journal_entries() {
    let store = CharterLifecycleStoreV1::new(std::path::PathBuf::from("/tmp/repo"));
    assert_eq!(store.repo_root(), &std::path::PathBuf::from("/tmp/repo"));
    assert_eq!(LIFECYCLE_EVENT_JOURNAL, ".handbook/state/transactions/lifecycle-events");
    assert_eq!(journal_entry_name("lifecycle-event_abc", false), "lifecycle-event_abc.pending");
    assert_eq!(journal_entry_name("lifecycle-event_abc", true), "lifecycle-event_abc.committed");
}

fn link(canonical: &str, prior: &str, next: &str) -> CommittedLifecycleLinkV1 {
    CommittedLifecycleLinkV1 {
        canonical_fingerprint: canonical.to_owned(),
        prior_transition_ref: format!("t/{prior}.json"),
        prior_transition_fingerprint: format!("fp-{prior}"),
        transition_ref: format!("t/{next}.json"),
        transition_fingerprint: format!("fp-{next}"),
    }
}

#[test]
fn committed_history_walks_from_the_anchor_to_its_exact_head() {
    let head = |links: &Vec<CommittedLifecycleLinkV1>| resolve_committed_head("c", "t/a.json", "fp-a", links);
    assert_eq!(head(&Vec::new()).unwrap(), ("t/a.json".to_owned(), "fp-a".to_owned()));
    let chain = vec![link("c", "b", "c"), link("other", "x", "y"), link("c", "a", "b")];
    assert_eq!(head(&chain).unwrap(), ("t/c.json".to_owned(), "fp-c".to_owned()));
    let fork = vec![link("c", "a", "b"), link("c", "a", "d")];
    assert_eq!(head(&fork).unwrap_err().kind(), CharterLifecycleStoreErrorKindV1::DurabilityViolation);
    assert_eq!(head(&fork).unwrap_err().detail(), "committed lifecycle history contains a forked prior head");
    let mut broken = link("c", "a", "b");
    broken.prior_transition_fingerprint = "fp-other".to_owned();
    assert_eq!(
        head(&vec![broken]).unwrap_err().detail(),
        "committed lifecycle history prior fingerprint is discontinuous"
    );
    let stray = vec![link("c", "a", "b"), link("c", "x", "y")];
    assert_eq!(
        head(&stray).unwrap_err().detail(),
        "committed lifecycle history contains unreachable transitions or exceeds its bound"
    );
}
