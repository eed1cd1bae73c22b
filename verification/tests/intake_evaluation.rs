use engine::charter_intake::{
    CharterAcquisitionMode, CharterCoverageSubmission, CharterIntakeConsumer, CharterIntakeErrorKind,
    CharterIntakeSourceKind,
};
use engine::charter_intake_assembly::{evaluate_charter_intake, CharterIntakeEnvelope};
use sha2::{Digest, Sha256};

const PROFILE_REF: &str = "handbook.profile.shipped-root@1.1.0";
const PROFILE_FINGERPRINT: &str =
    "sha256:6a7b41befa77b999b9ee20f513636051726a8401a81bf2f369501e8f3dd4fa74";
const COVERAGE: [&str; 16] = [
    "project_shape.definition",
    "delivery.constraints",
    "delivery.default_implications",
    "operational_reality.production_state",
    "risk.domains",
    "engineering_posture.baseline",
    "policy.authority_and_revision",
    "governance.decision_authority",
    "governance.required_approvals",
    "governance.exception_policy",
    "engineering_posture.dimensions",
    "engineering_posture.red_lines",
    "governance.review_triggers",
    "governance.reassessment_triggers",
    "debt.register",
    "decisions.records",
];

fn submission(id: &str) -> CharterCoverageSubmission {
    CharterCoverageSubmission {
        coverage_id: id.to_owned(),
        source_kind: CharterIntakeSourceKind::UserDeclaration,
        value_ref: format!("answers/{id}"),
        evidence_refs: Vec::new(),
        confidence: "high".to_owned(),
        freshness: None,
        sensitivity: "internal".to_owned(),
        contradiction_refs: Vec::new(),
        waiver_ref: None,
    }
}

fn envelope(expected: Option<String>) -> CharterIntakeEnvelope {
    let mut coverage = COVERAGE.iter().rev().map(|id| submission(id)).collect::<Vec<_>>();
    coverage[1].source_kind = CharterIntakeSourceKind::EvidencedInference;
    coverage[1].evidence_refs = vec!["evidence/debt".to_owned()];
    CharterIntakeEnvelope {
        mode: CharterAcquisitionMode::GuidedAdaptive,
        coverage,
        consumer: CharterIntakeConsumer {
            kind: "agent".to_owned(),
            id: "handbook-cli".to_owned(),
            version: "1.0.0".to_owned(),
        },
        prompt_event_refs: vec!["prompts/1".to_owned()],
        finalized_at_utc: "2024-01-01T00:00:00Z".to_owned(),
        expected_current_fingerprint: expected,
    }
}

fn leaves() -> Vec<String> {
    ["/schema_id", "/project/name", "/domains/0/id", "/policy/revision", "/debt/0"]
        .iter()
        .map(|s| s.to_string())
        .collect()
}

#[test]
fn an_intake_becomes_an_intake_record_and_a_candidate() {
    let content = b"schema_id: handbook.project-authority\n".to_vec();
    let bundle = evaluate_charter_intake(
        PROFILE_REF,
        PROFILE_FINGERPRINT,
        &envelope(None),
        &leaves(),
        Some(content.clone()),
        None,
    )
    .unwrap();
    let intake = &bundle.intake;
    let candidate = &bundle.candidate;
    assert_eq!(intake.coverage_results.len(), 16);
    assert_eq!(intake.coverage_results[0].coverage_id, "project_shape.definition");
    assert_eq!(intake.coverage_results[15].coverage_id, "decisions.records");
    assert_eq!(intake.coverage_results[14].source_kind, CharterIntakeSourceKind::EvidencedInference);
    assert_eq!(intake.coverage_results[15].source_kind, CharterIntakeSourceKind::UserDeclaration);
    assert_eq!(intake.coverage_results[3].evaluation, "satisfied");
    let hex = intake.record_fingerprint.strip_prefix("sha256:").unwrap();
    assert_eq!(intake.intake_record_id, format!("intake_{hex}"));
    assert_eq!(candidate.intake_record_ref, format!("intake-records/intake_{hex}.json"));
    let digest: String = Sha256::digest(&content).iter().map(|b| format!("{b:02x}")).collect();
    assert_eq!(candidate.normalized_content_ref, format!("candidate-content/charter_{digest}.yaml"));
    let paths = candidate.field_sources.iter().map(|f| f.target_path.as_str()).collect::<Vec<_>>();
    assert_eq!(paths, vec!["/debt/0", "/domains/0/id", "/policy/revision", "/project/name"]);
    assert_eq!(candidate.field_sources[0].coverage_id, "debt.register");
    assert_eq!(candidate.field_sources[0].source_kind, CharterIntakeSourceKind::EvidencedInference);
    assert_eq!(candidate.field_sources[3].coverage_id, "project_shape.definition");
    let candidate_hex = candidate.candidate_fingerprint.strip_prefix("sha256:").unwrap();
    assert_eq!(candidate.candidate_id, format!("candidate_{candidate_hex}"));
    assert_eq!(candidate.promotion_eligibility, "requires_approval");
    assert_eq!(bundle.normalized_content, content);
}

#[test]
fn intake_identity_ignores_the_finalization_time() {
    let content = b"charter".to_vec();
    let first = evaluate_charter_intake(PROFILE_REF, PROFILE_FINGERPRINT, &envelope(None), &leaves(), Some(content.clone()), None).unwrap();
    let mut later = envelope(None);
    later.finalized_at_utc = "2025-05-05T05:05:05Z".to_owned();
    let second = evaluate_charter_intake(PROFILE_REF, PROFILE_FINGERPRINT, &later, &leaves(), Some(content), None).unwrap();
    assert_eq!(first.intake.record_fingerprint, second.intake.record_fingerprint);
    assert_eq!(first.candidate.candidate_fingerprint, second.candidate.candidate_fingerprint);
}

#[test]
fn intake_refusals_come_in_order() {
    let kind = |envelope: &CharterIntakeEnvelope, leaves: &Vec<String>, content: Option<Vec<u8>>, observed: Option<&str>| {
        match evaluate_charter_intake(PROFILE_REF, PROFILE_FINGERPRINT, envelope, leaves, content, observed) {
            Ok(_) => panic!("expected a refusal"),
            Err(e) => e.kind(),
        }
    };
    let current = format!("sha256:{}", "c".repeat(64));
    assert_eq!(kind(&envelope(None), &leaves(), None, Some(&current)), CharterIntakeErrorKind::BasisMismatch);
    let mut short = envelope(None);
    short.coverage.pop();
    assert_eq!(kind(&short, &leaves(), None, None), CharterIntakeErrorKind::CoverageMismatch);
    assert_eq!(kind(&envelope(None), &leaves(), None, None), CharterIntakeErrorKind::CandidateContentInvalid);
    let mut anonymous = envelope(Some(current.clone()));
    anonymous.consumer.id = "  ".to_owned();
    assert_eq!(kind(&anonymous, &leaves(), Some(b"x".to_vec()), Some(&current)), CharterIntakeErrorKind::CoverageMismatch);
    let stray = vec!["/unowned/leaf".to_owned()];
    assert_eq!(kind(&envelope(None), &stray, Some(b"x".to_vec()), None), CharterIntakeErrorKind::CoverageMismatch);
}
