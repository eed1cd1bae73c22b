use engine::context_resolution::{
    recovery_candidate_cardinality, ContextResolutionAuthorityUse, ContextResolutionDimensions,
    ContextResolutionEnvelopeInput, ContextResolutionEscalationDisposition,
    ContextResolutionEscalationOutcome, ContextResolutionExactBinding,
    ContextResolutionKernelErrorKind, ContextResolutionMutationEffect,
    ContextResolutionMutationRule, ContextResolutionSemanticMemoryTarget,
};

#[test]
fn zero_and_multiple_candidates_refuse_exactly() {
    assert_eq!(recovery_candidate_cardinality(&[]), ("candidate_missing", None, None));
    let candidates = vec![
        ("a".to_owned(), "sha256:a".to_owned()),
        ("b".to_owned(), "sha256:b".to_owned()),
    ];
    assert_eq!(recovery_candidate_cardinality(&candidates), ("candidate_ambiguous", None, None));
}

#[test]
fn one_candidate_is_available_for_retry() {
    let candidates = vec![("a".to_owned(), "sha256:a".to_owned())];
    assert_eq!(
        recovery_candidate_cardinality(&candidates),
        ("retry_available", Some("a".to_owned()), Some("sha256:a".to_owned()))
    );
}

fn fingerprint(fill: char) -> String {
    format!("sha256:{}", fill.to_string().repeat(64))
}

fn binding(reference: &str, fill: char) -> ContextResolutionExactBinding {
    ContextResolutionExactBinding::new(reference, &fingerprint(fill)).unwrap()
}

#[test]
fn exact_bindings_need_a_bounded_token_and_a_fingerprint() {
    let b = binding("profiles/project", 'a');
    assert_eq!(b.reference(), "profiles/project");
    assert_eq!(b.fingerprint(), fingerprint('a'));
    let error = ContextResolutionExactBinding::new("has space", &fingerprint('a')).unwrap_err();
    assert_eq!(error.kind(), ContextResolutionKernelErrorKind::InvalidInput);
    assert_eq!(error.detail(), "exact binding reference is invalid");
    assert!(ContextResolutionExactBinding::new("", &fingerprint('a')).is_err());
    assert!(ContextResolutionExactBinding::new(&"r".repeat(1025), &fingerprint('a')).is_err());
    assert!(ContextResolutionExactBinding::new(&"r".repeat(1024), &fingerprint('a')).is_ok());
    let error = ContextResolutionExactBinding::new("ref", "sha256:xyz").unwrap_err();
    assert_eq!(error.detail(), "exact binding fingerprint is invalid");
}

#[test]
fn authority_uses_have_snake_case_names() {
    assert_eq!(ContextResolutionAuthorityUse::RootCreation.as_str(), "root_creation");
    assert_eq!(ContextResolutionAuthorityUse::TriggerCondition.as_str(), "trigger_condition");
    assert_eq!(ContextResolutionAuthorityUse::TargetMemory.as_str(), "target_memory");
}

#[test]
fn dimensions_hold_six_bounded_values() {
    let values = ["a", "b", "c", "d", "e", "f"];
    let dimensions = ContextResolutionDimensions::new(values).unwrap();
    assert_eq!(dimensions.values(), values);
    let error = ContextResolutionDimensions::new(["a", "b", "", "d", "e", "f"]).unwrap_err();
    assert_eq!(error.detail(), "context resolution dimension value is invalid");
    let long = "x".repeat(129);
    assert!(ContextResolutionDimensions::new(["a", "b", "c", "d", "e", long.as_str()]).is_err());
}

fn rule(id: &str, effect: ContextResolutionMutationEffect, selector: &str) -> ContextResolutionMutationRule {
    ContextResolutionMutationRule::new(id, effect, "repository_path", selector).unwrap()
}

#[test]
fn selectors_are_checked_segment_by_segment() {
    for selector in ["src/**", "src/*.rs", "docs/a-b_c.md", "**", "a/b/c"] {
        assert!(
            ContextResolutionMutationRule::new("r1", ContextResolutionMutationEffect::Allow, "repository_path", selector).is_ok(),
            "{selector}"
        );
    }
    for selector in ["", "/src", "src/", "a//b", "a/./b", "a/../b", "..", "**/a", "a**", "a/***", "a b", "a\\b", "a:b"] {
        let error = ContextResolutionMutationRule::new("r1", ContextResolutionMutationEffect::Allow, "repository_path", selector).unwrap_err();
        assert_eq!(error.kind(), ContextResolutionKernelErrorKind::Indeterminate, "{selector}");
        assert_eq!(error.detail(), "mutation selector is malformed");
    }
    let deep = vec!["a"; 65].join("/");
    assert!(ContextResolutionMutationRule::new("r1", ContextResolutionMutationEffect::Deny, "repository_path", &deep).is_err());
    let deep = vec!["a"; 64].join("/");
    assert!(ContextResolutionMutationRule::new("r1", ContextResolutionMutationEffect::Deny, "repository_path", &deep).is_ok());
}

#[test]
fn rule_ids_and_target_kinds_are_checked_first() {
    let error = ContextResolutionMutationRule::new("bad id", ContextResolutionMutationEffect::Allow, "other", "//").unwrap_err();
    assert_eq!(error.kind(), ContextResolutionKernelErrorKind::InvalidInput);
    assert_eq!(error.detail(), "mutation rule ID is invalid");
    let error = ContextResolutionMutationRule::new("r1", ContextResolutionMutationEffect::Allow, "other", "//").unwrap_err();
    assert_eq!(error.kind(), ContextResolutionKernelErrorKind::Indeterminate);
    assert_eq!(error.detail(), "mutation target kind is not admitted");
}

fn envelope(
    constraint_inputs: Vec<ContextResolutionExactBinding>,
    mutation_rules: Vec<ContextResolutionMutationRule>,
) -> Result<ContextResolutionEnvelopeInput, engine::context_resolution::ContextResolutionKernelError> {
    ContextResolutionEnvelopeInput::new(
        "envelope-1",
        "objectives/ship",
        binding("profiles/project", '1'),
        binding("stacks/default", '2'),
        "level-1",
        ContextResolutionDimensions::new(["a", "b", "c", "d", "e", "f"]).unwrap(),
        None,
        constraint_inputs,
        mutation_rules,
        Vec::new(),
    )
}

#[test]
fn envelope_inputs_are_named_by_their_fingerprint() {
    let first = envelope(vec![binding("constraints/a", '3')], Vec::new()).unwrap();
    let again = envelope(vec![binding("constraints/a", '3')], Vec::new()).unwrap();
    let other = envelope(vec![binding("constraints/b", '3')], Vec::new()).unwrap();
    assert_eq!(
        first.candidate_binding().reference(),
        "context-resolution-envelope-candidate/envelope-1"
    );
    assert_eq!(first.candidate_binding(), again.candidate_binding());
    assert_ne!(first.candidate_binding().fingerprint(), other.candidate_binding().fingerprint());
}

#[test]
fn envelope_inputs_refuse_unordered_constraints_and_duplicate_rules() {
    let error = envelope(vec![binding("constraints/b", '3'), binding("constraints/a", '3')], Vec::new())
        .unwrap_err();
    assert_eq!(error.detail(), "constraint inputs must be strictly ordered and unique");
    let error = envelope(vec![binding("constraints/a", '3'), binding("constraints/a", '4')], Vec::new())
        .unwrap_err();
    assert_eq!(error.detail(), "constraint inputs must be strictly ordered and unique");
    let error = envelope(
        Vec::new(),
        vec![
            rule("r1", ContextResolutionMutationEffect::Allow, "src/**"),
            rule("r1", ContextResolutionMutationEffect::Deny, "docs/**"),
        ],
    )
    .unwrap_err();
    assert_eq!(error.detail(), "mutation rule ID is duplicated");
    assert!(envelope(
        Vec::new(),
        vec![
            rule("r1", ContextResolutionMutationEffect::Allow, "src/**"),
            rule("r2", ContextResolutionMutationEffect::Deny, "docs/**"),
        ],
    )
    .is_ok());
}

#[test]
fn escalation_dispositions_match_their_outcome() {
    let approved = ContextResolutionEscalationDisposition::new(
        "disposition-1",
        binding("requests/r", '1'),
        ContextResolutionEscalationOutcome::Approved,
        binding("decisions/d", '2'),
        Some(binding("envelopes/e", '3')),
        None,
    )
    .unwrap();
    assert_eq!(
        approved.exact_binding().reference(),
        "context-resolution-escalation-disposition/disposition-1"
    );
    let error = ContextResolutionEscalationDisposition::new(
        "disposition-1",
        binding("requests/r", '1'),
        ContextResolutionEscalationOutcome::Refused,
        binding("decisions/d", '2'),
        Some(binding("envelopes/e", '3')),
        None,
    )
    .unwrap_err();
    assert_eq!(error.detail(), "escalation disposition outcome fields are inconsistent");
    let error = ContextResolutionEscalationDisposition::new(
        "bad id",
        binding("requests/r", '1'),
        ContextResolutionEscalationOutcome::Refused,
        binding("decisions/d", '2'),
        None,
        None,
    )
    .unwrap_err();
    assert_eq!(error.detail(), "escalation disposition ID is invalid");
}

#[test]
fn semantic_memory_targets_must_be_typed_memory() {
    let target = ContextResolutionSemanticMemoryTarget::new("semantic-memory.team", None).unwrap();
    assert_eq!(
        target.candidate_binding().reference(),
        "context-resolution-semantic-memory-target/semantic-memory.team"
    );
    let expected = fingerprint('a');
    let pinned =
        ContextResolutionSemanticMemoryTarget::new("semantic-memory.team", Some(expected.as_str())).unwrap();
    assert_ne!(target.candidate_binding().fingerprint(), pinned.candidate_binding().fingerprint());
    let error = ContextResolutionSemanticMemoryTarget::new("notes/team", None).unwrap_err();
    assert_eq!(error.kind(), ContextResolutionKernelErrorKind::ForbiddenTarget);
    assert!(ContextResolutionSemanticMemoryTarget::new("semantic-memory.a..b", None).is_err());
    let error =
        ContextResolutionSemanticMemoryTarget::new("semantic-memory.team", Some("sha256:no")).unwrap_err();
    assert_eq!(error.kind(), ContextResolutionKernelErrorKind::InvalidInput);
    let error = ContextResolutionSemanticMemoryTarget::new("semantic-memory.with space", None).unwrap_err();
    assert_eq!(error.detail(), "exact binding reference is invalid");
}
