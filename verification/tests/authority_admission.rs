use engine::context_resolution::{
    authority_challenge, hcm_authorized_outer_hex, length_prefixed_bytes, publication_gap_disposition,
    publication_holder_count, sign_counter_advances, AuthorityChallengeContextV1,
    ContextResolutionAuthorityUse, ContextResolutionExactBinding, PublicationGapObservationV1,
    PublisherApprovalMappingV1, PublisherCredentialV1,
};
use sha2::{Digest, Sha256};

fn fingerprint(fill: char) -> String {
    format!("sha256:{}", fill.to_string().repeat(64))
}

#[test]
fn authorization_operation_ids_name_an_outer_artifact() {
    let hex = "ab".repeat(32);
    assert_eq!(hcm_authorized_outer_hex(&format!("hcm32-authorize-{hex}")), Some(hex.clone()));
    assert_eq!(hcm_authorized_outer_hex(&format!("hcm32-authorize-{}", "AB".repeat(32))), None);
    assert_eq!(hcm_authorized_outer_hex(&format!("hcm32-authorize-{}", "a".repeat(63))), None);
    assert_eq!(hcm_authorized_outer_hex(&format!("hcm31-authorize-{hex}")), None);
}

fn credential(status: Option<&str>, mappings: Vec<(&str, &str)>) -> PublisherCredentialV1 {
    PublisherCredentialV1 {
        status: status.map(str::to_owned),
        approval_mappings: mappings
            .into_iter()
            .map(|(class, authority)| PublisherApprovalMappingV1 {
                approval_class: Some(class.to_owned()),
                authority_ref: Some(authority.to_owned()),
            })
            .collect(),
    }
}

#[test]
fn publication_holders_are_active_credentials_with_the_mapping() {
    let pair = "context-resolution-authority/abc";
    let credentials = vec![
        credential(Some("active"), vec![("context_resolution_authority_publication", pair)]),
        credential(Some("revoked"), vec![("context_resolution_authority_publication", pair)]),
        credential(Some("active"), vec![("charter", pair)]),
        credential(None, vec![("context_resolution_authority_publication", pair)]),
        credential(Some("active"), vec![("charter", "x"), ("context_resolution_authority_publication", pair)]),
    ];
    assert_eq!(publication_holder_count(&credentials, pair), 2);
    assert_eq!(publication_holder_count(&credentials, "context-resolution-authority/other"), 0);
}

fn observation(flags: [bool; 5]) -> PublicationGapObservationV1 {
    PublicationGapObservationV1 {
        installed_without_commit: flags[0],
        journal_conflict: flags[1],
        registry_delta_ambiguous: flags[2],
        predecessor_mismatch: flags[3],
        candidate_invalid: flags[4],
    }
}

#[test]
fn publication_gaps_are_quarantined_by_precedence() {
    let one = vec![("candidates/c.json".to_owned(), fingerprint('c'))];
    let installed = publication_gap_disposition(observation([true, true, true, true, true]), &one);
    assert_eq!((installed.phase, installed.reason), ("installed_without_commit", "installed_result_ambiguous"));
    assert!(installed.records_journal_transaction);
    assert_eq!(installed.candidate_ref, None);
    let conflict = publication_gap_disposition(observation([false, true, true, false, false]), &one);
    assert_eq!((conflict.phase, conflict.reason), ("generic_pending", "journal_conflict"));
    assert!(conflict.records_journal_transaction);
    let ambiguous = publication_gap_disposition(observation([false, false, true, true, false]), &one);
    assert_eq!(ambiguous.reason, "registry_delta_ambiguous");
    assert!(!ambiguous.records_journal_transaction);
    let mismatch = publication_gap_disposition(observation([false, false, false, true, true]), &[]);
    assert_eq!(mismatch.reason, "predecessor_mismatch");
    let invalid = publication_gap_disposition(observation([false, false, false, false, true]), &[]);
    assert_eq!(invalid.reason, "candidate_invalid");
    let retry = publication_gap_disposition(observation([false, false, false, false, true]), &one);
    assert_eq!(retry.phase, "authorized_without_generic_intent");
    assert_eq!(retry.reason, "retry_available");
    assert_eq!(retry.candidate_ref, Some("candidates/c.json".to_owned()));
    assert_eq!(retry.candidate_fingerprint, Some(fingerprint('c')));
    let missing = publication_gap_disposition(observation([false; 5]), &[]);
    assert_eq!(missing.reason, "candidate_missing");
}

#[test]
fn length_prefixed_parts_carry_big_endian_lengths() {
    let bytes = length_prefixed_bytes(&vec![b"ab".to_vec(), Vec::new(), vec![7u8]]);
    assert_eq!(
        bytes,
        vec![0, 0, 0, 0, 0, 0, 0, 2, b'a', b'b', 0, 0, 0, 0, 0, 0, 0, 0, 0, 0, 0, 0, 0, 0, 0, 1, 7]
    );
}

#[test]
fn the_authority_challenge_digests_its_length_prefixed_parts() {
    let context = AuthorityChallengeContextV1 {
        repository_identity_fingerprint: fingerprint('1'),
        registry_state_ref: "registry/state.json".to_owned(),
        registry_state_fingerprint: fingerprint('2'),
        registry_transition_ref: "registry/transition.json".to_owned(),
        registry_transition_fingerprint: fingerprint('3'),
        outer_artifact_fingerprint: fingerprint('4'),
        declaration_byte_fingerprint: fingerprint('5'),
        payload_byte_fingerprint: fingerprint('6'),
        semantic_binding_fingerprint: fingerprint('7'),
    };
    let subject = ContextResolutionExactBinding::new("subjects/one", &fingerprint('8')).unwrap();
    let nonce = [9u8; 32];
    let challenge = authority_challenge(&nonce, &context, ContextResolutionAuthorityUse::Parent, &subject);
    let mut preimage = Vec::new();
    let subject_fingerprint = fingerprint('8');
    let parts: Vec<&[u8]> = vec![
        b"handbook.context-resolution-authority.challenge.v1",
        &nonce,
        context.repository_identity_fingerprint.as_bytes(),
        context.registry_state_ref.as_bytes(),
        context.registry_state_fingerprint.as_bytes(),
        context.registry_transition_ref.as_bytes(),
        context.registry_transition_fingerprint.as_bytes(),
        context.outer_artifact_fingerprint.as_bytes(),
        context.declaration_byte_fingerprint.as_bytes(),
        context.payload_byte_fingerprint.as_bytes(),
        context.semantic_binding_fingerprint.as_bytes(),
        b"parent",
        b"subjects/one",
        subject_fingerprint.as_bytes(),
    ];
    for part in parts {
        preimage.extend_from_slice(&(part.len() as u64).to_be_bytes());
        preimage.extend_from_slice(part);
    }
    assert_eq!(challenge, Sha256::digest(&preimage).to_vec());
    let other = authority_challenge(&[0u8; 32], &context, ContextResolutionAuthorityUse::Parent, &subject);
    assert_ne!(challenge, other);
}

#[test]
fn sign_counters_must_advance_unless_both_are_zero() {
    assert!(sign_counter_advances(0, 0, 0));
    assert!(sign_counter_advances(5, 5, 6));
    assert!(!sign_counter_advances(5, 5, 5));
    assert!(!sign_counter_advances(5, 9, 7));
    assert!(!sign_counter_advances(3, 0, 0));
    assert!(sign_counter_advances(0, 2, 3));
}
