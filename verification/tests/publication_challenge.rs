use base64::Engine;
use engine::charter_runtime_vectors::{value_text_of, JsonMember, JsonValue};
use engine::context_resolution::{
    authority_admission_step, build_publication_quarantine, hcm_challenge_operation_id,
    publication_assertion_ref, publication_quarantine_refusal, strict_base64,
    AuthorityAdmissionStepV1, AuthorityCapsuleIdentityV1, ContextResolutionKernelErrorKind,
};

fn challenge(operation_id: &str) -> JsonValue {
    JsonValue::Object(vec![
        JsonMember { key: "nonce".to_owned(), value: JsonValue::Str("n".to_owned()) },
        JsonMember { key: "operation_id".to_owned(), value: JsonValue::Str(operation_id.to_owned()) },
    ])
}

fn encoded(value: &JsonValue) -> String {
    let text: String = value_text_of(value).into_iter().collect();
    let canonical = serde_json_canonicalizer::pipe(&text).unwrap();
    base64::engine::general_purpose::STANDARD.encode(canonical.as_bytes())
}

#[test]
fn strict_base64_decodes_only_exact_padded_text() {
    assert_eq!(strict_base64("aGk=", "challenge").unwrap(), b"hi".to_vec());
    assert_eq!(
        strict_base64("aGk", "challenge").unwrap_err(),
        "challenge is not standard padded base64"
    );
    assert_eq!(strict_base64("", "challenge").unwrap_err(), "challenge is not byte-identical standard padded base64");
    assert!(strict_base64("aGl=", "challenge").is_err());
}

#[test]
fn a_sound_challenge_names_the_outer_artifact_it_authorizes() {
    let hex = "ab".repeat(32);
    let value = challenge(&format!("hcm32-authorize-{hex}"));
    assert_eq!(hcm_challenge_operation_id(&encoded(&value), &value).unwrap(), Some(hex));
    let other = challenge("hcm32-publish-something");
    assert_eq!(hcm_challenge_operation_id(&encoded(&other), &other).unwrap(), None);
    let error = hcm_challenge_operation_id(&encoded(&other), &value).unwrap_err();
    assert_eq!(error.kind(), ContextResolutionKernelErrorKind::AuthorityRefused);
    assert_eq!(error.detail(), "HCM publication challenge is not byte-identical JCS");
    assert!(hcm_challenge_operation_id("not base64!", &value).is_err());
}

fn identity(fill: char) -> AuthorityCapsuleIdentityV1 {
    let f = format!("sha256:{}", fill.to_string().repeat(64));
    AuthorityCapsuleIdentityV1 {
        outer_artifact_fingerprint: f.clone(),
        declaration_byte_fingerprint: f.clone(),
        payload_byte_fingerprint: f.clone(),
        semantic_binding_fingerprint: f.clone(),
        registry_transition_fingerprint: f,
    }
}

#[test]
fn admission_reuses_a_cached_subject_only_with_its_bytes() {
    let a = identity('a');
    assert_eq!(authority_admission_step(Some("sha256:x"), "sha256:x", &a, &a).unwrap(), AuthorityAdmissionStepV1::UseCached);
    let error = authority_admission_step(Some("sha256:x"), "sha256:y", &a, &a).unwrap_err();
    assert_eq!(error.kind(), ContextResolutionKernelErrorKind::ReplayMismatch);
    assert_eq!(authority_admission_step(None, "sha256:y", &a, &a).unwrap(), AuthorityAdmissionStepV1::AdmitFresh);
    let mut moved = identity('a');
    moved.registry_transition_fingerprint = format!("sha256:{}", "b".repeat(64));
    let error = authority_admission_step(None, "sha256:y", &moved, &a).unwrap_err();
    assert_eq!(error.kind(), ContextResolutionKernelErrorKind::StaleAuthority);
    assert_eq!(error.detail(), "context resolution authority binding changed");
}

#[test]
fn only_a_mapping_update_names_a_publication_assertion() {
    let transition = |op: &str| {
        JsonValue::Object(vec![
            JsonMember { key: "authorization_fingerprint".to_owned(), value: JsonValue::Str("sha256:f".to_owned()) },
            JsonMember { key: "authorization_ref".to_owned(), value: JsonValue::Str("assertions/a.json".to_owned()) },
            JsonMember { key: "operation".to_owned(), value: JsonValue::Str(op.to_owned()) },
        ])
    };
    assert_eq!(
        publication_assertion_ref(&transition("update_mapping")),
        Some(("assertions/a.json".to_owned(), "sha256:f".to_owned()))
    );
    assert_eq!(publication_assertion_ref(&transition("enroll")), None);
    assert_eq!(publication_assertion_ref(&JsonValue::Null), None);
}

#[test]
fn a_quarantine_record_is_keyed_by_the_outer_artifact_and_fingerprinted() {
    let outer = format!("sha256:{}", "c".repeat(64));
    let record = build_publication_quarantine(
        JsonValue::Str("sha256:r".to_owned()),
        "registry/state.json",
        "sha256:s",
        "registry/transition.json",
        "sha256:t",
        &outer,
        None,
        Some("candidates/c.json".to_owned()),
        Some("sha256:c".to_owned()),
        None,
        "authorized_without_generic_intent",
        "retry_available",
    )
    .unwrap();
    assert_eq!(record.idempotency_key, format!("hcm32crpub_{}", "c".repeat(64)));
    assert!(record.record_fingerprint.starts_with("sha256:"));
    assert_eq!(record.record_fingerprint.len(), 71);
    let error = build_publication_quarantine(
        JsonValue::Null, "s", "f", "t", "g", "md5:c", None, None, None, None, "p", "r",
    )
    .unwrap_err();
    assert_eq!(error.detail(), "authorized HCM fingerprint is malformed");
    assert_eq!(
        publication_quarantine_refusal("retry_available").detail(),
        "HCM publication is authorized without a committed generic journal: retry_available"
    );
}
