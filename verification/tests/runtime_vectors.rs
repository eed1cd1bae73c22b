use engine::charter_runtime_vectors::{
    field, validate_cross_binding, validate_external_binding, validate_runtime_record_fingerprint_vectors,
    validate_vector, value_text_of, CrossRecordBinding, ExternalReferenceBinding, JsonMember, JsonValue,
    RecordVector, RuntimeRecordVectorReport, RuntimeVectorFixture,
};
use sha2::{Digest, Sha256};

fn s(text: &str) -> JsonValue {
    JsonValue::Str(text.to_owned())
}

fn obj(members: Vec<(&str, JsonValue)>) -> JsonValue {
    JsonValue::Object(
        members.into_iter().map(|(key, value)| JsonMember { key: key.to_owned(), value }).collect(),
    )
}

fn sha(bytes: &[u8]) -> String {
    let digest: String = Sha256::digest(bytes).iter().map(|b| format!("{b:02x}")).collect();
    format!("sha256:{digest}")
}

fn text(value: &JsonValue) -> String {
    value_text_of(value).into_iter().collect()
}

fn canonical(value: &JsonValue) -> String {
    serde_json_canonicalizer::pipe(&text(value)).unwrap()
}

fn preimage() -> JsonValue {
    obj(vec![("intake", s("intake-records/intake_1.json")), ("n", JsonValue::Number("7".to_owned()))])
}

fn vector(class: &str) -> RecordVector {
    let fingerprint = sha(canonical(&preimage()).as_bytes());
    let hex = fingerprint.strip_prefix("sha256:").unwrap().to_owned();
    let id = format!("{class}_{hex}");
    let record = obj(vec![
        ("fingerprint", s(&fingerprint)),
        ("id", s(&id)),
        ("intake", s("intake-records/intake_1.json")),
        ("n", JsonValue::Number("7".to_owned())),
        ("recorded_at_utc", s("2024-01-01T00:00:00Z")),
    ]);
    RecordVector {
        record_class: class.to_owned(),
        schema_contract: "schemas/intake.json".to_owned(),
        audit_only_excluded_fields: vec!["recorded_at_utc".to_owned()],
        fingerprint_field: "fingerprint".to_owned(),
        id_field: Some("id".to_owned()),
        id_location: "record".to_owned(),
        expected_fingerprint: fingerprint,
        expected_id: id,
        fingerprint_preimage: preimage(),
        record,
        candidate_subject_fingerprint_preimage: None,
        expected_candidate_subject_fingerprint: None,
        expected_document_byte_length: None,
        expected_document_sha256: None,
    }
}

fn fixture(vectors: Vec<RecordVector>) -> RuntimeVectorFixture {
    RuntimeVectorFixture {
        schema_id: "hcm-2.2-runtime-record-fingerprint-vectors".to_owned(),
        schema_version: "1.0".to_owned(),
        normalization: "RFC8785-JCS-UTF8".to_owned(),
        id_rule: "prefix_hex".to_owned(),
        vectors,
        cross_record_contract: obj(vec![]),
        cross_record_bindings: Vec::new(),
        external_reference_contract: obj(vec![]),
        external_reference_bindings: Vec::new(),
        candidate_1_3_exact_result_contract: obj(vec![]),
        historical_candidate_1_2_contract: obj(vec![]),
        exact_result_negative_vectors: JsonValue::Array(Vec::new()),
        candidate_1_3_amendment_chain_contract: obj(vec![]),
        author_inventory_contract: obj(vec![]),
        author_inventory_boundary_vectors: JsonValue::Array(Vec::new()),
    }
}

#[test]
fn value_text_and_field_access() {
    let value = obj(vec![
        ("a", obj(vec![("b", JsonValue::Array(vec![JsonValue::Null, s("x\"y")]))])),
        ("t", JsonValue::Bool(true)),
    ]);
    assert_eq!(text(&value), r#"{"a":{"b":[null,"x\"y"]},"t":true}"#);
    assert_eq!(field(&value, "a.b[1]"), Some(&s("x\"y")));
    assert_eq!(field(&value, "a.b[+0]"), Some(&JsonValue::Null));
    assert_eq!(field(&value, "a.b[2]"), None);
    assert_eq!(field(&value, "a.b[x]"), None);
    assert_eq!(field(&value, "a.b"), Some(&JsonValue::Array(vec![JsonValue::Null, s("x\"y")])));
    assert_eq!(field(&value, "t"), Some(&JsonValue::Bool(true)));
    assert_eq!(field(&value, "t.u"), None);
    assert_eq!(field(&value, "missing"), None);
}

#[test]
fn a_vector_recomputes_its_fingerprint_and_reproduces_its_preimage() {
    assert!(validate_vector(&vector("intake")).is_ok());
    let mut wrong = vector("intake");
    wrong.expected_fingerprint = format!("sha256:{}", "0".repeat(64));
    assert_eq!(validate_vector(&wrong).unwrap_err().detail(), "fingerprint does not recompute");
    let mut unexcluded = vector("intake");
    unexcluded.audit_only_excluded_fields.clear();
    assert_eq!(
        validate_vector(&unexcluded).unwrap_err().detail(),
        "record does not reproduce its exact preimage after exclusions"
    );
    let mut misplaced = vector("intake");
    misplaced.id_location = "derived_content_addressed_path".to_owned();
    assert_eq!(validate_vector(&misplaced).unwrap_err().detail(), "record ID field disagrees");
    let mut unwitnessed = vector("candidate");
    unwitnessed.record_class = "candidate".to_owned();
    assert_eq!(
        validate_vector(&unwitnessed).unwrap_err().detail(),
        "candidate subject witness presence is not class-exact"
    );
}

#[test]
fn a_result_vector_carries_its_exact_document_witness() {
    let mut result = vector("lifecycle-validation-result");
    let mut document = canonical(&result.record).into_bytes();
    document.push(b'\n');
    result.expected_document_byte_length = Some(document.len());
    result.expected_document_sha256 = Some(sha(&document));
    assert!(validate_vector(&result).is_ok());
    result.expected_document_byte_length = Some(document.len() - 1);
    assert_eq!(
        validate_vector(&result).unwrap_err().detail(),
        "runtime result exact JCS-plus-LF witness does not recompute"
    );
}

#[test]
fn bindings_and_the_whole_fixture() {
    let target = vector("intake");
    let mut source = vector("candidate-record");
    let target_id = target.expected_id.clone();
    let target_fingerprint = target.expected_fingerprint.clone();
    if let JsonValue::Object(members) = &mut source.record {
        members.push(JsonMember { key: "ref".to_owned(), value: s(&format!("intakes/{target_id}.json")) });
    }
    source.audit_only_excluded_fields.push("ref".to_owned());
    let cross = CrossRecordBinding {
        source_record_class: "candidate-record".to_owned(),
        source_field: "ref".to_owned(),
        target_record_class: "intake".to_owned(),
        expected_ref: format!("intakes/{target_id}.json"),
        declared_fingerprint_field: None,
        expected_target_id: target_id.clone(),
        expected_target_fingerprint: target_fingerprint.clone(),
        declared_document_sha256_field: None,
        expected_target_document_sha256: None,
        declared_byte_length_field: None,
        expected_target_byte_length: None,
        transitive_exact_document_authority: Some("   ".to_owned()),
    };
    let external = ExternalReferenceBinding {
        source_record_class: "candidate-record".to_owned(),
        source_field: "intake".to_owned(),
        expected_ref: "intake-records/intake_1.json".to_owned(),
        producer_kind: "intake".to_owned(),
        expected_producer_fingerprint: target_fingerprint.clone(),
        declared_fingerprint_field: None,
    };
    let vectors = vec![source, target];
    assert!(validate_cross_binding(&cross, &vectors).is_err());
    let cross = CrossRecordBinding { transitive_exact_document_authority: None, ..cross };
    assert!(validate_cross_binding(&cross, &vectors).is_ok());
    assert!(validate_external_binding(&external, &vectors).is_ok());
    let mut whole = fixture(vectors);
    whole.cross_record_bindings.push(cross);
    whole.external_reference_bindings.push(external);
    assert_eq!(
        validate_runtime_record_fingerprint_vectors(&whole).unwrap(),
        RuntimeRecordVectorReport { vector_count: 2, cross_record_binding_count: 1, external_reference_binding_count: 1 }
    );
    let duplicated = fixture(vec![vector("intake"), vector("intake")]);
    assert_eq!(
        validate_runtime_record_fingerprint_vectors(&duplicated).unwrap_err().detail(),
        "runtime vector classes must be unique and schema-bound"
    );
    let mut renamed = fixture(Vec::new());
    renamed.schema_version = "2.0".to_owned();
    assert!(validate_runtime_record_fingerprint_vectors(&renamed).is_err());
}
