use engine::charter_lineage_store::RepoRelativeFileAccessError;
use engine::charter_observation::{
    check_bounded_read, map_artifact_error, map_open_error, ArtifactInspectionReason,
    ArtifactInspectionStatus, CanonicalCharterProjection, CharterArtifactErrorKind,
};

#[test]
fn open_failures_map_to_their_status_and_reason() {
    let path = ".handbook/project/charter.yaml";
    let error = map_open_error(path, RepoRelativeFileAccessError::Missing(path.to_owned()));
    assert_eq!(error.canonical_path(), path);
    assert_eq!(error.status(), ArtifactInspectionStatus::Missing);
    assert_eq!(error.reason(), ArtifactInspectionReason::RequiredPathMissing);
    let error = map_open_error(path, RepoRelativeFileAccessError::SymlinkNotAllowed(path.to_owned()));
    assert_eq!(error.status(), ArtifactInspectionStatus::UnsafePath);
    assert_eq!(error.reason(), ArtifactInspectionReason::SymlinkRefused);
    let error = map_open_error(
        path,
        RepoRelativeFileAccessError::ReadFailure { path: path.to_owned(), detail: "eio".to_owned() },
    );
    assert_eq!(error.status(), ArtifactInspectionStatus::Unreadable);
    assert_eq!(error.reason(), ArtifactInspectionReason::RepositoryReadFailed);
}

#[test]
fn parse_failures_map_to_inspection_reasons() {
    assert_eq!(
        map_artifact_error(CharterArtifactErrorKind::DuplicateKey),
        ArtifactInspectionReason::DuplicateYamlKey
    );
    assert_eq!(
        map_artifact_error(CharterArtifactErrorKind::SemanticValidationFailed),
        ArtifactInspectionReason::StructuralValidationFailed
    );
    assert_eq!(
        map_artifact_error(CharterArtifactErrorKind::SerializationFailed),
        ArtifactInspectionReason::TypedDecodeFailed
    );
}

#[test]
fn an_exceeded_read_is_refused() {
    assert!(check_bounded_read("p", false).is_ok());
    let error = check_bounded_read("p", true).unwrap_err();
    assert_eq!(error.reason(), ArtifactInspectionReason::DocumentLimitExceeded);
}

#[test]
fn a_projection_reports_what_it_holds() {
    let source = format!("sha256:{}", "a".repeat(64));
    let rendered = format!("sha256:{}", "b".repeat(64));
    let projection =
        CanonicalCharterProjection::new("p", 12, b"# Charter\n".to_vec(), &source, &rendered);
    assert_eq!(projection.canonical_path(), "p");
    assert_eq!(projection.source_byte_length(), 12);
    assert_eq!(projection.rendered_bytes(), b"# Charter\n");
    assert_eq!(projection.rendered_byte_length(), 10);
    assert_eq!(projection.source_fingerprint(), source);
    assert_eq!(projection.rendered_output_fingerprint(), rendered);
}
