use vstd::prelude::*;
use crate::charter_lineage_store::RepoRelativeFileAccessError;
use crate::digest::is_fingerprint;

verus! {

/// The most bytes of a canonical Charter source that an observation reads.
pub const MAX_SOURCE_DOCUMENT_BYTES: usize = 1048576;

/// How an inspected artifact stands.
#[derive(Clone, Copy, Debug, PartialEq, Eq, Structural)]
pub enum ArtifactInspectionStatus {
    Missing,
    UnsafePath,
    Unreadable,
    StructurallyInvalid,
}

/// Why an inspected artifact stands as it does.
#[derive(Clone, Copy, Debug, PartialEq, Eq, Structural)]
pub enum ArtifactInspectionReason {
    RequiredPathMissing,
    UnsafeRepositoryPath,
    SymlinkRefused,
    NonRegularFileRefused,
    RepositoryReadFailed,
    DocumentLimitExceeded,
    DuplicateYamlKey,
    YamlSyntaxInvalid,
    DocumentNotObject,
    StructuralValidationFailed,
    TypedDecodeFailed,
    RenderedViewRefused,
    ObservationChangedDuringInspection,
    UnsupportedPlatformStrictRead,
}

/// Why a canonical Charter source could not be parsed or rendered.
#[derive(Clone, Copy, Debug, PartialEq, Eq, Structural)]
pub enum CharterArtifactErrorKind {
    SourceLimitExceeded,
    DuplicateKey,
    SyntaxError,
    NonObjectRoot,
    SelectedDecisionMissing,
    SelectedContractMismatch,
    StructuralValidationFailed,
    SemanticValidationFailed,
    TypedDecodeFailed,
    SerializationFailed,
    RenderedViewRefused,
}

/// A canonical Charter as observed: its path, the size of its source, its rendered view,
/// and the fingerprints of both.
#[derive(Clone, Debug, PartialEq, Eq)]
pub struct CanonicalCharterProjection {
    canonical_path: String,
    source_byte_length: usize,
    rendered_bytes: Vec<u8>,
    source_fingerprint: String,
    rendered_output_fingerprint: String,
}

impl CanonicalCharterProjection {
    pub closed spec fn path(&self) -> Seq<char> {
        self.canonical_path@
    }

    pub closed spec fn source_length(&self) -> nat {
        self.source_byte_length as nat
    }

    pub closed spec fn rendered(&self) -> Seq<u8> {
        self.rendered_bytes@
    }

    pub closed spec fn source_digest(&self) -> Seq<char> {
        self.source_fingerprint@
    }

    pub closed spec fn rendered_digest(&self) -> Seq<char> {
        self.rendered_output_fingerprint@
    }

    /// A projection of an observed source of `source_byte_length` bytes whose rendered
    /// view is `rendered_bytes`; both fingerprints are well-formed.
    pub fn new(
        canonical_path: &str,
        source_byte_length: usize,
        rendered_bytes: Vec<u8>,
        source_fingerprint: &str,
        rendered_output_fingerprint: &str,
    ) -> (r: Self)
        requires
            is_fingerprint(source_fingerprint@),
            is_fingerprint(rendered_output_fingerprint@),
        ensures
            r.path() == canonical_path@,
            r.source_length() == source_byte_length,
            r.rendered() == rendered_bytes@,
            r.source_digest() == source_fingerprint@,
            r.rendered_digest() == rendered_output_fingerprint@,
    {
        Self {
            canonical_path: canonical_path.to_owned(),
            source_byte_length,
            rendered_bytes,
            source_fingerprint: source_fingerprint.to_owned(),
            rendered_output_fingerprint: rendered_output_fingerprint.to_owned(),
        }
    }

    pub fn canonical_path(&self) -> (r: &str)
        ensures
            r@ == self.path(),
    {
        self.canonical_path.as_str()
    }

    pub fn source_byte_length(&self) -> (r: usize)
        ensures
            r == self.source_length(),
    {
        self.source_byte_length
    }

    pub fn rendered_bytes(&self) -> (r: &[u8])
        ensures
            r@ == self.rendered(),
    {
        self.rendered_bytes.as_slice()
    }

    pub fn rendered_byte_length(&self) -> (r: usize)
        ensures
            r == self.rendered().len(),
    {
        self.rendered_bytes.len()
    }

    pub fn source_fingerprint(&self) -> (r: &str)
        ensures
            r@ == self.source_digest(),
    {
        self.source_fingerprint.as_str()
    }

    pub fn rendered_output_fingerprint(&self) -> (r: &str)
        ensures
            r@ == self.rendered_digest(),
    {
        self.rendered_output_fingerprint.as_str()
    }
}

/// Why the selected canonical Charter could not be loaded.
#[derive(Clone, Debug, PartialEq, Eq)]
pub struct SelectedCharterLoadError {
    canonical_path: String,
    status: ArtifactInspectionStatus,
    reason: ArtifactInspectionReason,
}

impl SelectedCharterLoadError {
    pub closed spec fn path(&self) -> Seq<char> {
        self.canonical_path@
    }

    pub closed spec fn load_status(&self) -> ArtifactInspectionStatus {
        self.status
    }

    pub closed spec fn load_reason(&self) -> ArtifactInspectionReason {
        self.reason
    }

    pub fn new(
        canonical_path: &str,
        status: ArtifactInspectionStatus,
        reason: ArtifactInspectionReason,
    ) -> (r: Self)
        ensures
            r.path() == canonical_path@,
            r.load_status() == status,
            r.load_reason() == reason,
    {
        Self { canonical_path: canonical_path.to_owned(), status, reason }
    }

    pub fn canonical_path(&self) -> (r: &str)
        ensures
            r@ == self.path(),
    {
        self.canonical_path.as_str()
    }

    pub fn status(&self) -> (r: ArtifactInspectionStatus)
        ensures
            r == self.load_status(),
    {
        self.status
    }

    pub fn reason(&self) -> (r: ArtifactInspectionReason)
        ensures
            r == self.load_reason(),
    {
        self.reason
    }
}

/// The inspection reason reported for each parse or render failure.
pub open spec fn artifact_error_reason(kind: CharterArtifactErrorKind) -> ArtifactInspectionReason {
    match kind {
        CharterArtifactErrorKind::SourceLimitExceeded => ArtifactInspectionReason::DocumentLimitExceeded,
        CharterArtifactErrorKind::DuplicateKey => ArtifactInspectionReason::DuplicateYamlKey,
        CharterArtifactErrorKind::SyntaxError => ArtifactInspectionReason::YamlSyntaxInvalid,
        CharterArtifactErrorKind::NonObjectRoot => ArtifactInspectionReason::DocumentNotObject,
        CharterArtifactErrorKind::SelectedDecisionMissing
        | CharterArtifactErrorKind::SelectedContractMismatch
        | CharterArtifactErrorKind::StructuralValidationFailed
        | CharterArtifactErrorKind::SemanticValidationFailed => ArtifactInspectionReason::StructuralValidationFailed,
        CharterArtifactErrorKind::TypedDecodeFailed
        | CharterArtifactErrorKind::SerializationFailed => ArtifactInspectionReason::TypedDecodeFailed,
        CharterArtifactErrorKind::RenderedViewRefused => ArtifactInspectionReason::RenderedViewRefused,
    }
}

pub fn map_artifact_error(kind: CharterArtifactErrorKind) -> (r: ArtifactInspectionReason)
    ensures
        r == artifact_error_reason(kind),
{
    match kind {
        CharterArtifactErrorKind::SourceLimitExceeded => ArtifactInspectionReason::DocumentLimitExceeded,
        CharterArtifactErrorKind::DuplicateKey => ArtifactInspectionReason::DuplicateYamlKey,
        CharterArtifactErrorKind::SyntaxError => ArtifactInspectionReason::YamlSyntaxInvalid,
        CharterArtifactErrorKind::NonObjectRoot => ArtifactInspectionReason::DocumentNotObject,
        CharterArtifactErrorKind::SelectedDecisionMissing
        | CharterArtifactErrorKind::SelectedContractMismatch
        | CharterArtifactErrorKind::StructuralValidationFailed
        | CharterArtifactErrorKind::SemanticValidationFailed => ArtifactInspectionReason::StructuralValidationFailed,
        CharterArtifactErrorKind::TypedDecodeFailed
        | CharterArtifactErrorKind::SerializationFailed => ArtifactInspectionReason::TypedDecodeFailed,
        CharterArtifactErrorKind::RenderedViewRefused => ArtifactInspectionReason::RenderedViewRefused,
    }
}

/// The status and reason reported for each failure to open the canonical path.
pub open spec fn open_error_outcome(error: RepoRelativeFileAccessError) -> (
    ArtifactInspectionStatus,
    ArtifactInspectionReason,
) {
    match error {
        RepoRelativeFileAccessError::Missing(_) => (
            ArtifactInspectionStatus::Missing,
            ArtifactInspectionReason::RequiredPathMissing,
        ),
        RepoRelativeFileAccessError::InvalidPath(_) => (
            ArtifactInspectionStatus::UnsafePath,
            ArtifactInspectionReason::UnsafeRepositoryPath,
        ),
        RepoRelativeFileAccessError::SymlinkNotAllowed(_) => (
            ArtifactInspectionStatus::UnsafePath,
            ArtifactInspectionReason::SymlinkRefused,
        ),
        RepoRelativeFileAccessError::NotRegularFile(_) => (
            ArtifactInspectionStatus::UnsafePath,
            ArtifactInspectionReason::NonRegularFileRefused,
        ),
        RepoRelativeFileAccessError::ReadFailure { .. } => (
            ArtifactInspectionStatus::Unreadable,
            ArtifactInspectionReason::RepositoryReadFailed,
        ),
    }
}

pub fn map_open_error(canonical_path: &str, error: RepoRelativeFileAccessError) -> (r:
    SelectedCharterLoadError)
    ensures
        r.path() == canonical_path@,
        (r.load_status(), r.load_reason()) == open_error_outcome(error),
{
    match error {
        RepoRelativeFileAccessError::Missing(_) => SelectedCharterLoadError::new(
            canonical_path,
            ArtifactInspectionStatus::Missing,
            ArtifactInspectionReason::RequiredPathMissing,
        ),
        RepoRelativeFileAccessError::InvalidPath(_) => unsafe_path(canonical_path),
        RepoRelativeFileAccessError::SymlinkNotAllowed(_) => SelectedCharterLoadError::new(
            canonical_path,
            ArtifactInspectionStatus::UnsafePath,
            ArtifactInspectionReason::SymlinkRefused,
        ),
        RepoRelativeFileAccessError::NotRegularFile(_) => SelectedCharterLoadError::new(
            canonical_path,
            ArtifactInspectionStatus::UnsafePath,
            ArtifactInspectionReason::NonRegularFileRefused,
        ),
        RepoRelativeFileAccessError::ReadFailure { .. } => unreadable(
            canonical_path,
            ArtifactInspectionReason::RepositoryReadFailed,
        ),
    }
}

/// The refusal of a selected Charter that is not required at its canonical path.
pub fn invalid_selected_charter(canonical_path: &str) -> (r: SelectedCharterLoadError)
    ensures
        r.path() == canonical_path@,
        r.load_status() == ArtifactInspectionStatus::StructurallyInvalid,
        r.load_reason() == ArtifactInspectionReason::StructuralValidationFailed,
{
    SelectedCharterLoadError::new(
        canonical_path,
        ArtifactInspectionStatus::StructurallyInvalid,
        ArtifactInspectionReason::StructuralValidationFailed,
    )
}

/// The refusal of a canonical path that does not normalize inside the repository.
pub fn unsafe_path(canonical_path: &str) -> (r: SelectedCharterLoadError)
    ensures
        r.path() == canonical_path@,
        r.load_status() == ArtifactInspectionStatus::UnsafePath,
        r.load_reason() == ArtifactInspectionReason::UnsafeRepositoryPath,
{
    SelectedCharterLoadError::new(
        canonical_path,
        ArtifactInspectionStatus::UnsafePath,
        ArtifactInspectionReason::UnsafeRepositoryPath,
    )
}

/// The refusal of a canonical Charter that could not be read, for `reason`.
pub fn unreadable(canonical_path: &str, reason: ArtifactInspectionReason) -> (r:
    SelectedCharterLoadError)
    ensures
        r.path() == canonical_path@,
        r.load_status() == ArtifactInspectionStatus::Unreadable,
        r.load_reason() == reason,
{
    SelectedCharterLoadError::new(canonical_path, ArtifactInspectionStatus::Unreadable, reason)
}

/// The refusal of a canonical Charter that changed while it was observed.
pub fn observation_changed(canonical_path: &str) -> (r: SelectedCharterLoadError)
    ensures
        r.path() == canonical_path@,
        r.load_status() == ArtifactInspectionStatus::Unreadable,
        r.load_reason() == ArtifactInspectionReason::ObservationChangedDuringInspection,
{
    unreadable(canonical_path, ArtifactInspectionReason::ObservationChangedDuringInspection)
}

/// The refusal of a parsed source that failed with `kind`.
pub fn parse_refusal(canonical_path: &str, kind: CharterArtifactErrorKind) -> (r:
    SelectedCharterLoadError)
    ensures
        r.path() == canonical_path@,
        r.load_status() == ArtifactInspectionStatus::StructurallyInvalid,
        r.load_reason() == artifact_error_reason(kind),
{
    SelectedCharterLoadError::new(
        canonical_path,
        ArtifactInspectionStatus::StructurallyInvalid,
        map_artifact_error(kind),
    )
}

/// A bounded read of the source that exceeded the limit is refused.
pub fn check_bounded_read(canonical_path: &str, exceeded: bool) -> (r: Result<
    (),
    SelectedCharterLoadError,
>)
    ensures
        r is Err <==> exceeded,
        r matches Err(e) ==> e.path() == canonical_path@ && e.load_status()
            == ArtifactInspectionStatus::Unreadable && e.load_reason()
            == ArtifactInspectionReason::DocumentLimitExceeded,
{
    if exceeded {
        return Err(unreadable(canonical_path, ArtifactInspectionReason::DocumentLimitExceeded));
    }
    Ok(())
}

} // verus!
