use vstd::prelude::*;
use vstd::utf8::encode_utf8;
use std::path::PathBuf;
use crate::charter_lifecycle_store::{fingerprint_from_ref, fingerprint_named_by};
use crate::charter_posture_transaction_intent_v1::is_control_char;
use crate::digest::{fingerprint_hex, is_fingerprint, is_fingerprint_chars, lemma_sha256_prefix};
use crate::text::{chars_eq, chars_of, slice_chars, string_of};

verus! {

pub const MAX_LINEAGE_RECORD_BYTES: usize = 1048576;

pub const MAX_LINEAGE_REFERENCE_BYTES: usize = 512;

pub const MAX_CANDIDATE_CONTENT_BYTES: usize = 8388608;

/// `std::path::PathBuf`, carried through the library as an opaque value.
#[verifier::external_type_specification]
#[verifier::external_body]
pub struct ExPathBuf(PathBuf);

#[derive(Clone, Copy, Debug, PartialEq, Eq, Structural)]
pub enum LineageRecordClassV1 {
    Intake,
    Candidate,
    Approval,
    Promotion,
    Waiver,
    RegistryState,
    RegistryTransition,
    AuthenticatorRegistration,
    AuthenticatorMakeCredentialResponse,
    AuthenticatorGetAssertionResponse,
    AuthenticatorAssertion,
    LifecycleObservation,
    LifecycleTransition,
    TriggerEvidence,
}

#[derive(Clone, Copy, Debug, PartialEq, Eq, Structural)]
pub enum AppendDispositionV1 {
    Created,
    ReusedEqual,
}

/// Where an appended record landed and whether it was new.
#[derive(Clone, Debug, PartialEq, Eq)]
pub struct LineageAppendResultV1 {
    pub relative_ref: String,
    pub record_id: String,
    pub fingerprint: String,
    pub disposition: AppendDispositionV1,
}

/// The references of a persisted candidate bundle.
#[derive(Clone, Debug, PartialEq, Eq)]
pub struct CandidateBundlePersistenceV1 {
    pub normalized_content_ref: String,
    pub intake_ref: String,
    pub candidate_ref: String,
}

#[derive(Clone, Copy, Debug, PartialEq, Eq, Structural)]
pub enum LineageStoreErrorKindV1 {
    UnsupportedPlatform,
    BoundExceeded,
    UnsafeReference,
    InvalidRecord,
    IdentityMismatch,
    BasisMismatch,
    MissingDependency,
    ExistingBytesMismatch,
    UnsafeFilesystem,
    IoFailure,
}

#[derive(Clone, Debug, PartialEq, Eq)]
pub struct LineageStoreErrorV1 {
    kind: LineageStoreErrorKindV1,
    detail: String,
}

impl LineageStoreErrorV1 {
    /// The kind of the refusal.
    pub closed spec fn error_kind(&self) -> LineageStoreErrorKindV1 {
        self.kind
    }

    /// The text that explains the refusal.
    pub closed spec fn error_detail(&self) -> Seq<char> {
        self.detail@
    }

    pub fn new(kind: LineageStoreErrorKindV1, detail: &str) -> (r: Self)
        ensures
            r.error_kind() == kind,
            r.error_detail() == detail@,
    {
        Self { kind, detail: detail.to_owned() }
    }

    pub fn kind(&self) -> (r: LineageStoreErrorKindV1)
        ensures
            r == self.error_kind(),
    {
        self.kind
    }

    pub fn detail(&self) -> (r: &str)
        ensures
            r@ == self.error_detail(),
    {
        self.detail.as_str()
    }
}

pub fn io_error(detail: &str) -> (r: LineageStoreErrorV1)
    ensures
        r.error_kind() == LineageStoreErrorKindV1::IoFailure,
        r.error_detail() == detail@,
{
    LineageStoreErrorV1::new(LineageStoreErrorKindV1::IoFailure, detail)
}

/// The trusted store of content-addressed lineage records under a repository root.
#[derive(Debug)]
pub struct TrustedLineageStoreV1 {
    repo_root: PathBuf,
}

impl TrustedLineageStoreV1 {
    /// The repository root of the store.
    pub closed spec fn root(&self) -> PathBuf {
        self.repo_root
    }

    pub fn new(repo_root: PathBuf) -> (r: Self)
        ensures
            r.root() == repo_root,
    {
        Self { repo_root }
    }

    pub fn repo_root(&self) -> (r: &PathBuf)
        ensures
            *r == self.root(),
    {
        &self.repo_root
    }
}

/// How records of one class are stored and identified.
#[derive(Clone, Copy, Debug, PartialEq, Eq)]
pub struct RecordContract {
    pub partition: &'static str,
    pub id_prefix: &'static str,
    pub id_field: Option<&'static str>,
    pub fingerprint_field: &'static str,
    pub audit_only_field: Option<&'static str>,
    pub schema_id: &'static str,
    pub schema_version: &'static str,
}

/// A record contract as plain values.
pub struct RecordContractView {
    pub partition: Seq<char>,
    pub id_prefix: Seq<char>,
    pub id_field: Option<Seq<char>>,
    pub fingerprint_field: Seq<char>,
    pub audit_only_field: Option<Seq<char>>,
    pub schema_id: Seq<char>,
    pub schema_version: Seq<char>,
}

pub open spec fn contract_view(c: RecordContract) -> RecordContractView {
    RecordContractView {
        partition: c.partition@,
        id_prefix: c.id_prefix@,
        id_field: match c.id_field {
            Some(f) => Some(f@),
            None => None,
        },
        fingerprint_field: c.fingerprint_field@,
        audit_only_field: match c.audit_only_field {
            Some(f) => Some(f@),
            None => None,
        },
        schema_id: c.schema_id@,
        schema_version: c.schema_version@,
    }
}

pub open spec fn contract_spec(
    partition: Seq<char>,
    id_prefix: Seq<char>,
    id_field: Option<Seq<char>>,
    fingerprint_field: Seq<char>,
    audit_only_field: Option<Seq<char>>,
    schema_id: Seq<char>,
    schema_version: Seq<char>,
) -> RecordContractView {
    RecordContractView {
        partition,
        id_prefix,
        id_field,
        fingerprint_field,
        audit_only_field,
        schema_id,
        schema_version,
    }
}

/// The storage contract of each lineage record class.
pub open spec fn class_contract(class: LineageRecordClassV1) -> RecordContractView {
    match class {
        LineageRecordClassV1::Intake => contract_spec(
            "intake-records"@,
            "intake"@,
            Some("intake_record_id"@),
            "record_fingerprint"@,
            Some("finalized_at_utc"@),
            "handbook.artifact-intake-record"@,
            "1.1"@,
        ),
        LineageRecordClassV1::Candidate => contract_spec(
            "candidates"@,
            "candidate"@,
            Some("candidate_id"@),
            "candidate_fingerprint"@,
            None,
            "handbook.artifact-candidate"@,
            "1.1"@,
        ),
        LineageRecordClassV1::Approval => contract_spec(
            "approvals"@,
            "approval"@,
            Some("approval_id"@),
            "approval_fingerprint"@,
            None,
            "handbook.artifact-approval-record"@,
            "1.1"@,
        ),
        LineageRecordClassV1::Promotion => contract_spec(
            "promotions"@,
            "promotion"@,
            Some("promotion_id"@),
            "promotion_fingerprint"@,
            None,
            "handbook.artifact-promotion-record"@,
            "1.1"@,
        ),
        LineageRecordClassV1::Waiver => contract_spec(
            "waivers"@,
            "waiver"@,
            Some("waiver_id"@),
            "waiver_fingerprint"@,
            None,
            "handbook.artifact-intake-waiver"@,
            "1.0"@,
        ),
        LineageRecordClassV1::RegistryState => contract_spec(
            "registry-states"@,
            "registry-state"@,
            None,
            "registry_state_fingerprint"@,
            None,
            "handbook.approver-registry-state"@,
            "1.0"@,
        ),
        LineageRecordClassV1::RegistryTransition => contract_spec(
            "registry-transitions"@,
            "registry-transition"@,
            Some("transition_id"@),
            "transition_fingerprint"@,
            Some("occurred_at_utc"@),
            "handbook.approver-registry-transition"@,
            "1.0"@,
        ),
        LineageRecordClassV1::AuthenticatorRegistration => contract_spec(
            "authenticator-registrations"@,
            "authenticator-registration"@,
            Some("registration_id"@),
            "registration_fingerprint"@,
            Some("registered_at_utc"@),
            "handbook.authenticator-registration"@,
            "1.0"@,
        ),
        LineageRecordClassV1::AuthenticatorMakeCredentialResponse => contract_spec(
            "authenticator-make-credential-responses"@,
            "authenticator-make-credential-response"@,
            Some("response_id"@),
            "response_fingerprint"@,
            None,
            "handbook.authenticator-make-credential-response"@,
            "1.0"@,
        ),
        LineageRecordClassV1::AuthenticatorGetAssertionResponse => contract_spec(
            "authenticator-get-assertion-responses"@,
            "authenticator-get-assertion-response"@,
            Some("response_id"@),
            "response_fingerprint"@,
            None,
            "handbook.authenticator-get-assertion-response"@,
            "1.0"@,
        ),
        LineageRecordClassV1::AuthenticatorAssertion => contract_spec(
            "authenticator-assertions"@,
            "authenticator-assertion"@,
            Some("assertion_id"@),
            "assertion_fingerprint"@,
            Some("verified_at_utc"@),
            "handbook.authenticator-assertion"@,
            "1.0"@,
        ),
        LineageRecordClassV1::LifecycleObservation => contract_spec(
            "lifecycle-observations"@,
            "lifecycle-observation"@,
            Some("observation_id"@),
            "observation_fingerprint"@,
            None,
            "handbook.lifecycle-observation"@,
            "1.0"@,
        ),
        LineageRecordClassV1::LifecycleTransition => contract_spec(
            "lifecycle-transitions"@,
            "lifecycle-transition"@,
            Some("transition_id"@),
            "transition_fingerprint"@,
            Some("transitioned_at_utc"@),
            "handbook.lifecycle-transition"@,
            "1.0"@,
        ),
        LineageRecordClassV1::TriggerEvidence => contract_spec(
            "trigger-evidence"@,
            "trigger-evidence"@,
            Some("event_id"@),
            "evidence_fingerprint"@,
            None,
            "handbook.lifecycle-trigger-evidence"@,
            "1.0"@,
        ),
    }
}

fn contract(
    partition: &'static str,
    id_prefix: &'static str,
    id_field: Option<&'static str>,
    fingerprint_field: &'static str,
    audit_only_field: Option<&'static str>,
    schema_id: &'static str,
    schema_version: &'static str,
) -> (r: RecordContract)
    ensures
        r == (RecordContract {
            partition,
            id_prefix,
            id_field,
            fingerprint_field,
            audit_only_field,
            schema_id,
            schema_version,
        }),
{
    RecordContract {
        partition,
        id_prefix,
        id_field,
        fingerprint_field,
        audit_only_field,
        schema_id,
        schema_version,
    }
}

impl LineageRecordClassV1 {
    /// The storage contract of this record class.
    pub fn contract(self) -> (r: RecordContract)
        ensures
            contract_view(r) == class_contract(self),
    {
        match self {
            Self::Intake => contract(
                "intake-records",
                "intake",
                Some("intake_record_id"),
                "record_fingerprint",
                Some("finalized_at_utc"),
                "handbook.artifact-intake-record",
                "1.1",
            ),
            Self::Candidate => contract(
                "candidates",
                "candidate",
                Some("candidate_id"),
                "candidate_fingerprint",
                None,
                "handbook.artifact-candidate",
                "1.1",
            ),
            Self::Approval => contract(
                "approvals",
                "approval",
                Some("approval_id"),
                "approval_fingerprint",
                None,
                "handbook.artifact-approval-record",
                "1.1",
            ),
            Self::Promotion => contract(
                "promotions",
                "promotion",
                Some("promotion_id"),
                "promotion_fingerprint",
                None,
                "handbook.artifact-promotion-record",
                "1.1",
            ),
            Self::Waiver => contract(
                "waivers",
                "waiver",
                Some("waiver_id"),
                "waiver_fingerprint",
                None,
                "handbook.artifact-intake-waiver",
                "1.0",
            ),
            Self::RegistryState => contract(
                "registry-states",
                "registry-state",
                None,
                "registry_state_fingerprint",
                None,
                "handbook.approver-registry-state",
                "1.0",
            ),
            Self::RegistryTransition => contract(
                "registry-transitions",
                "registry-transition",
                Some("transition_id"),
                "transition_fingerprint",
                Some("occurred_at_utc"),
                "handbook.approver-registry-transition",
                "1.0",
            ),
            Self::AuthenticatorRegistration => contract(
                "authenticator-registrations",
                "authenticator-registration",
                Some("registration_id"),
                "registration_fingerprint",
                Some("registered_at_utc"),
                "handbook.authenticator-registration",
                "1.0",
            ),
            Self::AuthenticatorMakeCredentialResponse => contract(
                "authenticator-make-credential-responses",
                "authenticator-make-credential-response",
                Some("response_id"),
                "response_fingerprint",
                None,
                "handbook.authenticator-make-credential-response",
                "1.0",
            ),
            Self::AuthenticatorGetAssertionResponse => contract(
                "authenticator-get-assertion-responses",
                "authenticator-get-assertion-response",
                Some("response_id"),
                "response_fingerprint",
                None,
                "handbook.authenticator-get-assertion-response",
                "1.0",
            ),
            Self::AuthenticatorAssertion => contract(
                "authenticator-assertions",
                "authenticator-assertion",
                Some("assertion_id"),
                "assertion_fingerprint",
                Some("verified_at_utc"),
                "handbook.authenticator-assertion",
                "1.0",
            ),
            Self::LifecycleObservation => contract(
                "lifecycle-observations",
                "lifecycle-observation",
                Some("observation_id"),
                "observation_fingerprint",
                None,
                "handbook.lifecycle-observation",
                "1.0",
            ),
            Self::LifecycleTransition => contract(
                "lifecycle-transitions",
                "lifecycle-transition",
                Some("transition_id"),
                "transition_fingerprint",
                Some("transitioned_at_utc"),
                "handbook.lifecycle-transition",
                "1.0",
            ),
            Self::TriggerEvidence => contract(
                "trigger-evidence",
                "trigger-evidence",
                Some("event_id"),
                "evidence_fingerprint",
                None,
                "handbook.lifecycle-trigger-evidence",
                "1.0",
            ),
        }
    }
}

/// A bounded, normalized, repository-relative path: non-empty, at most 512 bytes, without
/// backslashes or control characters, not absolute, not opening with a `.` component, and
/// without `..` components.
pub open spec fn is_relative_path(s: Seq<char>) -> bool {
    &&& s.len() > 0
    &&& encode_utf8(s).len() <= MAX_LINEAGE_REFERENCE_BYTES
    &&& forall|i: int| 0 <= i < s.len() ==> #[trigger] s[i] != '\\' && !is_control_char(s[i])
    &&& s[0] != '/'
    &&& !(s[0] == '.' && (s.len() == 1 || s[1] == '/'))
    &&& forall|i: int|
        0 <= i < s.len() - 1 && #[trigger] s[i] == '.' && s[i + 1] == '.' && (i == 0 || s[i - 1]
            == '/') ==> !(i + 2 == s.len() || s[i + 2] == '/')
}

fn unsafe_path_error() -> (r: LineageStoreErrorV1)
    ensures
        r.error_kind() == LineageStoreErrorKindV1::UnsafeReference,
{
    LineageStoreErrorV1::new(
        LineageStoreErrorKindV1::UnsafeReference,
        "lineage path must be a bounded normalized repository-relative path",
    )
}

pub fn validate_relative_path(path: &str) -> (r: Result<(), LineageStoreErrorV1>)
    ensures
        r is Ok <==> is_relative_path(path@),
        r matches Err(e) ==> e.error_kind() == LineageStoreErrorKindV1::UnsafeReference,
{
    let s = chars_of(path);
    let byte_length = path.as_bytes().len();
    if s.len() == 0 || byte_length > MAX_LINEAGE_REFERENCE_BYTES || s[0] == '/' || (s[0] == '.' && (
    s.len() == 1 || s[1] == '/')) {
        return Err(unsafe_path_error());
    }
    let n = s.len();
    let mut i: usize = 0;
    while i < n
        invariant
            s@ == path@,
            n == s.len(),
            i <= n,
            forall|k: int| 0 <= k < i ==> #[trigger] s@[k] != '\\' && !is_control_char(s@[k]),
            forall|k: int|
                0 <= k < i && k < n - 1 && #[trigger] s@[k] == '.' && s@[k + 1] == '.' && (k == 0
                    || s@[k - 1] == '/') ==> !(k + 2 == n || s@[k + 2] == '/'),
        decreases n - i,
    {
        let c = s[i];
        if c == '\\' || c < '\u{20}' || ('\u{7f}' <= c && c <= '\u{9f}') {
            return Err(unsafe_path_error());
        }
        if c == '.' && i + 1 < n && s[i + 1] == '.' && (i == 0 || s[i - 1] == '/') && (i + 2 == n
            || s[i + 2] == '/') {
            return Err(unsafe_path_error());
        }
        i = i + 1;
    }
    Ok(())
}

/// The record ID and reference that a class gives a fingerprint.
pub open spec fn record_id_for(class: LineageRecordClassV1, fingerprint: Seq<char>) -> Seq<char> {
    class_contract(class).id_prefix + seq!['_'] + fingerprint_hex(fingerprint)
}

pub open spec fn reference_for(class: LineageRecordClassV1, fingerprint: Seq<char>) -> Seq<char> {
    class_contract(class).partition + seq!['/'] + record_id_for(class, fingerprint) + ".json"@
}

/// The record ID of a validated lineage reference.
#[derive(Clone, Debug, PartialEq, Eq)]
pub struct ValidatedReference {
    pub record_id: String,
}

/// The refusal of a lineage reference, by the first check that fails.
pub open spec fn reference_error(
    class: LineageRecordClassV1,
    relative_ref: Seq<char>,
    declared_fingerprint: Seq<char>,
) -> Option<LineageStoreErrorKindV1> {
    if encode_utf8(relative_ref).len() > MAX_LINEAGE_REFERENCE_BYTES {
        Some(LineageStoreErrorKindV1::BoundExceeded)
    } else if !is_relative_path(relative_ref) || !is_fingerprint(declared_fingerprint) || relative_ref
        != reference_for(class, declared_fingerprint) {
        Some(LineageStoreErrorKindV1::UnsafeReference)
    } else {
        None
    }
}

/// Checks that a lineage reference is the exact class partition and fingerprint-derived
/// basename, and gives its record ID.
pub fn validate_reference(
    class: LineageRecordClassV1,
    relative_ref: &str,
    declared_fingerprint: &str,
) -> (r: Result<ValidatedReference, LineageStoreErrorV1>)
    ensures
        r matches Ok(v) ==> reference_error(class, relative_ref@, declared_fingerprint@) is None
            && v.record_id@ == record_id_for(class, declared_fingerprint@),
        r matches Err(e) ==> reference_error(class, relative_ref@, declared_fingerprint@) == Some(
            e.error_kind(),
        ),
{
    if relative_ref.as_bytes().len() > MAX_LINEAGE_REFERENCE_BYTES {
        return Err(LineageStoreErrorV1::new(
            LineageStoreErrorKindV1::BoundExceeded,
            "lineage reference exceeds 512 bytes",
        ));
    }
    validate_relative_path(relative_ref)?;
    let fingerprint = chars_of(declared_fingerprint);
    if !is_fingerprint_chars(&fingerprint) {
        return Err(LineageStoreErrorV1::new(
            LineageStoreErrorKindV1::UnsafeReference,
            "declared lineage fingerprint is invalid",
        ));
    }
    let c = class.contract();
    proof {
        lemma_sha256_prefix();
    }
    let mut record_id = chars_of(c.id_prefix);
    record_id.push('_');
    let mut hex = slice_chars(&fingerprint, 7, fingerprint.len());
    assert(hex@ =~= fingerprint_hex(declared_fingerprint@));
    record_id.append(&mut hex);
    assert(record_id@ =~= record_id_for(class, declared_fingerprint@));
    let mut expected = chars_of(c.partition);
    expected.push('/');
    let mut id_copy = crate::json::copy_text(&record_id);
    expected.append(&mut id_copy);
    let mut suffix = chars_of(".json");
    expected.append(&mut suffix);
    assert(expected@ =~= reference_for(class, declared_fingerprint@));
    if !chars_eq(&chars_of(relative_ref), &expected) {
        return Err(LineageStoreErrorV1::new(
            LineageStoreErrorKindV1::UnsafeReference,
            "lineage reference is not the exact class partition and fingerprint-derived basename",
        ));
    }
    Ok(ValidatedReference { record_id: string_of(&record_id) })
}

/// The fingerprint that a lineage reference names by its basename.
pub fn fingerprint_from_reference(relative_ref: &str) -> (r: Option<String>)
    ensures
        r matches Some(f) ==> fingerprint_named_by(relative_ref@) == Some(f@),
        r is None ==> fingerprint_named_by(relative_ref@) is None,
{
    fingerprint_from_ref(relative_ref)
}

/// Why a repository-relative file could not be read.
#[derive(Clone, Debug, PartialEq, Eq)]
pub enum RepoRelativeFileAccessError {
    Missing(String),
    InvalidPath(String),
    SymlinkNotAllowed(String),
    NotRegularFile(String),
    ReadFailure { path: String, detail: String },
}

/// The lineage refusal for a failed read: a missing record is a missing dependency, an unsafe
/// path or file is unsafe, and a read failure is an I/O failure.
pub open spec fn read_error_kind(e: RepoRelativeFileAccessError) -> LineageStoreErrorKindV1 {
    match e {
        RepoRelativeFileAccessError::Missing(_) => LineageStoreErrorKindV1::MissingDependency,
        RepoRelativeFileAccessError::ReadFailure { .. } => LineageStoreErrorKindV1::IoFailure,
        _ => LineageStoreErrorKindV1::UnsafeFilesystem,
    }
}

pub fn map_read_error(error: RepoRelativeFileAccessError) -> (r: LineageStoreErrorV1)
    ensures
        r.error_kind() == read_error_kind(error),
{
    match error {
        RepoRelativeFileAccessError::Missing(_) => LineageStoreErrorV1::new(
            LineageStoreErrorKindV1::MissingDependency,
            "referenced lineage record is missing",
        ),
        RepoRelativeFileAccessError::InvalidPath(_)
        | RepoRelativeFileAccessError::SymlinkNotAllowed(_)
        | RepoRelativeFileAccessError::NotRegularFile(_) => LineageStoreErrorV1::new(
            LineageStoreErrorKindV1::UnsafeFilesystem,
            "referenced lineage record is not a safe regular file",
        ),
        RepoRelativeFileAccessError::ReadFailure { .. } => io_error(
            "referenced lineage record read failed",
        ),
    }
}

} // verus!
