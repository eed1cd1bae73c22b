use vstd::prelude::*;
use std::path::PathBuf;
use crate::charter_lifecycle::{
    CharterLifecycleEvent, CharterLifecycleEventKind, CharterLifecycleObservation, CharterLifecycleState,
    coverage_reopened_by, copy_observation, key_lt, lemma_key_lt, precedence, state_name,
    strings_contain, CharterLifecycleTransition, LifecycleObservationView,
    apply_charter_lifecycle_events, event_valid, event_views, events_error, new_observations_of,
    observation_views, result_state_of, CharterLifecycleErrorKind, transition_state_json, opened_by_batch,
    is_new_event, observation_of,
};
use crate::definition_ref::{exact_definition_ref, is_exact_definition_ref};
use crate::digest::{
    commit_marker, content_fingerprint, fingerprint_of_bytes, is_fingerprint, is_fingerprint_chars,
    marker_of, sha256_prefix, sha256_prefix_chars, fingerprint_hex, lemma_sha256_prefix,
};
use crate::json::{
    canonical_json_bytes, jcs_bytes, json_opt_string, fingerprint_json, json_fingerprint, json_member, json_object, json_str, json_string,
    json_string_array, member_text, object_text, opt_string_text, string_array_text,
};
use crate::text::{
    ascii_alnum, chars_of, ends_with, has_suffix, is_ascii_alnum, is_lower_sha256_hex, last_index,
    last_index_of, sha256_hex_text, slice_chars, string_of, string_views, views,
};
use crate::utc::{is_utc_second, utc_second};
use crate::charter_lifecycle_validation::{definition_binding_table, pinned_definition_fingerprint};
use vstd::utf8::encode_utf8;

verus! {

pub const CHARTER_LIFECYCLE_POLICY_REF: &'static str = "handbook.lifecycle.constitutional-review-lock@1.0.0";

pub const CHARTER_REVIEW_TRIGGER_REF: &'static str =
    "handbook.lifecycle-trigger.charter-amendment-proposed@1.0.0";

pub const PRODUCTION_POSTURE_TRIGGER_REF: &'static str =
    "handbook.intake-trigger.production-posture-changed@1.0.0";

pub const TRUST_BOUNDARY_TRIGGER_REF: &'static str = "handbook.intake-trigger.trust-boundary-changed@1.0.0";

/// The committed lifecycle authority of the canonical Charter.
#[derive(Clone, Debug, PartialEq, Eq)]
pub struct CharterLifecycleAuthorityV1 {
    pub canonical_fingerprint: String,
    pub lifecycle_transition_ref: String,
    pub lifecycle_transition_fingerprint: String,
    pub state: CharterLifecycleState,
    pub state_fingerprint: String,
    pub active_observation_refs: Vec<String>,
    pub active_observation_fingerprints: Vec<String>,
    pub active_observations: Vec<CharterLifecycleObservation>,
    pub reopened_coverage_ids: Vec<String>,
}

/// What a lifecycle event records.
#[derive(Clone, Debug, PartialEq, Eq)]
pub enum CharterLifecycleEventIntentV1 {
    CandidateAmendment {
        candidate_ref: String,
        candidate_fingerprint: String,
        observed_at_utc: String,
    },
    TriggerEvidence { evidence_ref: String, evidence_fingerprint: String },
}

#[derive(Clone, Copy, Debug, PartialEq, Eq, Structural)]
pub enum CharterLifecycleEventDispositionV1 {
    Committed,
    Replayed,
}

/// The outcome of recording a lifecycle event.
#[derive(Clone, Debug, PartialEq, Eq)]
pub struct CharterLifecycleEventCommitV1 {
    pub disposition: CharterLifecycleEventDispositionV1,
    pub observation_ref: Option<String>,
    pub transition_ref: String,
    pub state: CharterLifecycleState,
    pub state_fingerprint: String,
    pub reopened_coverage_ids: Vec<String>,
}

#[derive(Clone, Copy, Debug, PartialEq, Eq, Structural)]
pub enum CharterLifecycleStoreErrorKindV1 {
    AuthorityAbsent,
    InvalidEvent,
    UnknownTrigger,
    StaleBasis,
    LineageViolation,
    UnsafeFilesystem,
    DurabilityViolation,
    Conflict,
    UnsupportedPlatform,
    IoFailure,
    InjectedFault,
}

#[derive(Clone, Debug, PartialEq, Eq)]
pub struct CharterLifecycleStoreErrorV1 {
    kind: CharterLifecycleStoreErrorKindV1,
    detail: String,
}

impl CharterLifecycleStoreErrorV1 {
    /// The kind of the refusal.
    pub closed spec fn error_kind(&self) -> CharterLifecycleStoreErrorKindV1 {
        self.kind
    }

    /// The text that explains the refusal.
    pub closed spec fn error_detail(&self) -> Seq<char> {
        self.detail@
    }

    pub fn new(kind: CharterLifecycleStoreErrorKindV1, detail: &str) -> (r: Self)
        ensures
            r.error_kind() == kind,
            r.error_detail() == detail@,
    {
        Self { kind, detail: detail.to_owned() }
    }

    pub fn kind(&self) -> (r: CharterLifecycleStoreErrorKindV1)
        ensures
            r == self.error_kind(),
    {
        self.kind
    }

    pub fn detail(&self) -> (r: &str)
        ensures
            r@ == self.error_detail(),
    {
        self.detail.as_str()
    }
}

/// An error of the given kind.
pub fn error(kind: CharterLifecycleStoreErrorKindV1, detail: &str) -> (r: CharterLifecycleStoreErrorV1)
    ensures
        r.error_kind() == kind,
        r.error_detail() == detail@,
{
    CharterLifecycleStoreErrorV1::new(kind, detail)
}

pub fn invalid_event(detail: &str) -> (r: CharterLifecycleStoreErrorV1)
    ensures
        r.error_kind() == CharterLifecycleStoreErrorKindV1::InvalidEvent,
        r.error_detail() == detail@,
{
    error(CharterLifecycleStoreErrorKindV1::InvalidEvent, detail)
}

pub fn lineage_error(detail: &str) -> (r: CharterLifecycleStoreErrorV1)
    ensures
        r.error_kind() == CharterLifecycleStoreErrorKindV1::LineageViolation,
        r.error_detail() == detail@,
{
    error(CharterLifecycleStoreErrorKindV1::LineageViolation, detail)
}

pub fn unsafe_error(detail: &str) -> (r: CharterLifecycleStoreErrorV1)
    ensures
        r.error_kind() == CharterLifecycleStoreErrorKindV1::UnsafeFilesystem,
        r.error_detail() == detail@,
{
    error(CharterLifecycleStoreErrorKindV1::UnsafeFilesystem, detail)
}

pub fn durability(detail: &str) -> (r: CharterLifecycleStoreErrorV1)
    ensures
        r.error_kind() == CharterLifecycleStoreErrorKindV1::DurabilityViolation,
        r.error_detail() == detail@,
{
    error(CharterLifecycleStoreErrorKindV1::DurabilityViolation, detail)
}

pub fn io_error(detail: &str) -> (r: CharterLifecycleStoreErrorV1)
    ensures
        r.error_kind() == CharterLifecycleStoreErrorKindV1::IoFailure,
        r.error_detail() == detail@,
{
    error(CharterLifecycleStoreErrorKindV1::IoFailure, detail)
}

pub fn injected(detail: &str) -> (r: CharterLifecycleStoreErrorV1)
    ensures
        r.error_kind() == CharterLifecycleStoreErrorKindV1::InjectedFault,
        r.error_detail() == detail@,
{
    error(CharterLifecycleStoreErrorKindV1::InjectedFault, detail)
}

/// The boundaries of a lifecycle commit at which a test can inject a fault.
#[derive(Clone, Copy, Debug, PartialEq, Eq, Structural)]
pub enum CharterLifecycleFaultPointV1 {
    Intent,
    Prepared,
    ObservationInstalled,
    RecordsInstalled,
}

/// A fault selection held for the duration of one test step: at most one boundary fails.
#[derive(Clone, Copy, Debug, PartialEq, Eq, Structural)]
pub struct ScopedLifecycleFaultV1 {
    pub selected: Option<CharterLifecycleFaultPointV1>,
}

impl ScopedLifecycleFaultV1 {
    /// Selects the one boundary that fails.
    pub fn select(fault: CharterLifecycleFaultPointV1) -> (r: Self)
        ensures
            r.selected == Some(fault),
    {
        Self { selected: Some(fault) }
    }
}

/// Fails at a boundary exactly when that boundary is the selected one.
pub fn inject_lifecycle_fault(
    selection: &ScopedLifecycleFaultV1,
    boundary: CharterLifecycleFaultPointV1,
    detail: &str,
) -> (r: Result<(), CharterLifecycleStoreErrorV1>)
    ensures
        r is Err <==> selection.selected == Some(boundary),
        r matches Err(e) ==> e.error_kind() == CharterLifecycleStoreErrorKindV1::InjectedFault
            && e.error_detail() == detail@,
{
    if selection.selected == Some(boundary) {
        return Err(injected(detail));
    }
    Ok(())
}

/// What recovery finds of an interrupted lifecycle commit.
#[derive(Clone, Copy, Debug, PartialEq, Eq, Structural)]
pub struct CharterLifecycleRecoveryInputsV1 {
    pub observation_final: bool,
    pub transition_final: bool,
    pub observation_staged: bool,
    pub transition_staged: bool,
    pub matching_commit_marker: bool,
}

#[derive(Clone, Copy, Debug, PartialEq, Eq, Structural)]
pub enum CharterLifecycleRecoveryActionV1 {
    RollbackOwnedState,
    InstallBothAndCommit,
    InstallMissingAndCommit,
    RollForwardCommit,
    Finalize,
    PreserveAndRefuse,
}

/// The recovery action for an interrupted lifecycle commit.
pub open spec fn recovery_action(i: CharterLifecycleRecoveryInputsV1) -> CharterLifecycleRecoveryActionV1 {
    if i.matching_commit_marker {
        if i.observation_final && i.transition_final {
            CharterLifecycleRecoveryActionV1::Finalize
        } else {
            CharterLifecycleRecoveryActionV1::PreserveAndRefuse
        }
    } else if i.observation_final && i.transition_final {
        CharterLifecycleRecoveryActionV1::RollForwardCommit
    } else if !i.observation_final && !i.transition_final && i.observation_staged
        && i.transition_staged {
        CharterLifecycleRecoveryActionV1::InstallBothAndCommit
    } else if i.observation_final && !i.transition_final && i.transition_staged {
        CharterLifecycleRecoveryActionV1::InstallMissingAndCommit
    } else if !i.observation_final && i.transition_final && i.observation_staged {
        CharterLifecycleRecoveryActionV1::InstallMissingAndCommit
    } else {
        CharterLifecycleRecoveryActionV1::RollbackOwnedState
    }
}

/// Classifies an interrupted lifecycle commit: a matching commit marker finalizes complete
/// records and preserves anything else; without one, complete records roll forward, staged
/// records are installed, and everything else rolls back.
pub fn classify_lifecycle_recovery(inputs: CharterLifecycleRecoveryInputsV1) -> (r:
    CharterLifecycleRecoveryActionV1)
    ensures
        r == recovery_action(inputs),
{
    if inputs.matching_commit_marker {
        return if inputs.observation_final && inputs.transition_final {
            CharterLifecycleRecoveryActionV1::Finalize
        } else {
            CharterLifecycleRecoveryActionV1::PreserveAndRefuse
        };
    }
    match (inputs.observation_final, inputs.transition_final) {
        (true, true) => CharterLifecycleRecoveryActionV1::RollForwardCommit,
        (false, false) if inputs.observation_staged && inputs.transition_staged => {
            CharterLifecycleRecoveryActionV1::InstallBothAndCommit
        },
        (true, false) if inputs.transition_staged => {
            CharterLifecycleRecoveryActionV1::InstallMissingAndCommit
        },
        (false, true) if inputs.observation_staged => {
            CharterLifecycleRecoveryActionV1::InstallMissingAndCommit
        },
        _ => CharterLifecycleRecoveryActionV1::RollbackOwnedState,
    }
}

/// Recovery of an interrupted lifecycle commit, for every combination of what survived:
/// - with a matching commit marker, it finalizes exactly when both records are final and
///   otherwise preserves the evidence and refuses; it never installs, rolls forward or rolls back;
/// - without one, it never finalizes or preserves: it rolls forward exactly when both records
///   are final, installs both exactly when neither is final and both are staged, installs the
///   missing one exactly when one is final and the other staged, and otherwise rolls back.
pub proof fn lemma_recovery_actions(i: CharterLifecycleRecoveryInputsV1)
    ensures
        i.matching_commit_marker ==> (recovery_action(i) == CharterLifecycleRecoveryActionV1::Finalize
            <==> i.observation_final && i.transition_final),
        i.matching_commit_marker ==> (recovery_action(i) == CharterLifecycleRecoveryActionV1::PreserveAndRefuse
            <==> !(i.observation_final && i.transition_final)),
        !i.matching_commit_marker ==> recovery_action(i) != CharterLifecycleRecoveryActionV1::Finalize
            && recovery_action(i) != CharterLifecycleRecoveryActionV1::PreserveAndRefuse,
        !i.matching_commit_marker ==> (recovery_action(i) == CharterLifecycleRecoveryActionV1::RollForwardCommit
            <==> i.observation_final && i.transition_final),
        !i.matching_commit_marker ==> (recovery_action(i)
            == CharterLifecycleRecoveryActionV1::InstallBothAndCommit <==> !i.observation_final
            && !i.transition_final && i.observation_staged && i.transition_staged),
        !i.matching_commit_marker ==> (recovery_action(i)
            == CharterLifecycleRecoveryActionV1::InstallMissingAndCommit <==> (i.observation_final
            && !i.transition_final && i.transition_staged) || (!i.observation_final && i.transition_final
            && i.observation_staged)),
        !i.matching_commit_marker ==> (recovery_action(i) == CharterLifecycleRecoveryActionV1::RollbackOwnedState
            <==> !(i.observation_final && i.transition_final) && !(!i.observation_final && !i.transition_final
            && i.observation_staged && i.transition_staged) && !(i.observation_final && !i.transition_final
            && i.transition_staged) && !(!i.observation_final && i.transition_final && i.observation_staged)),
{
}

/// The commit marker of a lifecycle event intent: its SHA-256 fingerprint and a line feed.
pub fn charter_lifecycle_event_commit_marker(raw_intent_bytes: &[u8]) -> (r: Vec<u8>)
    ensures
        r@ == marker_of(raw_intent_bytes@),
        r@.len() == 72,
{
    commit_marker(raw_intent_bytes)
}

/// The content fingerprint of raw bytes.
pub fn raw_fingerprint(bytes: &[u8]) -> (r: String)
    ensures
        r@ == content_fingerprint(bytes@),
{
    string_of(&fingerprint_of_bytes(bytes))
}

/// The JSON whose fingerprint identifies a committed lifecycle state.
pub open spec fn lifecycle_state_json(
    policy_ref: Seq<char>,
    policy_fingerprint: Seq<char>,
    target_instance_id: Seq<char>,
    canonical_fingerprint: Seq<char>,
    result_state: CharterLifecycleState,
    active_fingerprints: Seq<Seq<char>>,
) -> Seq<char> {
    json_object(
        seq![
            json_member("lifecycle_policy_ref"@, json_string(policy_ref)),
            json_member("lifecycle_policy_fingerprint"@, json_string(policy_fingerprint)),
            json_member("target_instance_id"@, json_string(target_instance_id)),
            json_member("current_canonical_fingerprint"@, json_string(canonical_fingerprint)),
            json_member("result_state"@, json_string(state_name(result_state))),
            json_member("active_observation_fingerprints"@, json_string_array(active_fingerprints)),
        ],
    )
}

/// The inputs of a lifecycle state fingerprint are admissible: an exact policy reference,
/// well-formed policy and canonical fingerprints, the project authority as target, and
/// well-formed, distinct active observation fingerprints.
pub open spec fn lifecycle_state_inputs_valid(
    policy_ref: Seq<char>,
    policy_fingerprint: Seq<char>,
    target_instance_id: Seq<char>,
    canonical_fingerprint: Seq<char>,
    active_fingerprints: Seq<Seq<char>>,
) -> bool {
    &&& is_exact_definition_ref(policy_ref)
    &&& is_fingerprint(policy_fingerprint)
    &&& is_fingerprint(canonical_fingerprint)
    &&& target_instance_id == "project_authority"@
    &&& forall|i: int| 0 <= i < active_fingerprints.len() ==> is_fingerprint(#[trigger] active_fingerprints[i])
    &&& active_fingerprints.no_duplicates()
}

fn state_name_json(state: CharterLifecycleState) -> (r: Vec<char>)
    ensures
        r@ == json_string(state_name(state)),
{
    match state {
        CharterLifecycleState::Current => json_str("current"),
        CharterLifecycleState::ReviewRequired => json_str("review_required"),
        CharterLifecycleState::ReassessmentRequired => json_str("reassessment_required"),
    }
}

/// The fingerprint of a committed lifecycle state.
pub fn charter_lifecycle_state_fingerprint(
    lifecycle_policy_ref: &str,
    lifecycle_policy_fingerprint: &str,
    target_instance_id: &str,
    current_canonical_fingerprint: &str,
    result_state: CharterLifecycleState,
    active_observation_fingerprints: &[String],
) -> (r: Result<String, CharterLifecycleStoreErrorV1>)
    ensures
        r is Ok <==> lifecycle_state_inputs_valid(
            lifecycle_policy_ref@,
            lifecycle_policy_fingerprint@,
            target_instance_id@,
            current_canonical_fingerprint@,
            string_views(active_observation_fingerprints@),
        ) && json_fingerprint(
            lifecycle_state_json(
                lifecycle_policy_ref@,
                lifecycle_policy_fingerprint@,
                target_instance_id@,
                current_canonical_fingerprint@,
                result_state,
                string_views(active_observation_fingerprints@),
            ),
        ) is Some,
        r matches Ok(f) ==> json_fingerprint(
            lifecycle_state_json(
                lifecycle_policy_ref@,
                lifecycle_policy_fingerprint@,
                target_instance_id@,
                current_canonical_fingerprint@,
                result_state,
                string_views(active_observation_fingerprints@),
            ),
        ) == Some(f@),
        r matches Err(e) ==> e.error_kind() == CharterLifecycleStoreErrorKindV1::InvalidEvent,
{
    let ghost fps = string_views(active_observation_fingerprints@);
    if !exact_definition_ref(&chars_of(lifecycle_policy_ref)) {
        return Err(invalid_event("lifecycle state policy ref is not an exact definition ref"));
    }
    if !is_fingerprint_chars(&chars_of(lifecycle_policy_fingerprint)) {
        return Err(invalid_event("lifecycle state policy fingerprint is invalid"));
    }
    if !is_fingerprint_chars(&chars_of(current_canonical_fingerprint)) {
        return Err(invalid_event("lifecycle canonical fingerprint is invalid"));
    }
    let target = chars_of(target_instance_id);
    let expected = chars_of("project_authority");
    if !crate::text::chars_eq(&target, &expected) {
        return Err(invalid_event("lifecycle state target instance must be project_authority"));
    }
    let mut i: usize = 0;
    while i < active_observation_fingerprints.len()
        invariant
            fps == string_views(active_observation_fingerprints@),
            i <= active_observation_fingerprints.len(),
            forall|k: int| 0 <= k < i ==> is_fingerprint(#[trigger] fps[k]),
            forall|a: int, b: int| 0 <= a < b < i ==> fps[a] != fps[b],
        decreases active_observation_fingerprints.len() - i,
    {
        let fingerprint = &active_observation_fingerprints[i];
        if !is_fingerprint_chars(&chars_of(fingerprint.as_str())) {
            assert(fps[i as int] == fingerprint@);
            return Err(invalid_event("active observation fingerprint is invalid"));
        }
        if strings_contain(&active_observation_fingerprints[0..i], fingerprint) {
            proof {
                let prefix = string_views(active_observation_fingerprints@.subrange(0, i as int));
                let k = choose|k: int| 0 <= k < prefix.len() && prefix[k] == fingerprint@;
                assert(fps[k] == fps[i as int]);
            }
            return Err(invalid_event("active lifecycle observation fingerprints must be unique"));
        }
        proof {
            assert forall|a: int| 0 <= a < i implies fps[a] != fps[i as int] by {
                let prefix = string_views(active_observation_fingerprints@.subrange(0, i as int));
                assert(prefix[a] == fps[a]);
            }
        }
        i = i + 1;
    }
    let mut members: Vec<Vec<char>> = Vec::new();
    members.push(member_text("lifecycle_policy_ref", json_str(lifecycle_policy_ref)));
    members.push(member_text("lifecycle_policy_fingerprint", json_str(lifecycle_policy_fingerprint)));
    members.push(member_text("target_instance_id", json_str(target_instance_id)));
    members.push(member_text("current_canonical_fingerprint", json_str(current_canonical_fingerprint)));
    members.push(member_text("result_state", state_name_json(result_state)));
    let mut fingerprints: Vec<String> = Vec::new();
    let mut k: usize = 0;
    while k < active_observation_fingerprints.len()
        invariant
            k <= active_observation_fingerprints.len(),
            fingerprints@ == active_observation_fingerprints@.subrange(0, k as int),
        decreases active_observation_fingerprints.len() - k,
    {
        fingerprints.push(active_observation_fingerprints[k].clone());
        assert(fingerprints@ =~= active_observation_fingerprints@.subrange(0, k + 1));
        k = k + 1;
    }
    assert(fingerprints@ =~= active_observation_fingerprints@);
    members.push(member_text("active_observation_fingerprints", string_array_text(&fingerprints)));
    let json = object_text(&members);
    proof {
        assert(views(members@) =~= seq![
            json_member("lifecycle_policy_ref"@, json_string(lifecycle_policy_ref@)),
            json_member("lifecycle_policy_fingerprint"@, json_string(lifecycle_policy_fingerprint@)),
            json_member("target_instance_id"@, json_string(target_instance_id@)),
            json_member("current_canonical_fingerprint"@, json_string(current_canonical_fingerprint@)),
            json_member("result_state"@, json_string(state_name(result_state))),
            json_member("active_observation_fingerprints"@, json_string_array(fps)),
        ]);
        assert(fps.no_duplicates());
    }
    match fingerprint_json(&json) {
        Some(f) => Ok(string_of(&f)),
        None => Err(invalid_event("lifecycle state fingerprint preimage could not be canonicalized")),
    }
}

/// The lifecycle state named by its serialized form.
pub open spec fn state_named(s: Seq<char>) -> Option<CharterLifecycleState> {
    if s == "current"@ {
        Some(CharterLifecycleState::Current)
    } else if s == "review_required"@ {
        Some(CharterLifecycleState::ReviewRequired)
    } else if s == "reassessment_required"@ {
        Some(CharterLifecycleState::ReassessmentRequired)
    } else {
        None
    }
}

/// Parses a stored lifecycle state name.
pub fn parse_state(value: &str) -> (r: Result<CharterLifecycleState, CharterLifecycleStoreErrorV1>)
    ensures
        r matches Ok(s) ==> state_named(value@) == Some(s),
        r is Err ==> state_named(value@) is None,
        r matches Err(e) ==> e.error_kind() == CharterLifecycleStoreErrorKindV1::LineageViolation,
{
    let v = chars_of(value);
    if crate::text::chars_eq(&v, &chars_of("current")) {
        Ok(CharterLifecycleState::Current)
    } else if crate::text::chars_eq(&v, &chars_of("review_required")) {
        Ok(CharterLifecycleState::ReviewRequired)
    } else if crate::text::chars_eq(&v, &chars_of("reassessment_required")) {
        Ok(CharterLifecycleState::ReassessmentRequired)
    } else {
        Err(lineage_error("lifecycle state is not admitted"))
    }
}

/// A lifecycle transaction ID: one to 128 bytes of ASCII letters, digits, `-` and `_`.
pub open spec fn is_transaction_id(s: Seq<char>) -> bool {
    0 < s.len() <= 128 && forall|i: int|
        0 <= i < s.len() ==> is_ascii_alnum(#[trigger] s[i]) || s[i] == '-' || s[i] == '_'
}

/// Whether a text is a lifecycle transaction ID.
pub fn valid_transaction_id(value: &str) -> (r: bool)
    ensures
        r == is_transaction_id(value@),
{
    let v = chars_of(value);
    if v.len() == 0 || v.len() > 128 {
        return false;
    }
    let mut i: usize = 0;
    while i < v.len()
        invariant
            v@ == value@,
            i <= v.len(),
            forall|k: int| 0 <= k < i ==> is_ascii_alnum(#[trigger] v@[k]) || v@[k] == '-' || v@[k] == '_',
        decreases v.len() - i,
    {
        let c = v[i];
        if !(ascii_alnum(c) || c == '-' || c == '_') {
            return false;
        }
        i = i + 1;
    }
    true
}

/// Requires a second-precision UTC audit time.
pub fn validate_utc(value: &str) -> (r: Result<(), CharterLifecycleStoreErrorV1>)
    ensures
        r is Ok <==> is_utc_second(encode_utf8(value@)),
        r matches Err(e) ==> e.error_kind() == CharterLifecycleStoreErrorKindV1::InvalidEvent,
{
    if !utc_second(value.as_bytes()) {
        return Err(invalid_event("lifecycle audit time is not a valid second-precision UTC instant"));
    }
    Ok(())
}

/// The fingerprint that a content-addressed reference names: the 64 lowercase hex digits
/// after the last `_` of its `.json` basename.
pub open spec fn fingerprint_named_by(reference: Seq<char>) -> Option<Seq<char>> {
    let base = reference.skip(last_index_of(reference, '/') + 1);
    if has_suffix(base, ".json"@) {
        let stem = base.take(base.len() - ".json"@.len());
        let u = last_index_of(stem, '_');
        let hex = stem.skip(u + 1);
        if u >= 0 && is_lower_sha256_hex(hex) {
            Some(sha256_prefix() + hex)
        } else {
            None
        }
    } else {
        None
    }
}

/// The fingerprint named by a content-addressed reference, if it names one.
pub fn fingerprint_from_ref(reference: &str) -> (r: Option<String>)
    ensures
        r matches Some(f) ==> fingerprint_named_by(reference@) == Some(f@),
        r is None ==> fingerprint_named_by(reference@) is None,
{
    let v = chars_of(reference);
    let start = match last_index(&v, '/') {
        Some(i) => i + 1,
        None => 0,
    };
    let base = slice_chars(&v, start, v.len());
    assert(base@ =~= reference@.skip(last_index_of(reference@, '/') + 1));
    let suffix = chars_of(".json");
    if !ends_with(&base, &suffix) {
        return None;
    }
    let stem = slice_chars(&base, 0, base.len() - suffix.len());
    assert(stem@ =~= base@.take(base@.len() - ".json"@.len()));
    let u = match last_index(&stem, '_') {
        Some(u) => u,
        None => {
            return None;
        },
    };
    let hex = slice_chars(&stem, u + 1, stem.len());
    assert(hex@ =~= stem@.skip(u + 1));
    if !sha256_hex_text(&hex) {
        return None;
    }
    let mut out = sha256_prefix_chars();
    let mut hex = hex;
    out.append(&mut hex);
    Some(string_of(&out))
}


// ---------------------------------------------------------------------------
// Content-addressed lifecycle records
// ---------------------------------------------------------------------------

/// The ID of a content-addressed record: its prefix, `_` and the hex digits of its fingerprint.
pub open spec fn sealed_id(prefix: Seq<char>, fingerprint: Seq<char>) -> Seq<char> {
    prefix + seq!['_'] + fingerprint_hex(fingerprint)
}

/// The fingerprint of a record preimage and the ID it gives a record with the given prefix.
fn seal_identity(preimage: &Vec<char>, prefix: &str) -> (r: Option<(String, String)>)
    ensures
        r is None <==> json_fingerprint(preimage@) is None,
        r matches Some((id, f)) ==> json_fingerprint(preimage@) == Some(f@) && id@ == sealed_id(prefix@, f@)
            && is_fingerprint(f@),
{
    match fingerprint_json(preimage) {
        Some(f) => {
            let hex = slice_chars(&f, 7, f.len());
            proof {
                lemma_sha256_prefix();
            }
            assert(hex@ =~= fingerprint_hex(f@));
            let mut id = chars_of(prefix);
            id.push('_');
            let mut tail = hex;
            id.append(&mut tail);
            assert(id@ =~= prefix@ + seq!['_'] + fingerprint_hex(f@));
            Some((string_of(&id), string_of(&f)))
        },
        None => None,
    }
}

/// A lifecycle event resolved against the committed authority: the event, the trigger
/// definition it maps to, its serialized kind and when it was observed.
#[derive(Clone, Debug, PartialEq, Eq)]
pub struct ResolvedLifecycleEventV1 {
    pub event: CharterLifecycleEvent,
    pub trigger_ref: String,
    pub trigger_fingerprint: String,
    pub event_kind: String,
    pub observed_at_utc: String,
}

/// A lifecycle observation record.
#[derive(Clone, Debug, PartialEq, Eq)]
pub struct LifecycleObservationRecordV1 {
    pub schema_id: String,
    pub schema_version: String,
    pub observation_id: String,
    pub lifecycle_policy_ref: String,
    pub lifecycle_policy_fingerprint: String,
    pub target_instance_id: String,
    pub basis_canonical_fingerprint: String,
    pub trigger_ref: String,
    pub trigger_fingerprint: String,
    pub evidence_ref: String,
    pub evidence_fingerprint: String,
    pub event_kind: String,
    pub observed_at_utc: String,
    pub observation_fingerprint: String,
}

/// The members of an observation record that its fingerprint covers: all but its ID and
/// fingerprint.
pub open spec fn observation_preimage_members(r: LifecycleObservationRecordV1) -> Seq<Seq<char>> {
    seq![
        json_member("schema_id"@, json_string(r.schema_id@)),
        json_member("schema_version"@, json_string(r.schema_version@)),
        json_member("lifecycle_policy_ref"@, json_string(r.lifecycle_policy_ref@)),
        json_member("lifecycle_policy_fingerprint"@, json_string(r.lifecycle_policy_fingerprint@)),
        json_member("target_instance_id"@, json_string(r.target_instance_id@)),
        json_member("basis_canonical_fingerprint"@, json_string(r.basis_canonical_fingerprint@)),
        json_member("trigger_ref"@, json_string(r.trigger_ref@)),
        json_member("trigger_fingerprint"@, json_string(r.trigger_fingerprint@)),
        json_member("evidence_ref"@, json_string(r.evidence_ref@)),
        json_member("evidence_fingerprint"@, json_string(r.evidence_fingerprint@)),
        json_member("event_kind"@, json_string(r.event_kind@)),
        json_member("observed_at_utc"@, json_string(r.observed_at_utc@)),
    ]
}

/// The fingerprint preimage of an observation record.
pub open spec fn observation_preimage_json(r: LifecycleObservationRecordV1) -> Seq<char> {
    json_object(observation_preimage_members(r))
}

/// The complete JSON of an observation record.
pub open spec fn observation_record_json(r: LifecycleObservationRecordV1) -> Seq<char> {
    json_object(
        observation_preimage_members(r) + seq![
            json_member("observation_id"@, json_string(r.observation_id@)),
            json_member("observation_fingerprint"@, json_string(r.observation_fingerprint@)),
        ],
    )
}

fn observation_member_texts(r: &LifecycleObservationRecordV1) -> (m: Vec<Vec<char>>)
    ensures
        views(m@) == observation_preimage_members(*r),
{
    let mut m: Vec<Vec<char>> = Vec::new();
    m.push(member_text("schema_id", json_str(r.schema_id.as_str())));
    m.push(member_text("schema_version", json_str(r.schema_version.as_str())));
    m.push(member_text("lifecycle_policy_ref", json_str(r.lifecycle_policy_ref.as_str())));
    m.push(member_text("lifecycle_policy_fingerprint", json_str(r.lifecycle_policy_fingerprint.as_str())));
    m.push(member_text("target_instance_id", json_str(r.target_instance_id.as_str())));
    m.push(member_text("basis_canonical_fingerprint", json_str(r.basis_canonical_fingerprint.as_str())));
    m.push(member_text("trigger_ref", json_str(r.trigger_ref.as_str())));
    m.push(member_text("trigger_fingerprint", json_str(r.trigger_fingerprint.as_str())));
    m.push(member_text("evidence_ref", json_str(r.evidence_ref.as_str())));
    m.push(member_text("evidence_fingerprint", json_str(r.evidence_fingerprint.as_str())));
    m.push(member_text("event_kind", json_str(r.event_kind.as_str())));
    m.push(member_text("observed_at_utc", json_str(r.observed_at_utc.as_str())));
    assert(views(m@) =~= observation_preimage_members(*r));
    m
}

/// The JSON text of a complete observation record.
pub fn observation_record_json_text(r: &LifecycleObservationRecordV1) -> (t: Vec<char>)
    ensures
        t@ == observation_record_json(*r),
{
    let mut m = observation_member_texts(r);
    let ghost base = views(m@);
    m.push(member_text("observation_id", json_str(r.observation_id.as_str())));
    m.push(member_text("observation_fingerprint", json_str(r.observation_fingerprint.as_str())));
    assert(views(m@) =~= base + seq![
        json_member("observation_id"@, json_string(r.observation_id@)),
        json_member("observation_fingerprint"@, json_string(r.observation_fingerprint@)),
    ]);
    object_text(&m)
}

/// The canonical bytes of an observation record.
pub fn observation_record_bytes(r: &LifecycleObservationRecordV1) -> (b: Option<Vec<u8>>)
    ensures
        b matches Some(v) ==> jcs_bytes(observation_record_json(*r)) == Some(v@),
        b is None ==> jcs_bytes(observation_record_json(*r)) is None,
{
    canonical_json_bytes(&observation_record_json_text(r))
}

/// Every member of an observation record's preimage, as built from a resolved event under the
/// lifecycle policy and the committed canonical Charter.
pub open spec fn observation_built_from(
    r: LifecycleObservationRecordV1,
    resolved: ResolvedLifecycleEventV1,
    policy_fingerprint: Seq<char>,
    canonical_fingerprint: Seq<char>,
) -> bool {
    &&& r.schema_id@ == "handbook.lifecycle-observation"@
    &&& r.schema_version@ == "1.0"@
    &&& r.lifecycle_policy_ref@ == CHARTER_LIFECYCLE_POLICY_REF@
    &&& r.lifecycle_policy_fingerprint@ == policy_fingerprint
    &&& r.target_instance_id@ == "project_authority"@
    &&& r.basis_canonical_fingerprint@ == canonical_fingerprint
    &&& r.trigger_ref@ == resolved.trigger_ref@
    &&& r.trigger_fingerprint@ == resolved.trigger_fingerprint@
    &&& r.evidence_ref@ == resolved.event.evidence_ref@
    &&& r.evidence_fingerprint@ == resolved.event.evidence_fingerprint@
    &&& r.event_kind@ == resolved.event_kind@
    &&& r.observed_at_utc@ == resolved.observed_at_utc@
}

/// The fingerprint preimage of the observation record that a resolved event gives under the
/// lifecycle policy and the committed canonical Charter.
pub open spec fn planned_observation_json(
    resolved: ResolvedLifecycleEventV1,
    policy_fingerprint: Seq<char>,
    canonical_fingerprint: Seq<char>,
) -> Seq<char> {
    json_object(
        seq![
            json_member("schema_id"@, json_string("handbook.lifecycle-observation"@)),
            json_member("schema_version"@, json_string("1.0"@)),
            json_member("lifecycle_policy_ref"@, json_string(CHARTER_LIFECYCLE_POLICY_REF@)),
            json_member("lifecycle_policy_fingerprint"@, json_string(policy_fingerprint)),
            json_member("target_instance_id"@, json_string("project_authority"@)),
            json_member("basis_canonical_fingerprint"@, json_string(canonical_fingerprint)),
            json_member("trigger_ref"@, json_string(resolved.trigger_ref@)),
            json_member("trigger_fingerprint"@, json_string(resolved.trigger_fingerprint@)),
            json_member("evidence_ref"@, json_string(resolved.event.evidence_ref@)),
            json_member("evidence_fingerprint"@, json_string(resolved.event.evidence_fingerprint@)),
            json_member("event_kind"@, json_string(resolved.event_kind@)),
            json_member("observed_at_utc"@, json_string(resolved.observed_at_utc@)),
        ],
    )
}

/// Builds the observation record of a resolved event, identified by the fingerprint of its
/// preimage.
pub fn build_observation_record(
    resolved: &ResolvedLifecycleEventV1,
    policy_fingerprint: &str,
    canonical_fingerprint: &str,
) -> (r: Result<LifecycleObservationRecordV1, CharterLifecycleStoreErrorV1>)
    ensures
        r matches Ok(rec) ==> {
            &&& observation_built_from(rec, *resolved, policy_fingerprint@, canonical_fingerprint@)
            &&& json_fingerprint(observation_preimage_json(rec)) == Some(rec.observation_fingerprint@)
            &&& rec.observation_id@ == sealed_id("lifecycle-observation"@, rec.observation_fingerprint@)
        },
        r matches Ok(rec) ==> json_fingerprint(planned_observation_json(*resolved, policy_fingerprint@, canonical_fingerprint@))
            == Some(rec.observation_fingerprint@),
        r is Err <==> json_fingerprint(planned_observation_json(*resolved, policy_fingerprint@, canonical_fingerprint@)) is None,
        r matches Err(e) ==> e.error_kind() == CharterLifecycleStoreErrorKindV1::InvalidEvent
            && forall|c: LifecycleObservationRecordV1|
            #[trigger] observation_built_from(c, *resolved, policy_fingerprint@, canonical_fingerprint@)
                ==> json_fingerprint(observation_preimage_json(c)) is None,
{
    let mut record = LifecycleObservationRecordV1 {
        schema_id: "handbook.lifecycle-observation".to_owned(),
        schema_version: "1.0".to_owned(),
        observation_id: String::new(),
        lifecycle_policy_ref: CHARTER_LIFECYCLE_POLICY_REF.to_owned(),
        lifecycle_policy_fingerprint: policy_fingerprint.to_owned(),
        target_instance_id: "project_authority".to_owned(),
        basis_canonical_fingerprint: canonical_fingerprint.to_owned(),
        trigger_ref: resolved.trigger_ref.clone(),
        trigger_fingerprint: resolved.trigger_fingerprint.clone(),
        evidence_ref: resolved.event.evidence_ref.clone(),
        evidence_fingerprint: resolved.event.evidence_fingerprint.clone(),
        event_kind: resolved.event_kind.clone(),
        observed_at_utc: resolved.observed_at_utc.clone(),
        observation_fingerprint: String::new(),
    };
    let ghost candidate = record;
    assert(observation_preimage_json(candidate) =~= planned_observation_json(*resolved, policy_fingerprint@, canonical_fingerprint@));
    let preimage = object_text(&observation_member_texts(&record));
    match seal_identity(&preimage, "lifecycle-observation") {
        Some((id, fingerprint)) => {
            record.observation_id = id;
            record.observation_fingerprint = fingerprint;
            assert(observation_preimage_members(record) =~= observation_preimage_members(candidate));
            Ok(record)
        },
        None => {
            assert forall|c: LifecycleObservationRecordV1|
                #[trigger] observation_built_from(c, *resolved, policy_fingerprint@, canonical_fingerprint@)
                    implies json_fingerprint(observation_preimage_json(c)) is None by {
                assert(observation_preimage_members(c) =~= observation_preimage_members(candidate));
            }
            Err(invalid_event("runtime record fingerprint preimage is invalid"))
        },
    }
}

/// A lifecycle transition record.
#[derive(Clone, Debug, PartialEq, Eq)]
pub struct LifecycleTransitionRecordV1 {
    pub schema_id: String,
    pub schema_version: String,
    pub transition_id: String,
    pub lifecycle_policy_ref: String,
    pub lifecycle_policy_fingerprint: String,
    pub target_instance_id: String,
    pub prior_state: CharterLifecycleState,
    pub prior_state_fingerprint: String,
    pub new_observation_refs: Vec<String>,
    pub active_observation_refs: Vec<String>,
    pub result_state: CharterLifecycleState,
    pub result_state_fingerprint: String,
    pub clearance_promotion_ref: Option<String>,
    pub transitioned_at_utc: String,
    pub transition_fingerprint: String,
}

pub open spec fn opt_text(o: Option<String>) -> Option<Seq<char>> {
    match o {
        Some(s) => Some(s@),
        None => None,
    }
}

/// The members of a transition record that its fingerprint covers: all but its ID, its
/// fingerprint and its audit time.
pub open spec fn transition_preimage_members(r: LifecycleTransitionRecordV1) -> Seq<Seq<char>> {
    seq![
        json_member("schema_id"@, json_string(r.schema_id@)),
        json_member("schema_version"@, json_string(r.schema_version@)),
        json_member("lifecycle_policy_ref"@, json_string(r.lifecycle_policy_ref@)),
        json_member("lifecycle_policy_fingerprint"@, json_string(r.lifecycle_policy_fingerprint@)),
        json_member("target_instance_id"@, json_string(r.target_instance_id@)),
        json_member("prior_state"@, json_string(state_name(r.prior_state))),
        json_member("prior_state_fingerprint"@, json_string(r.prior_state_fingerprint@)),
        json_member("new_observation_refs"@, json_string_array(string_views(r.new_observation_refs@))),
        json_member(
            "active_observation_refs"@,
            json_string_array(string_views(r.active_observation_refs@)),
        ),
        json_member("result_state"@, json_string(state_name(r.result_state))),
        json_member("result_state_fingerprint"@, json_string(r.result_state_fingerprint@)),
        json_member("clearance_promotion_ref"@, json_opt_string(opt_text(r.clearance_promotion_ref))),
    ]
}

/// The fingerprint preimage of a transition record.
pub open spec fn transition_preimage_json(r: LifecycleTransitionRecordV1) -> Seq<char> {
    json_object(transition_preimage_members(r))
}

/// The complete JSON of a transition record.
pub open spec fn transition_record_json(r: LifecycleTransitionRecordV1) -> Seq<char> {
    json_object(
        transition_preimage_members(r) + seq![
            json_member("transition_id"@, json_string(r.transition_id@)),
            json_member("transitioned_at_utc"@, json_string(r.transitioned_at_utc@)),
            json_member("transition_fingerprint"@, json_string(r.transition_fingerprint@)),
        ],
    )
}

fn copy_string_list(v: &Vec<String>) -> (r: Vec<String>)
    ensures
        r@ == v@,
{
    let mut out: Vec<String> = Vec::new();
    let mut i: usize = 0;
    while i < v.len()
        invariant
            i <= v.len(),
            out@ == v@.subrange(0, i as int),
        decreases v.len() - i,
    {
        out.push(v[i].clone());
        assert(out@ =~= v@.subrange(0, i + 1));
        i = i + 1;
    }
    assert(out@ =~= v@);
    out
}

fn transition_member_texts(r: &LifecycleTransitionRecordV1) -> (m: Vec<Vec<char>>)
    ensures
        views(m@) == transition_preimage_members(*r),
{
    let mut m: Vec<Vec<char>> = Vec::new();
    m.push(member_text("schema_id", json_str(r.schema_id.as_str())));
    m.push(member_text("schema_version", json_str(r.schema_version.as_str())));
    m.push(member_text("lifecycle_policy_ref", json_str(r.lifecycle_policy_ref.as_str())));
    m.push(member_text("lifecycle_policy_fingerprint", json_str(r.lifecycle_policy_fingerprint.as_str())));
    m.push(member_text("target_instance_id", json_str(r.target_instance_id.as_str())));
    m.push(member_text("prior_state", state_name_json(r.prior_state)));
    m.push(member_text("prior_state_fingerprint", json_str(r.prior_state_fingerprint.as_str())));
    m.push(member_text("new_observation_refs", string_array_text(&copy_string_list(&r.new_observation_refs))));
    m.push(
        member_text("active_observation_refs", string_array_text(&copy_string_list(&r.active_observation_refs))),
    );
    m.push(member_text("result_state", state_name_json(r.result_state)));
    m.push(member_text("result_state_fingerprint", json_str(r.result_state_fingerprint.as_str())));
    m.push(member_text("clearance_promotion_ref", opt_string_text(&r.clearance_promotion_ref)));
    assert(views(m@) =~= transition_preimage_members(*r));
    m
}

/// The JSON text of a complete transition record.
pub fn transition_record_json_text(r: &LifecycleTransitionRecordV1) -> (t: Vec<char>)
    ensures
        t@ == transition_record_json(*r),
{
    let mut m = transition_member_texts(r);
    let ghost base = views(m@);
    m.push(member_text("transition_id", json_str(r.transition_id.as_str())));
    m.push(member_text("transitioned_at_utc", json_str(r.transitioned_at_utc.as_str())));
    m.push(member_text("transition_fingerprint", json_str(r.transition_fingerprint.as_str())));
    assert(views(m@) =~= base + seq![
        json_member("transition_id"@, json_string(r.transition_id@)),
        json_member("transitioned_at_utc"@, json_string(r.transitioned_at_utc@)),
        json_member("transition_fingerprint"@, json_string(r.transition_fingerprint@)),
    ]);
    object_text(&m)
}

/// The canonical bytes of a transition record.
pub fn transition_record_bytes(r: &LifecycleTransitionRecordV1) -> (b: Option<Vec<u8>>)
    ensures
        b matches Some(v) ==> jcs_bytes(transition_record_json(*r)) == Some(v@),
        b is None ==> jcs_bytes(transition_record_json(*r)) is None,
{
    canonical_json_bytes(&transition_record_json_text(r))
}

/// Every member of a transition record's preimage, and its audit time, as given.
pub open spec fn transition_built_from(
    r: LifecycleTransitionRecordV1,
    policy_fingerprint: Seq<char>,
    prior_state: CharterLifecycleState,
    prior_state_fingerprint: Seq<char>,
    result_state: CharterLifecycleState,
    result_state_fingerprint: Seq<char>,
    new_observation_refs: Seq<Seq<char>>,
    active_observation_refs: Seq<Seq<char>>,
    clearance_promotion_ref: Option<Seq<char>>,
    transitioned_at_utc: Seq<char>,
) -> bool {
    &&& r.schema_id@ == "handbook.lifecycle-transition"@
    &&& r.schema_version@ == "1.0"@
    &&& r.lifecycle_policy_ref@ == CHARTER_LIFECYCLE_POLICY_REF@
    &&& r.lifecycle_policy_fingerprint@ == policy_fingerprint
    &&& r.target_instance_id@ == "project_authority"@
    &&& r.prior_state == prior_state
    &&& r.prior_state_fingerprint@ == prior_state_fingerprint
    &&& string_views(r.new_observation_refs@) == new_observation_refs
    &&& string_views(r.active_observation_refs@) == active_observation_refs
    &&& r.result_state == result_state
    &&& r.result_state_fingerprint@ == result_state_fingerprint
    &&& opt_text(r.clearance_promotion_ref) == clearance_promotion_ref
    &&& r.transitioned_at_utc@ == transitioned_at_utc
}

/// The fingerprint preimage of the transition record with the given members.
pub open spec fn planned_transition_json(
    policy_fingerprint: Seq<char>,
    prior_state: CharterLifecycleState,
    prior_state_fingerprint: Seq<char>,
    result_state: CharterLifecycleState,
    result_state_fingerprint: Seq<char>,
    new_observation_refs: Seq<Seq<char>>,
    active_observation_refs: Seq<Seq<char>>,
    clearance_promotion_ref: Option<Seq<char>>,
) -> Seq<char> {
    json_object(
        seq![
            json_member("schema_id"@, json_string("handbook.lifecycle-transition"@)),
            json_member("schema_version"@, json_string("1.0"@)),
            json_member("lifecycle_policy_ref"@, json_string(CHARTER_LIFECYCLE_POLICY_REF@)),
            json_member("lifecycle_policy_fingerprint"@, json_string(policy_fingerprint)),
            json_member("target_instance_id"@, json_string("project_authority"@)),
            json_member("prior_state"@, json_string(state_name(prior_state))),
            json_member("prior_state_fingerprint"@, json_string(prior_state_fingerprint)),
            json_member("new_observation_refs"@, json_string_array(new_observation_refs)),
            json_member("active_observation_refs"@, json_string_array(active_observation_refs)),
            json_member("result_state"@, json_string(state_name(result_state))),
            json_member("result_state_fingerprint"@, json_string(result_state_fingerprint)),
            json_member("clearance_promotion_ref"@, json_opt_string(clearance_promotion_ref)),
        ],
    )
}

/// Builds a lifecycle transition record at a second-precision UTC time, identified by the
/// fingerprint of its preimage.
pub fn build_transition_record(
    policy_fingerprint: &str,
    prior_state: CharterLifecycleState,
    prior_state_fingerprint: &str,
    result_state: CharterLifecycleState,
    result_state_fingerprint: &str,
    new_observation_refs: Vec<String>,
    active_observation_refs: Vec<String>,
    clearance_promotion_ref: Option<String>,
    transitioned_at_utc: &str,
) -> (r: Result<LifecycleTransitionRecordV1, CharterLifecycleStoreErrorV1>)
    ensures
        r is Err <==> !is_utc_second(encode_utf8(transitioned_at_utc@)) || json_fingerprint(
            planned_transition_json(
                policy_fingerprint@,
                prior_state,
                prior_state_fingerprint@,
                result_state,
                result_state_fingerprint@,
                string_views(new_observation_refs@),
                string_views(active_observation_refs@),
                opt_text(clearance_promotion_ref),
            ),
        ) is None,
        r matches Ok(rec) ==> {
            &&& is_utc_second(encode_utf8(transitioned_at_utc@))
            &&& transition_built_from(
                rec,
                policy_fingerprint@,
                prior_state,
                prior_state_fingerprint@,
                result_state,
                result_state_fingerprint@,
                string_views(new_observation_refs@),
                string_views(active_observation_refs@),
                opt_text(clearance_promotion_ref),
                transitioned_at_utc@,
            )
            &&& json_fingerprint(transition_preimage_json(rec)) == Some(rec.transition_fingerprint@)
            &&& rec.transition_id@ == sealed_id("lifecycle-transition"@, rec.transition_fingerprint@)
        },
        r matches Err(e) ==> e.error_kind() == CharterLifecycleStoreErrorKindV1::InvalidEvent && (
        !is_utc_second(encode_utf8(transitioned_at_utc@)) || forall|c: LifecycleTransitionRecordV1|
            #[trigger] transition_built_from(
                c,
                policy_fingerprint@,
                prior_state,
                prior_state_fingerprint@,
                result_state,
                result_state_fingerprint@,
                string_views(new_observation_refs@),
                string_views(active_observation_refs@),
                opt_text(clearance_promotion_ref),
                transitioned_at_utc@,
            ) ==> json_fingerprint(transition_preimage_json(c)) is None),
{
    match validate_utc(transitioned_at_utc) {
        Ok(()) => {},
        Err(e) => {
            return Err(e);
        },
    }
    let ghost news = string_views(new_observation_refs@);
    let ghost actives = string_views(active_observation_refs@);
    let ghost clearance = opt_text(clearance_promotion_ref);
    let mut record = LifecycleTransitionRecordV1 {
        schema_id: "handbook.lifecycle-transition".to_owned(),
        schema_version: "1.0".to_owned(),
        transition_id: String::new(),
        lifecycle_policy_ref: CHARTER_LIFECYCLE_POLICY_REF.to_owned(),
        lifecycle_policy_fingerprint: policy_fingerprint.to_owned(),
        target_instance_id: "project_authority".to_owned(),
        prior_state,
        prior_state_fingerprint: prior_state_fingerprint.to_owned(),
        new_observation_refs,
        active_observation_refs,
        result_state,
        result_state_fingerprint: result_state_fingerprint.to_owned(),
        clearance_promotion_ref,
        transitioned_at_utc: transitioned_at_utc.to_owned(),
        transition_fingerprint: String::new(),
    };
    let ghost candidate = record;
    assert(transition_preimage_json(candidate) =~= planned_transition_json(
        policy_fingerprint@,
        prior_state,
        prior_state_fingerprint@,
        result_state,
        result_state_fingerprint@,
        news,
        actives,
        clearance,
    ));
    let preimage = object_text(&transition_member_texts(&record));
    match seal_identity(&preimage, "lifecycle-transition") {
        Some((id, fingerprint)) => {
            record.transition_id = id;
            record.transition_fingerprint = fingerprint;
            assert(transition_preimage_members(record) =~= transition_preimage_members(candidate));
            Ok(record)
        },
        None => {
            assert forall|c: LifecycleTransitionRecordV1|
                #[trigger] transition_built_from(
                    c,
                    policy_fingerprint@,
                    prior_state,
                    prior_state_fingerprint@,
                    result_state,
                    result_state_fingerprint@,
                    news,
                    actives,
                    clearance,
                    transitioned_at_utc@,
                ) implies json_fingerprint(transition_preimage_json(c)) is None by {
                assert(transition_preimage_members(c) =~= transition_preimage_members(candidate));
            }
            Err(invalid_event("runtime record fingerprint preimage is invalid"))
        },
    }
}


// ---------------------------------------------------------------------------
// Resolving lifecycle events
// ---------------------------------------------------------------------------

fn str_is(a: &str, b: &str) -> (r: bool)
    ensures
        r == (a@ == b@),
{
    crate::text::chars_eq(&chars_of(a), &chars_of(b))
}

/// A candidate basis that names the given canonical fingerprint.
pub open spec fn basis_is(candidate_basis: Option<&str>, canonical_fingerprint: Seq<char>) -> bool {
    match candidate_basis {
        Some(b) => b@ == canonical_fingerprint,
        None => false,
    }
}

/// A standalone trigger evidence record; `extension_keys` are the keys of its extensions
/// object.
#[derive(Clone, Debug, PartialEq, Eq)]
pub struct LifecycleTriggerEvidenceV1 {
    pub schema_id: String,
    pub schema_version: String,
    pub event_id: String,
    pub target_instance_id: String,
    pub basis_canonical_fingerprint: String,
    pub event_kind: String,
    pub prior_evidence_ref: String,
    pub prior_evidence_fingerprint: String,
    pub current_evidence_ref: String,
    pub current_evidence_fingerprint: String,
    pub observed_at_utc: String,
    pub extension_keys: Vec<String>,
    pub evidence_fingerprint: String,
}

/// The identity of trigger evidence: its schema and the project authority as target.
pub open spec fn trigger_evidence_identity_ok(e: LifecycleTriggerEvidenceV1) -> bool {
    &&& e.schema_id@ == "handbook.lifecycle-trigger-evidence"@
    &&& e.schema_version@ == "1.0"@
    &&& e.target_instance_id@ == "project_authority"@
}

/// The content of trigger evidence: distinct well-formed prior and current fingerprints, no
/// extensions, and a second-precision UTC observation time.
pub open spec fn trigger_evidence_content_ok(e: LifecycleTriggerEvidenceV1) -> bool {
    &&& is_fingerprint(e.prior_evidence_fingerprint@)
    &&& is_fingerprint(e.current_evidence_fingerprint@)
    &&& e.prior_evidence_fingerprint@ != e.current_evidence_fingerprint@
    &&& e.extension_keys@.len() == 0
    &&& is_utc_second(encode_utf8(e.observed_at_utc@))
}

/// Checks trigger evidence against the committed canonical fingerprint: its identity first,
/// then its basis, then its content.
pub fn validate_trigger_evidence(evidence: &LifecycleTriggerEvidenceV1, expected_basis: &str) -> (r: Result<
    (),
    CharterLifecycleStoreErrorV1,
>)
    ensures
        r is Ok <==> trigger_evidence_identity_ok(*evidence) && evidence.basis_canonical_fingerprint@
            == expected_basis@ && trigger_evidence_content_ok(*evidence),
        r matches Err(e) ==> (e.error_kind() == CharterLifecycleStoreErrorKindV1::StaleBasis
            <==> trigger_evidence_identity_ok(*evidence) && evidence.basis_canonical_fingerprint@
            != expected_basis@),
        r matches Err(e) ==> e.error_kind() == CharterLifecycleStoreErrorKindV1::StaleBasis
            || e.error_kind() == CharterLifecycleStoreErrorKindV1::InvalidEvent,
{
    if !(str_is(evidence.schema_id.as_str(), "handbook.lifecycle-trigger-evidence") && str_is(
        evidence.schema_version.as_str(),
        "1.0",
    ) && str_is(evidence.target_instance_id.as_str(), "project_authority")) {
        return Err(invalid_event("trigger evidence identity is invalid"));
    }
    if !str_is(evidence.basis_canonical_fingerprint.as_str(), expected_basis) {
        return Err(
            error(
                CharterLifecycleStoreErrorKindV1::StaleBasis,
                "trigger evidence basis differs from current canonical authority",
            ),
        );
    }
    if !is_fingerprint_chars(&chars_of(evidence.prior_evidence_fingerprint.as_str())) {
        return Err(invalid_event("prior evidence fingerprint is invalid"));
    }
    if !is_fingerprint_chars(&chars_of(evidence.current_evidence_fingerprint.as_str())) {
        return Err(invalid_event("current evidence fingerprint is invalid"));
    }
    if evidence.prior_evidence_fingerprint == evidence.current_evidence_fingerprint {
        return Err(invalid_event("trigger evidence prior and current fingerprints must differ"));
    }
    if evidence.extension_keys.len() != 0 {
        return Err(invalid_event("trigger evidence extensions must be empty"));
    }
    validate_utc(evidence.observed_at_utc.as_str())
}

/// The reassessment trigger that a serialized trigger evidence kind maps to.
pub open spec fn reassessment_trigger_of(event_kind: Seq<char>) -> Option<(CharterLifecycleEventKind, Seq<char>)> {
    if event_kind == "production_posture_changed"@ {
        Some((CharterLifecycleEventKind::ProductionPostureChanged, PRODUCTION_POSTURE_TRIGGER_REF@))
    } else if event_kind == "trust_boundary_changed"@ {
        Some((CharterLifecycleEventKind::TrustBoundaryChanged, TRUST_BOUNDARY_TRIGGER_REF@))
    } else {
        None
    }
}

/// Maps a serialized trigger evidence kind to its event kind and admitted reassessment trigger.
pub fn reassessment_trigger(event_kind: &str) -> (r: Result<
    (CharterLifecycleEventKind, &'static str),
    CharterLifecycleStoreErrorV1,
>)
    ensures
        r matches Ok((kind, trigger)) ==> reassessment_trigger_of(event_kind@) == Some((kind, trigger@)),
        r matches Err(e) ==> reassessment_trigger_of(event_kind@) is None && e.error_kind()
            == CharterLifecycleStoreErrorKindV1::UnknownTrigger,
{
    if str_is(event_kind, "production_posture_changed") {
        Ok((CharterLifecycleEventKind::ProductionPostureChanged, PRODUCTION_POSTURE_TRIGGER_REF))
    } else if str_is(event_kind, "trust_boundary_changed") {
        Ok((CharterLifecycleEventKind::TrustBoundaryChanged, TRUST_BOUNDARY_TRIGGER_REF))
    } else {
        Err(
            error(
                CharterLifecycleStoreErrorKindV1::UnknownTrigger,
                "standalone trigger evidence does not map to an admitted reassessment trigger",
            ),
        )
    }
}

/// The pinned fingerprint of a trigger definition.
pub open spec fn pinned_trigger(reference: Seq<char>, fingerprint: Seq<char>) -> bool {
    exists|k: int|
        0 <= k < definition_binding_table().len() && (#[trigger] definition_binding_table()[k]).1
            == reference && definition_binding_table()[k].2 == fingerprint
}

/// Resolves standalone trigger evidence, read by its record reference and fingerprint, against
/// the committed canonical fingerprint.
pub fn resolve_trigger_evidence_event(
    evidence: &LifecycleTriggerEvidenceV1,
    evidence_ref: &str,
    evidence_record_fingerprint: &str,
    canonical_fingerprint: &str,
) -> (r: Result<ResolvedLifecycleEventV1, CharterLifecycleStoreErrorV1>)
    ensures
        r is Ok <==> trigger_evidence_identity_ok(*evidence) && evidence.basis_canonical_fingerprint@
            == canonical_fingerprint@ && trigger_evidence_content_ok(*evidence)
            && reassessment_trigger_of(evidence.event_kind@) is Some,
        r matches Ok(res) ==> {
            &&& reassessment_trigger_of(evidence.event_kind@) == Some((res.event.kind, res.trigger_ref@))
            &&& pinned_trigger(res.trigger_ref@, res.trigger_fingerprint@)
            &&& res.event.event_fingerprint@ == evidence_record_fingerprint@
            &&& res.event.basis_artifact_fingerprint@ == canonical_fingerprint@
            &&& res.event.evidence_ref@ == evidence_ref@
            &&& res.event.evidence_fingerprint@ == evidence.evidence_fingerprint@
            &&& res.event_kind@ == evidence.event_kind@
            &&& res.observed_at_utc@ == evidence.observed_at_utc@
        },
        r matches Err(e) ==> (e.error_kind() == CharterLifecycleStoreErrorKindV1::UnknownTrigger <==> (
        trigger_evidence_identity_ok(*evidence) && evidence.basis_canonical_fingerprint@
            == canonical_fingerprint@ && trigger_evidence_content_ok(*evidence))),
        r matches Err(e) ==> (e.error_kind() == CharterLifecycleStoreErrorKindV1::StaleBasis <==> (
        trigger_evidence_identity_ok(*evidence) && evidence.basis_canonical_fingerprint@
            != canonical_fingerprint@)),
{
    match validate_trigger_evidence(evidence, canonical_fingerprint) {
        Ok(()) => {},
        Err(e) => {
            return Err(e);
        },
    }
    let (kind, trigger_ref) = match reassessment_trigger(evidence.event_kind.as_str()) {
        Ok(t) => t,
        Err(e) => {
            return Err(e);
        },
    };
    let trigger_fingerprint = match pinned_definition_fingerprint(trigger_ref) {
        Some(f) => f,
        None => {
            proof {
                reveal_strlit("handbook.intake-trigger.production-posture-changed@1.0.0");
                reveal_strlit("handbook.intake-trigger.trust-boundary-changed@1.0.0");
                let t = definition_binding_table();
                if trigger_ref@ == PRODUCTION_POSTURE_TRIGGER_REF@ {
                    assert(t[4].1 == trigger_ref@);
                } else {
                    assert(t[5].1 == trigger_ref@);
                }
            }
            return Err(lineage_error("mapped trigger definition is absent"));
        },
    };
    Ok(
        ResolvedLifecycleEventV1 {
            event: CharterLifecycleEvent {
                event_fingerprint: evidence_record_fingerprint.to_owned(),
                basis_artifact_fingerprint: canonical_fingerprint.to_owned(),
                kind,
                evidence_ref: evidence_ref.to_owned(),
                evidence_fingerprint: evidence.evidence_fingerprint.clone(),
            },
            trigger_ref: trigger_ref.to_owned(),
            trigger_fingerprint,
            event_kind: evidence.event_kind.clone(),
            observed_at_utc: evidence.observed_at_utc.clone(),
        },
    )
}

/// Resolves a candidate amendment against the committed canonical fingerprint.
/// `constitutional_change` says whether the candidate's policy, governance or engineering
/// posture subtree differs from that of the committed canonical Charter.
pub fn resolve_amendment_event(
    candidate_ref: &str,
    candidate_fingerprint: &str,
    observed_at_utc: &str,
    candidate_basis: Option<&str>,
    canonical_fingerprint: &str,
    constitutional_change: bool,
) -> (r: Result<ResolvedLifecycleEventV1, CharterLifecycleStoreErrorV1>)
    ensures
        r is Ok <==> is_utc_second(encode_utf8(observed_at_utc@)) && basis_is(candidate_basis, canonical_fingerprint@) && constitutional_change,
        r matches Ok(res) ==> {
            &&& res.event.kind == CharterLifecycleEventKind::Review
            &&& res.trigger_ref@ == CHARTER_REVIEW_TRIGGER_REF@
            &&& pinned_trigger(res.trigger_ref@, res.trigger_fingerprint@)
            &&& res.event.event_fingerprint@ == candidate_fingerprint@
            &&& res.event.basis_artifact_fingerprint@ == canonical_fingerprint@
            &&& res.event.evidence_ref@ == candidate_ref@
            &&& res.event.evidence_fingerprint@ == candidate_fingerprint@
            &&& res.event_kind@ == "charter_amendment_proposed"@
            &&& res.observed_at_utc@ == observed_at_utc@
        },
        r matches Err(e) ==> (e.error_kind() == CharterLifecycleStoreErrorKindV1::InvalidEvent
            <==> !is_utc_second(encode_utf8(observed_at_utc@))),
        r matches Err(e) ==> (e.error_kind() == CharterLifecycleStoreErrorKindV1::StaleBasis <==> (
        is_utc_second(encode_utf8(observed_at_utc@)) && !basis_is(candidate_basis, canonical_fingerprint@))),
        r matches Err(e) ==> (e.error_kind() == CharterLifecycleStoreErrorKindV1::UnknownTrigger <==> (
        is_utc_second(encode_utf8(observed_at_utc@)) && basis_is(candidate_basis, canonical_fingerprint@))),
{
    match validate_utc(observed_at_utc) {
        Ok(()) => {},
        Err(e) => {
            return Err(e);
        },
    }
    let basis_matches = match candidate_basis {
        Some(b) => str_is(b, canonical_fingerprint),
        None => false,
    };
    if !basis_matches {
        return Err(
            error(
                CharterLifecycleStoreErrorKindV1::StaleBasis,
                "amendment candidate basis differs from current canonical authority",
            ),
        );
    }
    if !constitutional_change {
        return Err(
            error(
                CharterLifecycleStoreErrorKindV1::UnknownTrigger,
                "candidate does not change a review-triggered constitutional subtree",
            ),
        );
    }
    let trigger_fingerprint = match pinned_definition_fingerprint(CHARTER_REVIEW_TRIGGER_REF) {
        Some(f) => f,
        None => {
            proof {
                reveal_strlit("handbook.lifecycle-trigger.charter-amendment-proposed@1.0.0");
                assert(definition_binding_table()[7].1 == CHARTER_REVIEW_TRIGGER_REF@);
            }
            return Err(lineage_error("review trigger definition is absent"));
        },
    };
    Ok(
        ResolvedLifecycleEventV1 {
            event: CharterLifecycleEvent {
                event_fingerprint: candidate_fingerprint.to_owned(),
                basis_artifact_fingerprint: canonical_fingerprint.to_owned(),
                kind: CharterLifecycleEventKind::Review,
                evidence_ref: candidate_ref.to_owned(),
                evidence_fingerprint: candidate_fingerprint.to_owned(),
            },
            trigger_ref: CHARTER_REVIEW_TRIGGER_REF.to_owned(),
            trigger_fingerprint,
            event_kind: "charter_amendment_proposed".to_owned(),
            observed_at_utc: observed_at_utc.to_owned(),
        },
    )
}


// ---------------------------------------------------------------------------
// Recording a lifecycle event
// ---------------------------------------------------------------------------

/// An active observation with the reference and fingerprint of its observation record.
#[derive(Clone, Debug, PartialEq, Eq)]
pub struct ActiveObservationRecordV1 {
    pub reference: String,
    pub fingerprint: String,
    pub observation: CharterLifecycleObservation,
}

/// An active observation record as (reference, fingerprint, observation).
pub open spec fn active_record_view(r: ActiveObservationRecordV1) -> (Seq<char>, Seq<char>, LifecycleObservationView) {
    (r.reference@, r.fingerprint@, r.observation@)
}

pub open spec fn active_record_views(s: Seq<ActiveObservationRecordV1>) -> Seq<(Seq<char>, Seq<char>, LifecycleObservationView)> {
    s.map_values(|r: ActiveObservationRecordV1| active_record_view(r))
}

/// Record `a` comes before record `b`: posture and trust-boundary changes before reviews, then
/// by event fingerprint.
pub open spec fn record_view_lt(
    a: (Seq<char>, Seq<char>, LifecycleObservationView),
    b: (Seq<char>, Seq<char>, LifecycleObservationView),
) -> bool {
    key_lt(precedence(a.2.kind), a.2.event_fingerprint, precedence(b.2.kind), b.2.event_fingerprint)
}

/// No record comes before one that precedes it.
pub open spec fn records_in_order(s: Seq<(Seq<char>, Seq<char>, LifecycleObservationView)>) -> bool {
    forall|i: int, j: int| 0 <= i < j < s.len() ==> !record_view_lt(#[trigger] s[j], #[trigger] s[i])
}

fn kind_rank(kind: CharterLifecycleEventKind) -> (r: u8)
    ensures
        r == precedence(kind),
{
    match kind {
        CharterLifecycleEventKind::Review => 1,
        _ => 0,
    }
}

fn record_lt(a: &ActiveObservationRecordV1, b: &ActiveObservationRecordV1) -> (r: bool)
    ensures
        r == record_view_lt(active_record_view(*a), active_record_view(*b)),
{
    let pa = kind_rank(a.observation.kind);
    let pb = kind_rank(b.observation.kind);
    if pa < pb {
        true
    } else if pa > pb {
        false
    } else {
        crate::text::chars_lt(
            &chars_of(a.observation.event_fingerprint.as_str()),
            &chars_of(b.observation.event_fingerprint.as_str()),
        )
    }
}

/// Orders active observation records, posture and trust-boundary changes before reviews and
/// then by event fingerprint, keeping records of equal rank in their given order.
pub fn order_active_records(records: Vec<ActiveObservationRecordV1>) -> (r: Vec<ActiveObservationRecordV1>)
    ensures
        active_record_views(r@).to_multiset() == active_record_views(records@).to_multiset(),
        records_in_order(active_record_views(r@)),
{
    broadcast use vstd::seq_lib::group_to_multiset_ensures, vstd::multiset::group_multiset_axioms;

    let ghost input = active_record_views(records@);
    let mut out: Vec<ActiveObservationRecordV1> = Vec::new();
    let mut rest = records;
    assert(active_record_views(out@) =~= Seq::empty());
    assert(active_record_views(out@).to_multiset() =~= vstd::multiset::Multiset::empty());
    while rest.len() > 0
        invariant
            records_in_order(active_record_views(out@)),
            active_record_views(out@).to_multiset().add(active_record_views(rest@).to_multiset())
                == input.to_multiset(),
        decreases rest.len(),
    {
        let ghost before_rest = active_record_views(rest@);
        let x = rest.remove(0);
        proof {
            assert(active_record_views(rest@) =~= before_rest.remove(0));
            assert(before_rest[0] == active_record_view(x));
            vstd::seq_lib::to_multiset_remove(before_rest, 0);
        }
        let ghost ov = active_record_views(out@);
        let mut pos: usize = 0;
        let mut done = false;
        while !done && pos < out.len()
            invariant
                pos <= out.len(),
                ov == active_record_views(out@),
                records_in_order(ov),
                forall|k: int| 0 <= k < pos ==> !record_view_lt(active_record_view(x), #[trigger] ov[k]),
                done ==> pos < out.len() && record_view_lt(active_record_view(x), ov[pos as int]),
            decreases out.len() - pos + (if done { 0int } else { 1int }),
        {
            if record_lt(&x, &out[pos]) {
                done = true;
            } else {
                pos = pos + 1;
            }
        }
        let ghost xv = active_record_view(x);
        out.insert(pos, x);
        proof {
            let nv = active_record_views(out@);
            assert(nv =~= ov.insert(pos as int, xv));
            assert forall|i: int, j: int| 0 <= i < j < nv.len() implies !record_view_lt(
                #[trigger] nv[j],
                #[trigger] nv[i],
            ) by {
                if j < pos {
                    assert(nv[i] == ov[i] && nv[j] == ov[j]);
                } else if i < pos && j == pos {
                    assert(nv[i] == ov[i]);
                } else if i < pos {
                    assert(nv[i] == ov[i] && nv[j] == ov[j - 1]);
                } else if i == pos {
                    assert(nv[j] == ov[j - 1]);
                    assert(record_view_lt(xv, ov[pos as int]));
                    if j - 1 > pos {
                        assert(!record_view_lt(ov[j - 1], ov[pos as int]));
                    }
                    if record_view_lt(ov[j - 1], xv) {
                        let a = ov[j - 1];
                        let b = ov[pos as int];
                        lemma_key_lt(
                            precedence(a.2.kind),
                            a.2.event_fingerprint,
                            precedence(xv.2.kind),
                            xv.2.event_fingerprint,
                            precedence(b.2.kind),
                            b.2.event_fingerprint,
                        );
                        lemma_key_lt(
                            precedence(a.2.kind),
                            a.2.event_fingerprint,
                            precedence(a.2.kind),
                            a.2.event_fingerprint,
                            precedence(a.2.kind),
                            a.2.event_fingerprint,
                        );
                    }
                } else {
                    assert(nv[i] == ov[i - 1] && nv[j] == ov[j - 1]);
                }
            }
            vstd::seq_lib::to_multiset_insert(ov, pos as int, xv);
            assert(active_record_views(out@).to_multiset() =~= ov.to_multiset().insert(xv));
            assert(before_rest.contains(xv));
            vstd::seq_lib::to_multiset_contains(before_rest, xv);
            assert(before_rest.to_multiset().count(xv) > 0);
            assert(active_record_views(out@).to_multiset().add(active_record_views(rest@).to_multiset())
                =~= ov.to_multiset().add(before_rest.to_multiset()));
        }
    }
    assert(active_record_views(rest@) =~= Seq::empty());
    assert(active_record_views(rest@).to_multiset() =~= vstd::multiset::Multiset::empty());
    out
}


/// A record reference in a lineage partition: the partition, `/`, the record ID and `.json`.
pub open spec fn lineage_ref(partition: Seq<char>, id: Seq<char>) -> Seq<char> {
    partition + seq!['/'] + id + ".json"@
}

fn lineage_ref_text(partition: &str, id: &String) -> (r: String)
    ensures
        r@ == lineage_ref(partition@, id@),
{
    let mut out = chars_of(partition);
    out.push('/');
    let mut name = chars_of(id.as_str());
    out.append(&mut name);
    let mut suffix = chars_of(".json");
    out.append(&mut suffix);
    string_of(&out)
}

/// The active observation records that a lifecycle head holds: its references, fingerprints
/// and observations taken together, as far as all three reach.
pub open spec fn head_active_views(a: CharterLifecycleAuthorityV1) -> Seq<(Seq<char>, Seq<char>, LifecycleObservationView)> {
    let n = if a.active_observation_refs@.len() <= a.active_observation_fingerprints@.len() {
        if a.active_observation_refs@.len() <= a.active_observations@.len() {
            a.active_observation_refs@.len()
        } else {
            a.active_observations@.len()
        }
    } else if a.active_observation_fingerprints@.len() <= a.active_observations@.len() {
        a.active_observation_fingerprints@.len()
    } else {
        a.active_observations@.len()
    };
    Seq::new(
        n,
        |k: int|
            (
                a.active_observation_refs@[k]@,
                a.active_observation_fingerprints@[k]@,
                a.active_observations@[k]@,
            ),
    )
}

fn head_active_records(a: &CharterLifecycleAuthorityV1) -> (r: Vec<ActiveObservationRecordV1>)
    ensures
        active_record_views(r@) == head_active_views(*a),
{
    let mut out: Vec<ActiveObservationRecordV1> = Vec::new();
    let mut i: usize = 0;
    let ghost target = head_active_views(*a);
    while i < a.active_observation_refs.len() && i < a.active_observation_fingerprints.len() && i
        < a.active_observations.len()
        invariant
            target == head_active_views(*a),
            i <= target.len(),
            active_record_views(out@) == target.take(i as int),
        decreases a.active_observations.len() - i,
    {
        let record = ActiveObservationRecordV1 {
            reference: a.active_observation_refs[i].clone(),
            fingerprint: a.active_observation_fingerprints[i].clone(),
            observation: copy_observation(&a.active_observations[i]),
        };
        assert(active_record_view(record) == target[i as int]);
        let ghost before = active_record_views(out@);
        out.push(record);
        assert(active_record_views(out@) =~= before.push(active_record_view(record)));
        assert(active_record_views(out@) =~= target.take(i + 1));
        i = i + 1;
    }
    assert(target.take(i as int) =~= target);
    out
}

/// The references of active records, in their order.
pub open spec fn record_refs(s: Seq<(Seq<char>, Seq<char>, LifecycleObservationView)>) -> Seq<Seq<char>> {
    s.map_values(|r: (Seq<char>, Seq<char>, LifecycleObservationView)| r.0)
}

/// The record fingerprints of active records, in their order.
pub open spec fn record_fingerprints(s: Seq<(Seq<char>, Seq<char>, LifecycleObservationView)>) -> Seq<Seq<char>> {
    s.map_values(|r: (Seq<char>, Seq<char>, LifecycleObservationView)| r.1)
}

fn refs_and_fingerprints(records: &Vec<ActiveObservationRecordV1>) -> (r: (Vec<String>, Vec<String>))
    ensures
        string_views(r.0@) == record_refs(active_record_views(records@)),
        string_views(r.1@) == record_fingerprints(active_record_views(records@)),
{
    let mut refs: Vec<String> = Vec::new();
    let mut fps: Vec<String> = Vec::new();
    let mut i: usize = 0;
    while i < records.len()
        invariant
            i <= records.len(),
            string_views(refs@) == record_refs(active_record_views(records@)).take(i as int),
            string_views(fps@) == record_fingerprints(active_record_views(records@)).take(i as int),
        decreases records.len() - i,
    {
        let ghost rv = active_record_views(records@);
        assert(rv[i as int] == active_record_view(records@[i as int]));
        assert(record_refs(rv)[i as int] == records@[i as int].reference@);
        assert(record_fingerprints(rv)[i as int] == records@[i as int].fingerprint@);
        let ghost rb = string_views(refs@);
        let ghost fb = string_views(fps@);
        refs.push(records[i].reference.clone());
        fps.push(records[i].fingerprint.clone());
        assert(string_views(refs@) =~= rb.push(records@[i as int].reference@));
        assert(string_views(fps@) =~= fb.push(records@[i as int].fingerprint@));
        assert(string_views(refs@) =~= record_refs(active_record_views(records@)).take(i + 1));
        assert(string_views(fps@) =~= record_fingerprints(active_record_views(records@)).take(i + 1));
        i = i + 1;
    }
    assert(record_refs(active_record_views(records@)).take(i as int) =~= record_refs(
        active_record_views(records@),
    ));
    assert(record_fingerprints(active_record_views(records@)).take(i as int) =~= record_fingerprints(
        active_record_views(records@),
    ));
    (refs, fps)
}

/// The transaction ID of a lifecycle event: `lifecycle-event-` and the hex digits of its event
/// fingerprint.
pub fn lifecycle_event_id(event_fingerprint: &str) -> (r: String)
    requires
        is_fingerprint(event_fingerprint@),
    ensures
        r@ == "lifecycle-event-"@ + fingerprint_hex(event_fingerprint@),
{
    let f = chars_of(event_fingerprint);
    proof {
        lemma_sha256_prefix();
    }
    let mut hex = slice_chars(&f, 7, f.len());
    assert(hex@ =~= fingerprint_hex(event_fingerprint@));
    let mut id = chars_of("lifecycle-event-");
    id.append(&mut hex);
    string_of(&id)
}

/// The commit of an event that the lifecycle head already holds: the head, unchanged.
pub fn replayed_event_commit(authority: &CharterLifecycleAuthorityV1) -> (r: CharterLifecycleEventCommitV1)
    ensures
        r.disposition == CharterLifecycleEventDispositionV1::Replayed,
        r.observation_ref is None,
        r.transition_ref@ == authority.lifecycle_transition_ref@,
        r.state == authority.state,
        r.state_fingerprint@ == authority.state_fingerprint@,
        string_views(r.reopened_coverage_ids@) == string_views(authority.reopened_coverage_ids@),
{
    CharterLifecycleEventCommitV1 {
        disposition: CharterLifecycleEventDispositionV1::Replayed,
        observation_ref: None,
        transition_ref: authority.lifecycle_transition_ref.clone(),
        state: authority.state,
        state_fingerprint: authority.state_fingerprint.clone(),
        reopened_coverage_ids: copy_string_list(&authority.reopened_coverage_ids),
    }
}

/// What recording a new lifecycle event stages: its transaction ID, its observation record and
/// reference, the active records in order, the resulting state fingerprint, and its transition
/// record and reference.
pub struct LifecycleEventPlanV1 {
    pub event_id: String,
    pub observation: LifecycleObservationRecordV1,
    pub observation_ref: String,
    pub active_records: Vec<ActiveObservationRecordV1>,
    pub result_state_fingerprint: String,
    pub transition: LifecycleTransitionRecordV1,
    pub transition_ref: String,
}

/// A plan that records a resolved event opening a new observation on the committed lifecycle
/// head: the observation record of the event, the head's active records and the new one in
/// order, the state they give, and the transition from the head to that state.
pub open spec fn event_plan_valid(
    p: LifecycleEventPlanV1,
    authority: CharterLifecycleAuthorityV1,
    resolved: ResolvedLifecycleEventV1,
    transition: CharterLifecycleTransition,
    policy_fingerprint: Seq<char>,
) -> bool {
    &&& p.event_id@ == "lifecycle-event-"@ + fingerprint_hex(resolved.event.event_fingerprint@)
    &&& observation_built_from(
        p.observation,
        resolved,
        policy_fingerprint,
        authority.canonical_fingerprint@,
    )
    &&& json_fingerprint(observation_preimage_json(p.observation)) == Some(
        p.observation.observation_fingerprint@,
    )
    &&& p.observation.observation_id@ == sealed_id(
        "lifecycle-observation"@,
        p.observation.observation_fingerprint@,
    )
    &&& p.observation_ref@ == lineage_ref("lifecycle-observations"@, p.observation.observation_id@)
    &&& active_record_views(p.active_records@).to_multiset() == head_active_views(authority).push(
        (
            p.observation_ref@,
            p.observation.observation_fingerprint@,
            transition.new_observations@[0]@,
        ),
    ).to_multiset()
    &&& records_in_order(active_record_views(p.active_records@))
    &&& json_fingerprint(
        lifecycle_state_json(
            CHARTER_LIFECYCLE_POLICY_REF@,
            policy_fingerprint,
            "project_authority"@,
            authority.canonical_fingerprint@,
            transition.result_state,
            record_fingerprints(active_record_views(p.active_records@)),
        ),
    ) == Some(p.result_state_fingerprint@)
    &&& transition_built_from(
        p.transition,
        policy_fingerprint,
        authority.state,
        authority.state_fingerprint@,
        transition.result_state,
        p.result_state_fingerprint@,
        seq![p.observation_ref@],
        record_refs(active_record_views(p.active_records@)),
        None,
        resolved.observed_at_utc@,
    )
    &&& json_fingerprint(transition_preimage_json(p.transition)) == Some(
        p.transition.transition_fingerprint@,
    )
    &&& p.transition.transition_id@ == sealed_id(
        "lifecycle-transition"@,
        p.transition.transition_fingerprint@,
    )
    &&& p.transition_ref@ == lineage_ref("lifecycle-transitions"@, p.transition.transition_id@)

}

/// The reference of the observation record with the given fingerprint.
pub open spec fn planned_observation_ref(observation_fingerprint: Seq<char>) -> Seq<char> {
    lineage_ref(
        "lifecycle-observations"@,
        sealed_id("lifecycle-observation"@, observation_fingerprint),
    )
}

/// The state or the transition of a plan cannot be sealed for the given order of active records:
/// the state inputs are not well-formed, or the state or the transition preimage is not
/// canonical JSON.
#[verifier::opaque]
pub open spec fn plan_sealing_refused(
    authority: CharterLifecycleAuthorityV1,
    transition: CharterLifecycleTransition,
    policy_fingerprint: Seq<char>,
    observation_fingerprint: Seq<char>,
    records: Seq<(Seq<char>, Seq<char>, LifecycleObservationView)>,
) -> bool {
    let fps = record_fingerprints(records);
    ||| !lifecycle_state_inputs_valid(
        CHARTER_LIFECYCLE_POLICY_REF@,
        policy_fingerprint,
        "project_authority"@,
        authority.canonical_fingerprint@,
        fps,
    )
    ||| match json_fingerprint(
        lifecycle_state_json(
            CHARTER_LIFECYCLE_POLICY_REF@,
            policy_fingerprint,
            "project_authority"@,
            authority.canonical_fingerprint@,
            transition.result_state,
            fps,
        ),
    ) {
        None => true,
        Some(state_fingerprint) => json_fingerprint(
            planned_transition_json(
                policy_fingerprint,
                authority.state,
                authority.state_fingerprint@,
                transition.result_state,
                state_fingerprint,
                seq![planned_observation_ref(observation_fingerprint)],
                record_refs(records),
                None,
            ),
        ) is None,
    }
}

/// The records of an event cannot be planned: its time is not a second-precision UTC instant,
/// its observation preimage is not canonical JSON, or, for an order of the head's active records
/// and the new one that the record order allows, the state or the transition cannot be sealed.
/// (Where no two records have equal rank, that order is the only one.)
#[verifier::opaque]
pub open spec fn plan_refused(
    authority: CharterLifecycleAuthorityV1,
    resolved: ResolvedLifecycleEventV1,
    transition: CharterLifecycleTransition,
    policy_fingerprint: Seq<char>,
) -> bool {
    ||| !is_utc_second(encode_utf8(resolved.observed_at_utc@))
    ||| match json_fingerprint(planned_observation_json(resolved, policy_fingerprint, authority.canonical_fingerprint@)) {
        None => true,
        Some(of) => exists|records: Seq<(Seq<char>, Seq<char>, LifecycleObservationView)>|
            #[trigger] records_in_order(records) && records.to_multiset() == head_active_views(authority).push(
                (planned_observation_ref(of), of, transition.new_observations@[0]@),
            ).to_multiset() && plan_sealing_refused(authority, transition, policy_fingerprint, of, records),
    }
}


proof fn lemma_refused_by_observation(
    authority: CharterLifecycleAuthorityV1,
    resolved: ResolvedLifecycleEventV1,
    transition: CharterLifecycleTransition,
    policy_fingerprint: Seq<char>,
)
    requires
        json_fingerprint(planned_observation_json(resolved, policy_fingerprint, authority.canonical_fingerprint@)) is None,
    ensures
        plan_refused(authority, resolved, transition, policy_fingerprint),
{
    reveal(plan_refused);
}

proof fn lemma_refused_by_sealing(
    authority: CharterLifecycleAuthorityV1,
    resolved: ResolvedLifecycleEventV1,
    transition: CharterLifecycleTransition,
    policy_fingerprint: Seq<char>,
    of: Seq<char>,
    records: Seq<(Seq<char>, Seq<char>, LifecycleObservationView)>,
)
    requires
        json_fingerprint(planned_observation_json(resolved, policy_fingerprint, authority.canonical_fingerprint@)) == Some(of),
        records_in_order(records),
        records.to_multiset() == head_active_views(authority).push(
            (planned_observation_ref(of), of, transition.new_observations@[0]@),
        ).to_multiset(),
        plan_sealing_refused(authority, transition, policy_fingerprint, of, records),
    ensures
        plan_refused(authority, resolved, transition, policy_fingerprint),
{
    reveal(plan_refused);
}

proof fn lemma_sealing_refused_by_state(
    authority: CharterLifecycleAuthorityV1,
    transition: CharterLifecycleTransition,
    policy_fingerprint: Seq<char>,
    of: Seq<char>,
    records: Seq<(Seq<char>, Seq<char>, LifecycleObservationView)>,
)
    requires
        !lifecycle_state_inputs_valid(
            CHARTER_LIFECYCLE_POLICY_REF@,
            policy_fingerprint,
            "project_authority"@,
            authority.canonical_fingerprint@,
            record_fingerprints(records),
        ) || json_fingerprint(
            lifecycle_state_json(
                CHARTER_LIFECYCLE_POLICY_REF@,
                policy_fingerprint,
                "project_authority"@,
                authority.canonical_fingerprint@,
                transition.result_state,
                record_fingerprints(records),
            ),
        ) is None,
    ensures
        plan_sealing_refused(authority, transition, policy_fingerprint, of, records),
{
    reveal(plan_sealing_refused);
}

proof fn lemma_sealing_refused_by_transition(
    authority: CharterLifecycleAuthorityV1,
    transition: CharterLifecycleTransition,
    policy_fingerprint: Seq<char>,
    of: Seq<char>,
    records: Seq<(Seq<char>, Seq<char>, LifecycleObservationView)>,
    state_fingerprint: Seq<char>,
)
    requires
        json_fingerprint(
            lifecycle_state_json(
                CHARTER_LIFECYCLE_POLICY_REF@,
                policy_fingerprint,
                "project_authority"@,
                authority.canonical_fingerprint@,
                transition.result_state,
                record_fingerprints(records),
            ),
        ) == Some(state_fingerprint),
        json_fingerprint(
            planned_transition_json(
                policy_fingerprint,
                authority.state,
                authority.state_fingerprint@,
                transition.result_state,
                state_fingerprint,
                seq![planned_observation_ref(of)],
                record_refs(records),
                None,
            ),
        ) is None,
    ensures
        plan_sealing_refused(authority, transition, policy_fingerprint, of, records),
{
    reveal(plan_sealing_refused);
}

proof fn lemma_refused_by_time(
    authority: CharterLifecycleAuthorityV1,
    resolved: ResolvedLifecycleEventV1,
    transition: CharterLifecycleTransition,
    policy_fingerprint: Seq<char>,
)
    requires
        !is_utc_second(encode_utf8(resolved.observed_at_utc@)),
    ensures
        plan_refused(authority, resolved, transition, policy_fingerprint),
{
    reveal(plan_refused);
}

/// Plans the records of an event that opened a new observation on the committed lifecycle
/// head: the observation record of the resolved event, the head's active records and the new
/// one in order, the state they give, and the transition from the head to that state.
#[verifier::rlimit(80)]
#[verifier::spinoff_prover]
pub fn plan_lifecycle_event(
    authority: &CharterLifecycleAuthorityV1,
    resolved: &ResolvedLifecycleEventV1,
    transition: &CharterLifecycleTransition,
    policy_fingerprint: &str,
) -> (r: Result<LifecycleEventPlanV1, CharterLifecycleStoreErrorV1>)
    requires
        transition.new_observations@.len() > 0,
        is_fingerprint(resolved.event.event_fingerprint@),
    ensures
        r matches Ok(p) ==> event_plan_valid(p, *authority, *resolved, *transition, policy_fingerprint@),
        r matches Err(e) ==> e.error_kind() == CharterLifecycleStoreErrorKindV1::InvalidEvent,
        r is Err ==> plan_refused(*authority, *resolved, *transition, policy_fingerprint@),
        !is_utc_second(encode_utf8(resolved.observed_at_utc@)) ==> r is Err,
{
    let observation = match build_observation_record(
        resolved,
        policy_fingerprint,
        authority.canonical_fingerprint.as_str(),
    ) {
        Ok(o) => o,
        Err(e) => {
            proof {
                lemma_refused_by_observation(*authority, *resolved, *transition, policy_fingerprint@);
            }
            return Err(e);
        },
    };
    let observation_ref = lineage_ref_text("lifecycle-observations", &observation.observation_id);
    let ghost of = observation.observation_fingerprint@;
    assert(observation_ref@ == planned_observation_ref(of));
    let mut records = head_active_records(authority);
    let ghost head = active_record_views(records@);
    records.push(
        ActiveObservationRecordV1 {
            reference: observation_ref.clone(),
            fingerprint: observation.observation_fingerprint.clone(),
            observation: copy_observation(&transition.new_observations[0]),
        },
    );
    assert(active_record_views(records@) =~= head.push(
        (observation_ref@, observation.observation_fingerprint@, transition.new_observations@[0]@),
    ));
    let active_records = order_active_records(records);
    let (active_refs, active_fingerprints) = refs_and_fingerprints(&active_records);
    let result_state_fingerprint = match charter_lifecycle_state_fingerprint(
        CHARTER_LIFECYCLE_POLICY_REF,
        policy_fingerprint,
        "project_authority",
        authority.canonical_fingerprint.as_str(),
        transition.result_state,
        active_fingerprints.as_slice(),
    ) {
        Ok(f) => f,
        Err(e) => {
            proof {
                let recs = active_record_views(active_records@);
                lemma_sealing_refused_by_state(*authority, *transition, policy_fingerprint@, of, recs);
                lemma_refused_by_sealing(*authority, *resolved, *transition, policy_fingerprint@, of, recs);
            }
            return Err(e);
        },
    };
    let mut new_refs: Vec<String> = Vec::new();
    new_refs.push(observation_ref.clone());
    assert(string_views(new_refs@) =~= seq![observation_ref@]);
    let transition_record = match build_transition_record(
        policy_fingerprint,
        authority.state,
        authority.state_fingerprint.as_str(),
        transition.result_state,
        result_state_fingerprint.as_str(),
        new_refs,
        active_refs,
        None,
        resolved.observed_at_utc.as_str(),
    ) {
        Ok(t) => t,
        Err(e) => {
            proof {
                let recs = active_record_views(active_records@);
                if !is_utc_second(encode_utf8(resolved.observed_at_utc@)) {
                    lemma_refused_by_time(*authority, *resolved, *transition, policy_fingerprint@);
                } else {
                    lemma_sealing_refused_by_transition(
                        *authority,
                        *transition,
                        policy_fingerprint@,
                        of,
                        recs,
                        result_state_fingerprint@,
                    );
                    lemma_refused_by_sealing(*authority, *resolved, *transition, policy_fingerprint@, of, recs);
                }
            }
            return Err(e);
        },
    };
    let transition_ref = lineage_ref_text("lifecycle-transitions", &transition_record.transition_id);
    let event_id = lifecycle_event_id(resolved.event.event_fingerprint.as_str());
    Ok(
        LifecycleEventPlanV1 {
            event_id,
            observation,
            observation_ref,
            active_records,
            result_state_fingerprint,
            transition: transition_record,
            transition_ref,
        },
    )
}


/// What recording an event on the committed lifecycle head comes to: a replay of an event that
/// the head already holds, or the plan of the records that a new observation needs, with the
/// transition that the event gives.
pub enum LifecycleEventStagingV1 {
    Replayed(CharterLifecycleEventCommitV1),
    Staged { plan: LifecycleEventPlanV1, transition: CharterLifecycleTransition },
}

/// The store error of a refused lifecycle event: a stale basis stays one, anything else is an
/// invalid event.
pub open spec fn store_kind_of(kind: CharterLifecycleErrorKind) -> CharterLifecycleStoreErrorKindV1 {
    match kind {
        CharterLifecycleErrorKind::StaleBasis => CharterLifecycleStoreErrorKindV1::StaleBasis,
        _ => CharterLifecycleStoreErrorKindV1::InvalidEvent,
    }
}

fn copy_event(e: &CharterLifecycleEvent) -> (r: CharterLifecycleEvent)
    ensures
        r@ == e@,
{
    CharterLifecycleEvent {
        event_fingerprint: e.event_fingerprint.clone(),
        basis_artifact_fingerprint: e.basis_artifact_fingerprint.clone(),
        kind: e.kind,
        evidence_ref: e.evidence_ref.clone(),
        evidence_fingerprint: e.evidence_fingerprint.clone(),
    }
}

/// The resolved event can be applied to the lifecycle head: it is valid and current, and the
/// lifecycle state of the head with the observations it opens canonicalizes.
pub open spec fn event_applies(authority: CharterLifecycleAuthorityV1, resolved: ResolvedLifecycleEventV1) -> bool {
    let active = observation_views(authority.active_observations@);
    &&& events_error(seq![resolved.event@], active) is None
    &&& forall|new: Seq<LifecycleObservationView>|
        new_observations_of(new, seq![resolved.event@], active) ==> #[trigger] json_fingerprint(
            transition_state_json(authority.state, active + new),
        ) is Some
}

/// The resolved event is already active on the lifecycle head: it opens no observation.
pub open spec fn event_replays(authority: CharterLifecycleAuthorityV1, resolved: ResolvedLifecycleEventV1) -> bool {
    new_observations_of(Seq::empty(), seq![resolved.event@], observation_views(authority.active_observations@))
}

/// An event whose fingerprint is already that of an active observation of the lifecycle head is
/// a replay: it opens no observation, so staging it gives back the committed head unchanged.
pub proof fn lemma_active_event_replays(authority: CharterLifecycleAuthorityV1, resolved: ResolvedLifecycleEventV1)
    requires
        crate::charter_lifecycle::observation_fingerprints(observation_views(authority.active_observations@)).contains(
            resolved.event@.event_fingerprint,
        ),
    ensures
        event_replays(authority, resolved),
{
    let events = seq![resolved.event@];
    let active = observation_views(authority.active_observations@);
    assert forall|i: int| is_new_event(events, active, i) implies Seq::<LifecycleObservationView>::empty().contains(
        observation_of(#[trigger] events[i]),
    ) by {
        assert(i == 0);
    }
}

/// A transition that applying the resolved event to the lifecycle head gives: the head's state
/// before, the observations the event opens after the head's, and the state they make visible.
pub open spec fn event_transition(
    t: CharterLifecycleTransition,
    authority: CharterLifecycleAuthorityV1,
    resolved: ResolvedLifecycleEventV1,
) -> bool {
    let active = observation_views(authority.active_observations@);
    &&& t.prior_state == authority.state
    &&& new_observations_of(observation_views(t.new_observations@), seq![resolved.event@], active)
    &&& observation_views(t.active_observations@) == active + observation_views(t.new_observations@)
    &&& t.result_state == result_state_of(authority.state, observation_views(t.active_observations@))
}

/// Applies a resolved event to the committed lifecycle head: an event whose fingerprint is
/// already active is a replay of the head; any other is planned.
pub fn stage_lifecycle_event(
    authority: &CharterLifecycleAuthorityV1,
    resolved: &ResolvedLifecycleEventV1,
    policy_fingerprint: &str,
) -> (r: Result<LifecycleEventStagingV1, CharterLifecycleStoreErrorV1>)
    ensures
        events_error(seq![resolved.event@], observation_views(authority.active_observations@)) matches Some(
            k,
        ) ==> r matches Err(e) && e.error_kind() == store_kind_of(k),
        r matches Ok(LifecycleEventStagingV1::Replayed(c)) ==> {
            &&& events_error(seq![resolved.event@], observation_views(authority.active_observations@)) is None
            &&& new_observations_of(
                Seq::empty(),
                seq![resolved.event@],
                observation_views(authority.active_observations@),
            )
            &&& c.disposition == CharterLifecycleEventDispositionV1::Replayed
            &&& c.observation_ref is None
            &&& c.transition_ref@ == authority.lifecycle_transition_ref@
            &&& c.state == authority.state
            &&& c.state_fingerprint@ == authority.state_fingerprint@
            &&& string_views(c.reopened_coverage_ids@) == string_views(authority.reopened_coverage_ids@)
        },
        r matches Ok(LifecycleEventStagingV1::Staged { plan, transition }) ==> {
            &&& events_error(seq![resolved.event@], observation_views(authority.active_observations@)) is None
            &&& transition.prior_state == authority.state
            &&& transition.new_observations@.len() > 0
            &&& new_observations_of(
                observation_views(transition.new_observations@),
                seq![resolved.event@],
                observation_views(authority.active_observations@),
            )
            &&& observation_views(transition.active_observations@) == observation_views(
                authority.active_observations@,
            ) + observation_views(transition.new_observations@)
            &&& transition.result_state == result_state_of(
                authority.state,
                observation_views(transition.active_observations@),
            )
            &&& event_plan_valid(plan, *authority, *resolved, transition, policy_fingerprint@)
        },
        r matches Err(e) ==> e.error_kind() == CharterLifecycleStoreErrorKindV1::StaleBasis
            || e.error_kind() == CharterLifecycleStoreErrorKindV1::InvalidEvent,
        event_applies(*authority, *resolved) && event_replays(*authority, *resolved) ==> r matches Ok(
            LifecycleEventStagingV1::Replayed(_),
        ),
        event_applies(*authority, *resolved) && !event_replays(*authority, *resolved) && (forall|
            t: CharterLifecycleTransition,
        |
            event_transition(t, *authority, *resolved) ==> !#[trigger] plan_refused(
                *authority,
                *resolved,
                t,
                policy_fingerprint@,
            )) ==> r matches Ok(LifecycleEventStagingV1::Staged { .. }),
        r matches Ok(LifecycleEventStagingV1::Staged { plan, transition }) ==> {
            &&& event_transition(transition, *authority, *resolved)
            &&& plan.active_records@.len() == head_active_views(*authority).len() + 1
        },
{
    broadcast use vstd::seq_lib::group_to_multiset_ensures;

    let mut events: Vec<CharterLifecycleEvent> = Vec::new();
    events.push(copy_event(&resolved.event));
    assert(event_views(events@) =~= seq![resolved.event@]);
    let transition = match apply_charter_lifecycle_events(
        authority.state,
        authority.active_observations.as_slice(),
        events,
    ) {
        Ok(t) => t,
        Err(failure) => {
            let kind = match failure.kind() {
                CharterLifecycleErrorKind::StaleBasis => CharterLifecycleStoreErrorKindV1::StaleBasis,
                _ => CharterLifecycleStoreErrorKindV1::InvalidEvent,
            };
            return Err(error(kind, failure.detail()));
        },
    };
    if transition.new_observations.len() == 0 {
        assert(observation_views(transition.new_observations@) =~= Seq::empty());
        return Ok(LifecycleEventStagingV1::Replayed(replayed_event_commit(authority)));
    }
    proof {
        let nv = observation_views(transition.new_observations@);
        assert(opened_by_batch(seq![resolved.event@], observation_views(authority.active_observations@), nv[0]));
        if event_replays(*authority, *resolved) {
            let i = choose|i: int|
                is_new_event(seq![resolved.event@], observation_views(authority.active_observations@), i)
                    && nv[0] == observation_of(seq![resolved.event@][i]);
            assert(Seq::<LifecycleObservationView>::empty().contains(observation_of(seq![resolved.event@][i])));
        }
    }
    assert(event_valid(seq![resolved.event@][0]));
    match plan_lifecycle_event(authority, resolved, &transition, policy_fingerprint) {
        Ok(plan) => {
            proof {
                let recs = active_record_views(plan.active_records@);
                assert(recs.len() == plan.active_records@.len());
                assert(recs.to_multiset().len() == recs.len());
            }
            Ok(LifecycleEventStagingV1::Staged { plan, transition })
        },
        Err(e) => {
            assert(event_transition(transition, *authority, *resolved));
            Err(e)
        },
    }
}


// ---------------------------------------------------------------------------
// The lifecycle event journal
// ---------------------------------------------------------------------------

/// The intent that a pending lifecycle event journals before it installs its records.
#[derive(Clone, Debug, PartialEq, Eq)]
pub struct LifecycleEventIntentRecordV1 {
    pub schema_id: String,
    pub schema_version: String,
    pub transaction_id: String,
    pub event_id: String,
    pub canonical_fingerprint: String,
    pub prior_transition_ref: String,
    pub prior_transition_fingerprint: String,
    pub prior_state_fingerprint: String,
    pub evidence_ref: String,
    pub evidence_fingerprint: String,
    pub observation_ref: String,
    pub observation_fingerprint: String,
    pub observation_staged_fingerprint: String,
    pub transition_ref: String,
    pub transition_fingerprint: String,
    pub transition_staged_fingerprint: String,
}

/// The JSON of a lifecycle event intent.
pub open spec fn event_intent_json(r: LifecycleEventIntentRecordV1) -> Seq<char> {
    json_object(
        seq![
            json_member("schema_id"@, json_string(r.schema_id@)),
            json_member("schema_version"@, json_string(r.schema_version@)),
            json_member("transaction_id"@, json_string(r.transaction_id@)),
            json_member("event_id"@, json_string(r.event_id@)),
            json_member("canonical_fingerprint"@, json_string(r.canonical_fingerprint@)),
            json_member("prior_transition_ref"@, json_string(r.prior_transition_ref@)),
            json_member("prior_transition_fingerprint"@, json_string(r.prior_transition_fingerprint@)),
            json_member("prior_state_fingerprint"@, json_string(r.prior_state_fingerprint@)),
            json_member("evidence_ref"@, json_string(r.evidence_ref@)),
            json_member("evidence_fingerprint"@, json_string(r.evidence_fingerprint@)),
            json_member("observation_ref"@, json_string(r.observation_ref@)),
            json_member("observation_fingerprint"@, json_string(r.observation_fingerprint@)),
            json_member("observation_staged_fingerprint"@, json_string(r.observation_staged_fingerprint@)),
            json_member("transition_ref"@, json_string(r.transition_ref@)),
            json_member("transition_fingerprint"@, json_string(r.transition_fingerprint@)),
            json_member("transition_staged_fingerprint"@, json_string(r.transition_staged_fingerprint@)),
        ],
    )
}

/// The canonical bytes of a lifecycle event intent.
pub fn event_intent_bytes(r: &LifecycleEventIntentRecordV1) -> (b: Option<Vec<u8>>)
    ensures
        b matches Some(v) ==> jcs_bytes(event_intent_json(*r)) == Some(v@),
        b is None ==> jcs_bytes(event_intent_json(*r)) is None,
{
    let mut m: Vec<Vec<char>> = Vec::new();
    m.push(member_text("schema_id", json_str(r.schema_id.as_str())));
    m.push(member_text("schema_version", json_str(r.schema_version.as_str())));
    m.push(member_text("transaction_id", json_str(r.transaction_id.as_str())));
    m.push(member_text("event_id", json_str(r.event_id.as_str())));
    m.push(member_text("canonical_fingerprint", json_str(r.canonical_fingerprint.as_str())));
    m.push(member_text("prior_transition_ref", json_str(r.prior_transition_ref.as_str())));
    m.push(member_text("prior_transition_fingerprint", json_str(r.prior_transition_fingerprint.as_str())));
    m.push(member_text("prior_state_fingerprint", json_str(r.prior_state_fingerprint.as_str())));
    m.push(member_text("evidence_ref", json_str(r.evidence_ref.as_str())));
    m.push(member_text("evidence_fingerprint", json_str(r.evidence_fingerprint.as_str())));
    m.push(member_text("observation_ref", json_str(r.observation_ref.as_str())));
    m.push(member_text("observation_fingerprint", json_str(r.observation_fingerprint.as_str())));
    m.push(member_text("observation_staged_fingerprint", json_str(r.observation_staged_fingerprint.as_str())));
    m.push(member_text("transition_ref", json_str(r.transition_ref.as_str())));
    m.push(member_text("transition_fingerprint", json_str(r.transition_fingerprint.as_str())));
    m.push(member_text("transition_staged_fingerprint", json_str(r.transition_staged_fingerprint.as_str())));
    assert(views(m@) =~= seq![
        json_member("schema_id"@, json_string(r.schema_id@)),
        json_member("schema_version"@, json_string(r.schema_version@)),
        json_member("transaction_id"@, json_string(r.transaction_id@)),
        json_member("event_id"@, json_string(r.event_id@)),
        json_member("canonical_fingerprint"@, json_string(r.canonical_fingerprint@)),
        json_member("prior_transition_ref"@, json_string(r.prior_transition_ref@)),
        json_member("prior_transition_fingerprint"@, json_string(r.prior_transition_fingerprint@)),
        json_member("prior_state_fingerprint"@, json_string(r.prior_state_fingerprint@)),
        json_member("evidence_ref"@, json_string(r.evidence_ref@)),
        json_member("evidence_fingerprint"@, json_string(r.evidence_fingerprint@)),
        json_member("observation_ref"@, json_string(r.observation_ref@)),
        json_member("observation_fingerprint"@, json_string(r.observation_fingerprint@)),
        json_member("observation_staged_fingerprint"@, json_string(r.observation_staged_fingerprint@)),
        json_member("transition_ref"@, json_string(r.transition_ref@)),
        json_member("transition_fingerprint"@, json_string(r.transition_fingerprint@)),
        json_member("transition_staged_fingerprint"@, json_string(r.transition_staged_fingerprint@)),
    ]);
    canonical_json_bytes(&object_text(&m))
}

/// The journaled intent of a planned event: the plan's transaction, records and staged bytes,
/// bound to the head it was planned on.
pub fn event_intent_record(
    authority: &CharterLifecycleAuthorityV1,
    resolved: &ResolvedLifecycleEventV1,
    plan: &LifecycleEventPlanV1,
    observation_bytes: &[u8],
    transition_bytes: &[u8],
) -> (r: LifecycleEventIntentRecordV1)
    ensures
        r.schema_id@ == "handbook.lifecycle-event-transaction-intent"@,
        r.schema_version@ == "1.0"@,
        r.transaction_id@ == plan.event_id@,
        r.event_id@ == plan.event_id@,
        r.canonical_fingerprint@ == authority.canonical_fingerprint@,
        r.prior_transition_ref@ == authority.lifecycle_transition_ref@,
        r.prior_transition_fingerprint@ == authority.lifecycle_transition_fingerprint@,
        r.prior_state_fingerprint@ == authority.state_fingerprint@,
        r.evidence_ref@ == resolved.event.evidence_ref@,
        r.evidence_fingerprint@ == resolved.event.evidence_fingerprint@,
        r.observation_ref@ == plan.observation_ref@,
        r.observation_fingerprint@ == plan.observation.observation_fingerprint@,
        r.observation_staged_fingerprint@ == content_fingerprint(observation_bytes@),
        r.transition_ref@ == plan.transition_ref@,
        r.transition_fingerprint@ == plan.transition.transition_fingerprint@,
        r.transition_staged_fingerprint@ == content_fingerprint(transition_bytes@),
{
    LifecycleEventIntentRecordV1 {
        schema_id: "handbook.lifecycle-event-transaction-intent".to_owned(),
        schema_version: "1.0".to_owned(),
        transaction_id: plan.event_id.clone(),
        event_id: plan.event_id.clone(),
        canonical_fingerprint: authority.canonical_fingerprint.clone(),
        prior_transition_ref: authority.lifecycle_transition_ref.clone(),
        prior_transition_fingerprint: authority.lifecycle_transition_fingerprint.clone(),
        prior_state_fingerprint: authority.state_fingerprint.clone(),
        evidence_ref: resolved.event.evidence_ref.clone(),
        evidence_fingerprint: resolved.event.evidence_fingerprint.clone(),
        observation_ref: plan.observation_ref.clone(),
        observation_fingerprint: plan.observation.observation_fingerprint.clone(),
        observation_staged_fingerprint: raw_fingerprint(observation_bytes),
        transition_ref: plan.transition_ref.clone(),
        transition_fingerprint: plan.transition.transition_fingerprint.clone(),
        transition_staged_fingerprint: raw_fingerprint(transition_bytes),
    }
}

/// What recovering a pending event does: its recovery action and which staged records it
/// installs.
#[derive(Clone, Copy, Debug, PartialEq, Eq)]
pub struct PendingRecoveryStepV1 {
    pub action: CharterLifecycleRecoveryActionV1,
    pub install_observation: bool,
    pub install_transition: bool,
}

/// A pending event may be recovered on the current head: its basis is the committed canonical
/// fingerprint, any commit marker binds its raw intent exactly, and, unless it only finalizes,
/// the head is still the one it was planned on.
pub open spec fn pending_recovery_ok(
    current: CharterLifecycleAuthorityV1,
    intent: LifecycleEventIntentRecordV1,
    raw_intent: Seq<u8>,
    marker: Option<Seq<u8>>,
    inputs: CharterLifecycleRecoveryInputsV1,
) -> bool {
    &&& current.canonical_fingerprint@ == intent.canonical_fingerprint@
    &&& (marker matches Some(m) ==> m == marker_of(raw_intent))
    &&& inputs.matching_commit_marker == (marker is Some)
    &&& (recovery_action(inputs) != CharterLifecycleRecoveryActionV1::Finalize ==> {
        &&& current.lifecycle_transition_ref@ == intent.prior_transition_ref@
        &&& current.lifecycle_transition_fingerprint@ == intent.prior_transition_fingerprint@
        &&& current.state_fingerprint@ == intent.prior_state_fingerprint@
    })
}

/// Decides the recovery of a pending lifecycle event from what its journal and the lineage
/// hold: `marker` is the commit marker where one was written, and the flags say which records
/// are final and which are staged exactly.
pub fn pending_recovery_step(
    current: &CharterLifecycleAuthorityV1,
    intent: &LifecycleEventIntentRecordV1,
    raw_intent: &[u8],
    marker: Option<&[u8]>,
    observation_final: bool,
    transition_final: bool,
    observation_staged: bool,
    transition_staged: bool,
) -> (r: Result<PendingRecoveryStepV1, CharterLifecycleStoreErrorV1>)
    ensures
        ({
            let inputs = CharterLifecycleRecoveryInputsV1 {
                observation_final,
                transition_final,
                observation_staged,
                transition_staged,
                matching_commit_marker: marker is Some,
            };
            let m = match marker {
                Some(b) => Some(b@),
                None => None,
            };
            &&& r is Ok <==> pending_recovery_ok(*current, *intent, raw_intent@, m, inputs)
            &&& r matches Ok(step) ==> {
                &&& step.action == recovery_action(inputs)
                &&& step.install_observation == (step.action
                    == CharterLifecycleRecoveryActionV1::InstallBothAndCommit || (step.action
                    == CharterLifecycleRecoveryActionV1::InstallMissingAndCommit && !observation_final))
                &&& step.install_transition == (step.action
                    == CharterLifecycleRecoveryActionV1::InstallBothAndCommit || (step.action
                    == CharterLifecycleRecoveryActionV1::InstallMissingAndCommit && !transition_final))
            }
        }),
        r matches Err(e) ==> e.error_kind() == CharterLifecycleStoreErrorKindV1::DurabilityViolation,
{
    if current.canonical_fingerprint != intent.canonical_fingerprint {
        return Err(durability("pending lifecycle event basis is not current canonical authority"));
    }
    match marker {
        Some(m) => {
            let expected = charter_lifecycle_event_commit_marker(raw_intent);
            let mut same = m.len() == expected.len();
            let mut i: usize = 0;
            while same && i < m.len()
                invariant
                    same ==> m.len() == expected.len(),
                    i <= m.len(),
                    same == (m.len() == expected.len() && forall|k: int| 0 <= k < i ==> m@[k] == expected@[k]),
                decreases m.len() - i,
            {
                if m[i] != expected[i] {
                    same = false;
                }
                i = i + 1;
            }
            if !same {
                return Err(durability("lifecycle event marker does not bind exact raw intent bytes"));
            }
            assert(m@ =~= expected@);
        },
        None => {},
    }
    let inputs = CharterLifecycleRecoveryInputsV1 {
        observation_final,
        transition_final,
        observation_staged,
        transition_staged,
        matching_commit_marker: marker.is_some(),
    };
    let action = classify_lifecycle_recovery(inputs);
    let finalize = match action {
        CharterLifecycleRecoveryActionV1::Finalize => true,
        _ => false,
    };
    if !finalize && (current.lifecycle_transition_ref != intent.prior_transition_ref
        || current.lifecycle_transition_fingerprint != intent.prior_transition_fingerprint
        || current.state_fingerprint != intent.prior_state_fingerprint) {
        return Err(durability("pending lifecycle event prior head/state is not current"));
    }
    let both = match action {
        CharterLifecycleRecoveryActionV1::InstallBothAndCommit => true,
        _ => false,
    };
    let missing = match action {
        CharterLifecycleRecoveryActionV1::InstallMissingAndCommit => true,
        _ => false,
    };
    Ok(
        PendingRecoveryStepV1 {
            action,
            install_observation: both || (missing && !observation_final),
            install_transition: both || (missing && !transition_final),
        },
    )
}

// ---------------------------------------------------------------------------
// The lifecycle store
// ---------------------------------------------------------------------------

/// The repository-relative directory of the lifecycle event journal.
pub const LIFECYCLE_EVENT_JOURNAL: &'static str = ".handbook/state/transactions/lifecycle-events";

/// The lifecycle store of one repository: its committed head and its event journal.
#[derive(Debug)]
pub struct CharterLifecycleStoreV1 {
    repo_root: PathBuf,
}

impl CharterLifecycleStoreV1 {
    /// The repository root of the store.
    pub closed spec fn root(&self) -> PathBuf {
        self.repo_root
    }

    pub fn new(repo_root: PathBuf) -> (r: Self)
        ensures
            r.root() == repo_root,
    {
        Self { repo_root }
    }

    pub fn repo_root(&self) -> (r: &PathBuf)
        ensures
            *r == self.root(),
    {
        &self.repo_root
    }
}

/// The journal entry name of a lifecycle transaction while it is pending, or once it is
/// committed.
pub fn journal_entry_name(transaction_id: &str, committed: bool) -> (r: String)
    ensures
        r@ == transaction_id@ + if committed {
            ".committed"@
        } else {
            ".pending"@
        },
{
    let mut out = chars_of(transaction_id);
    let mut suffix = if committed {
        chars_of(".committed")
    } else {
        chars_of(".pending")
    };
    out.append(&mut suffix);
    string_of(&out)
}


// ---------------------------------------------------------------------------
// Committed lifecycle history
// ---------------------------------------------------------------------------

/// The most committed lifecycle transitions that one canonical Charter's history may hold.
pub const MAX_LIFECYCLE_TRANSITIONS: usize = 4096;

/// One committed lifecycle event, as its journal intent links a prior transition head to the
/// transition it committed, for the canonical Charter it was recorded against.
#[derive(Clone, Debug, PartialEq, Eq)]
pub struct CommittedLifecycleLinkV1 {
    pub canonical_fingerprint: String,
    pub prior_transition_ref: String,
    pub prior_transition_fingerprint: String,
    pub transition_ref: String,
    pub transition_fingerprint: String,
}

/// The link belongs to the history of `canonical` and leaves the head `r`.
pub open spec fn link_leaves(l: CommittedLifecycleLinkV1, canonical: Seq<char>, r: Seq<char>) -> bool {
    l.canonical_fingerprint@ == canonical && l.prior_transition_ref@ == r
}

/// How many of the first `n` links of `canonical`'s history leave the head `r`.
pub open spec fn successor_count(
    links: Seq<CommittedLifecycleLinkV1>,
    canonical: Seq<char>,
    r: Seq<char>,
    n: nat,
) -> nat
    decreases n,
{
    if n == 0 || n > links.len() {
        0
    } else {
        successor_count(links, canonical, r, (n - 1) as nat) + if link_leaves(links[n - 1], canonical, r) {
            1nat
        } else {
            0nat
        }
    }
}

/// The position of the first link of `canonical`'s history that leaves `r`, from `i` on.
pub open spec fn first_successor(
    links: Seq<CommittedLifecycleLinkV1>,
    canonical: Seq<char>,
    r: Seq<char>,
    i: int,
) -> int
    decreases links.len() - i,
{
    if i < 0 || i >= links.len() {
        -1
    } else if link_leaves(links[i], canonical, r) {
        i
    } else {
        first_successor(links, canonical, r, i + 1)
    }
}

/// Every link of `canonical`'s history leaves a head that the walk has passed.
pub open spec fn all_links_consumed(
    links: Seq<CommittedLifecycleLinkV1>,
    canonical: Seq<char>,
    passed: Seq<Seq<char>>,
) -> bool {
    forall|i: int|
        0 <= i < links.len() && (#[trigger] links[i]).canonical_fingerprint@ == canonical ==> passed.contains(
            links[i].prior_transition_ref@,
        )
}

/// The walk of committed history from the head `(r, f)`, with the heads already passed and
/// `fuel` steps left: each step takes the one link that leaves a head not yet passed, whose prior
/// fingerprint must be the head's; the walk stops at a head that no link leaves (or that it
/// passed before) or when its steps run out, and succeeds only if it has then used every link.
/// A head that two links leave (a fork), a prior fingerprint that differs (a discontinuity), or
/// links left unused give nothing.
pub open spec fn committed_walk(
    links: Seq<CommittedLifecycleLinkV1>,
    canonical: Seq<char>,
    passed: Seq<Seq<char>>,
    r: Seq<char>,
    f: Seq<char>,
    fuel: nat,
) -> Option<(Seq<char>, Seq<char>)>
    decreases fuel,
{
    let count = successor_count(links, canonical, r, links.len());
    if fuel == 0 || passed.contains(r) || count == 0 {
        if all_links_consumed(links, canonical, passed) {
            Some((r, f))
        } else {
            None
        }
    } else if count > 1 {
        None
    } else {
        let next = links[first_successor(links, canonical, r, 0)];
        if next.prior_transition_fingerprint@ != f {
            None
        } else {
            committed_walk(
                links,
                canonical,
                passed.push(r),
                next.transition_ref@,
                next.transition_fingerprint@,
                (fuel - 1) as nat,
            )
        }
    }
}

/// The committed head of `canonical`'s lifecycle history, walked from its promotion anchor.
pub open spec fn committed_head(
    links: Seq<CommittedLifecycleLinkV1>,
    canonical: Seq<char>,
    anchor_ref: Seq<char>,
    anchor_fingerprint: Seq<char>,
) -> Option<(Seq<char>, Seq<char>)> {
    committed_walk(links, canonical, Seq::empty(), anchor_ref, anchor_fingerprint, MAX_LIFECYCLE_TRANSITIONS as nat)
}

proof fn lemma_first_successor_is(
    links: Seq<CommittedLifecycleLinkV1>,
    canonical: Seq<char>,
    r: Seq<char>,
    i: int,
    found: int,
)
    requires
        0 <= i <= found < links.len(),
        link_leaves(links[found], canonical, r),
        forall|j: int| i <= j < found ==> !link_leaves(#[trigger] links[j], canonical, r),
    ensures
        first_successor(links, canonical, r, i) == found,
    decreases found - i,
{
    if i < found {
        lemma_first_successor_is(links, canonical, r, i + 1, found);
    }
}

fn texts_contain(items: &Vec<Vec<char>>, x: &Vec<char>) -> (r: bool)
    ensures
        r == views(items@).contains(x@),
{
    let ghost vs = views(items@);
    let mut i: usize = 0;
    while i < items.len()
        invariant
            i <= items.len(),
            vs == views(items@),
            forall|j: int| 0 <= j < i ==> vs[j] != x@,
        decreases items.len() - i,
    {
        if crate::text::chars_eq(&items[i], x) {
            assert(vs[i as int] == x@);
            return true;
        }
        i = i + 1;
    }
    false
}

fn str_is_chars(s: &String, x: &Vec<char>) -> (r: bool)
    ensures
        r == (s@ == x@),
{
    crate::text::chars_eq(&chars_of(s.as_str()), x)
}

/// Walks committed lifecycle history from the promotion anchor to its exact head: every
/// committed event of this Charter must extend the chain once, from the head it names, with no
/// fork, discontinuity or unreachable transition, within the history bound.
#[verifier::rlimit(30)]
pub fn resolve_committed_head(
    canonical_fingerprint: &str,
    anchor_ref: &str,
    anchor_fingerprint: &str,
    links: &Vec<CommittedLifecycleLinkV1>,
) -> (r: Result<(String, String), CharterLifecycleStoreErrorV1>)
    ensures
        match committed_head(links@, canonical_fingerprint@, anchor_ref@, anchor_fingerprint@) {
            Some((h, f)) => r matches Ok((hr, hf)) && hr@ == h && hf@ == f,
            None => r matches Err(e) && e.error_kind() == CharterLifecycleStoreErrorKindV1::DurabilityViolation,
        },
{
    let canonical = chars_of(canonical_fingerprint);
    let mut passed: Vec<Vec<char>> = Vec::new();
    let mut head = chars_of(anchor_ref);
    let mut head_fingerprint = chars_of(anchor_fingerprint);
    let mut fuel: usize = MAX_LIFECYCLE_TRANSITIONS;
    assert(views(passed@) =~= Seq::<Seq<char>>::empty());
    loop
        invariant
            canonical@ == canonical_fingerprint@,
            fuel <= MAX_LIFECYCLE_TRANSITIONS,
            committed_head(links@, canonical_fingerprint@, anchor_ref@, anchor_fingerprint@) == committed_walk(
                links@,
                canonical@,
                views(passed@),
                head@,
                head_fingerprint@,
                fuel as nat,
            ),
        decreases fuel,
    {
        let ghost walk = committed_walk(links@, canonical@, views(passed@), head@, head_fingerprint@, fuel as nat);
        let mut count: usize = 0;
        let mut found: usize = 0;
        let mut i: usize = 0;
        while i < links.len()
            invariant
                i <= links.len(),
                canonical@ == canonical_fingerprint@,
                count == successor_count(links@, canonical@, head@, i as nat),
                count <= i,
                count == 0 ==> forall|j: int| 0 <= j < i ==> !link_leaves(#[trigger] links@[j], canonical@, head@),
                count > 0 ==> found < i && link_leaves(links@[found as int], canonical@, head@) && forall|j: int|
                    0 <= j < found ==> !link_leaves(#[trigger] links@[j], canonical@, head@),
            decreases links.len() - i,
        {
            if str_is_chars(&links[i].canonical_fingerprint, &canonical) && str_is_chars(
                &links[i].prior_transition_ref,
                &head,
            ) {
                if count == 0 {
                    found = i;
                }
                count = count + 1;
            }
            i = i + 1;
        }
        let seen = texts_contain(&passed, &head);
        if fuel == 0 || seen || count == 0 {
            let mut k: usize = 0;
            while k < links.len()
                invariant
                    k <= links.len(),
                    canonical@ == canonical_fingerprint@,
                    committed_head(links@, canonical_fingerprint@, anchor_ref@, anchor_fingerprint@) == walk,
                    walk == committed_walk(links@, canonical@, views(passed@), head@, head_fingerprint@, fuel as nat),
                    fuel == 0 || views(passed@).contains(head@) || successor_count(links@, canonical@, head@, links@.len()) == 0,
                    forall|j: int|
                        0 <= j < k && (#[trigger] links@[j]).canonical_fingerprint@ == canonical@
                            ==> views(passed@).contains(links@[j].prior_transition_ref@),
                decreases links.len() - k,
            {
                if str_is_chars(&links[k].canonical_fingerprint, &canonical) && !texts_contain(
                    &passed,
                    &chars_of(links[k].prior_transition_ref.as_str()),
                ) {
                    return Err(
                        durability(
                            "committed lifecycle history contains unreachable transitions or exceeds its bound",
                        ),
                    );
                }
                k = k + 1;
            }
            return Ok((string_of(&head), string_of(&head_fingerprint)));
        }
        if count > 1 {
            return Err(durability("committed lifecycle history contains a forked prior head"));
        }
        proof {
            lemma_first_successor_is(links@, canonical@, head@, 0, found as int);
        }
        let next = &links[found];
        if !str_is_chars(&next.prior_transition_fingerprint, &head_fingerprint) {
            return Err(durability("committed lifecycle history prior fingerprint is discontinuous"));
        }
        let ghost before = views(passed@);
        passed.push(head);
        assert(views(passed@) =~= before.push(head@));
        head = chars_of(next.transition_ref.as_str());
        head_fingerprint = chars_of(next.transition_fingerprint.as_str());
        fuel = fuel - 1;
    }
}

} // verus!
