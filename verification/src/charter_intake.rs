use vstd::prelude::*;
use vstd::utf8::encode_utf8;
use crate::charter_lifecycle::{is_blank, is_blank_text};
use crate::charter_lifecycle_validation::{is_utc_timestamp, utc_timestamp_layout};
use crate::digest::{fingerprint_hex as hex_part, is_fingerprint, lemma_sha256_prefix};
use crate::text::{chars_eq, chars_of, has_prefix, slice_chars, starts_with, string_of};

verus! {

#[derive(Clone, Copy, Debug, PartialEq, Eq, Structural)]
pub enum CharterAcquisitionMode {
    GuidedAdaptive,
    Express,
    AgentAssisted,
}

#[derive(Clone, Copy, Debug, PartialEq, Eq, Structural)]
pub enum CharterIntakeSourceKind {
    UserDeclaration,
    EvidencedInference,
    DeterministicDefault,
    KnownUnknown,
    Contradiction,
    Waiver,
}

/// What an author submits for one coverage ID.
#[derive(Clone, Debug, PartialEq, Eq)]
pub struct CharterCoverageSubmission {
    pub coverage_id: String,
    pub source_kind: CharterIntakeSourceKind,
    pub value_ref: String,
    pub evidence_refs: Vec<String>,
    pub confidence: String,
    pub freshness: Option<String>,
    pub sensitivity: String,
    pub contradiction_refs: Vec<String>,
    pub waiver_ref: Option<String>,
}

/// Who consumed the intake.
#[derive(Clone, Debug, PartialEq, Eq)]
pub struct CharterIntakeConsumer {
    pub kind: String,
    pub id: String,
    pub version: String,
}

/// The evaluated result of one coverage ID.
#[derive(Clone, Debug, PartialEq, Eq)]
pub struct CharterCoverageResult {
    pub coverage_id: String,
    pub applicability: String,
    pub source_kind: CharterIntakeSourceKind,
    pub value_ref: String,
    pub evidence_refs: Vec<String>,
    pub confidence: String,
    pub freshness: Option<String>,
    pub sensitivity: String,
    pub evaluation: String,
    pub contradiction_refs: Vec<String>,
    pub waiver_ref: Option<String>,
}

/// An intake record, version 1.1.
#[derive(Clone, Debug, PartialEq, Eq)]
pub struct CharterIntakeRecordV11 {
    pub schema_id: String,
    pub schema_version: String,
    pub intake_record_id: String,
    pub intake_definition_ref: String,
    pub acquisition_mode: CharterAcquisitionMode,
    pub target_kind_ref: String,
    pub target_instance_id: String,
    pub profile_ref: String,
    pub resolved_profile_fingerprint: String,
    pub basis_artifact_fingerprint: Option<String>,
    pub consumer: CharterIntakeConsumer,
    pub coverage_results: Vec<CharterCoverageResult>,
    pub prompt_event_refs: Vec<String>,
    pub finalized_at_utc: String,
    pub record_fingerprint: String,
}

/// The coverage ID and source of one leaf of candidate content.
#[derive(Clone, Debug, PartialEq, Eq)]
pub struct CharterFieldSource {
    pub target_path: String,
    pub coverage_id: String,
    pub source_kind: CharterIntakeSourceKind,
}

/// A candidate record, version 1.1.
#[derive(Clone, Debug, PartialEq, Eq)]
pub struct CharterCandidateV11 {
    pub schema_id: String,
    pub schema_version: String,
    pub candidate_id: String,
    pub intake_record_ref: String,
    pub target_kind_ref: String,
    pub target_instance_id: String,
    pub target_schema_ref: String,
    pub profile_ref: String,
    pub resolved_profile_fingerprint: String,
    pub basis_artifact_fingerprint: Option<String>,
    pub normalized_content_ref: String,
    pub field_sources: Vec<CharterFieldSource>,
    pub validation_result_refs: Vec<String>,
    pub unresolved_coverage_ids: Vec<String>,
    pub promotion_eligibility: String,
    pub required_approval_policy_ref: String,
    pub candidate_fingerprint: String,
}

/// An intake record, its candidate, and the candidate's normalized content.
#[derive(Clone, Debug, PartialEq, Eq)]
pub struct CharterCandidateBundle {
    pub intake: CharterIntakeRecordV11,
    pub candidate: CharterCandidateV11,
    pub normalized_content: Vec<u8>,
}

#[derive(Clone, Copy, Debug, PartialEq, Eq, Structural)]
pub enum CharterIntakeErrorKind {
    CoverageMismatch,
    SourceAuthorityMismatch,
    UnknownOrContradictedCoverage,
    WaiverMismatch,
    BasisMismatch,
    CandidateContentInvalid,
    FingerprintFailed,
}

#[derive(Clone, Debug, PartialEq, Eq)]
pub struct CharterIntakeError {
    kind: CharterIntakeErrorKind,
    detail: String,
}

impl CharterIntakeError {
    /// The kind of the refusal.
    pub closed spec fn error_kind(&self) -> CharterIntakeErrorKind {
        self.kind
    }

    /// The text that explains the refusal.
    pub closed spec fn error_detail(&self) -> Seq<char> {
        self.detail@
    }

    pub fn new(kind: CharterIntakeErrorKind, detail: &str) -> (r: Self)
        ensures
            r.error_kind() == kind,
            r.error_detail() == detail@,
    {
        Self { kind, detail: detail.to_owned() }
    }

    pub fn kind(&self) -> (r: CharterIntakeErrorKind)
        ensures
            r == self.error_kind(),
    {
        self.kind
    }

    pub fn detail(&self) -> (r: &str)
        ensures
            r@ == self.error_detail(),
    {
        self.detail.as_str()
    }
}

/// The sixteen Charter coverage IDs, in their fixed order.
pub open spec fn coverage_order() -> Seq<Seq<char>> {
    seq![
        "project_shape.definition"@,
        "delivery.constraints"@,
        "delivery.default_implications"@,
        "operational_reality.production_state"@,
        "risk.domains"@,
        "engineering_posture.baseline"@,
        "policy.authority_and_revision"@,
        "governance.decision_authority"@,
        "governance.required_approvals"@,
        "governance.exception_policy"@,
        "engineering_posture.dimensions"@,
        "engineering_posture.red_lines"@,
        "governance.review_triggers"@,
        "governance.reassessment_triggers"@,
        "debt.register"@,
        "decisions.records"@,
    ]
}

/// The coverage IDs whose source must be a user declaration.
pub open spec fn normative_coverage() -> Seq<Seq<char>> {
    seq![
        "delivery.default_implications"@,
        "engineering_posture.baseline"@,
        "policy.authority_and_revision"@,
        "governance.decision_authority"@,
        "governance.required_approvals"@,
        "governance.exception_policy"@,
        "engineering_posture.dimensions"@,
        "engineering_posture.red_lines"@,
        "governance.review_triggers"@,
        "governance.reassessment_triggers"@,
        "decisions.records"@,
    ]
}

/// The coverage IDs that may be waived.
pub open spec fn waivable_coverage() -> Seq<Seq<char>> {
    seq![
        "delivery.default_implications"@,
        "policy.authority_and_revision"@,
        "governance.decision_authority"@,
        "governance.required_approvals"@,
        "governance.exception_policy"@,
        "engineering_posture.dimensions"@,
        "engineering_posture.red_lines"@,
        "governance.review_triggers"@,
        "governance.reassessment_triggers"@,
        "decisions.records"@,
    ]
}

pub fn coverage_order_list() -> (r: Vec<&'static str>)
    ensures
        r@.map_values(|s: &'static str| s@) == coverage_order(),
{
    let mut v: Vec<&'static str> = Vec::new();
    v.push("project_shape.definition");
    v.push("delivery.constraints");
    v.push("delivery.default_implications");
    v.push("operational_reality.production_state");
    v.push("risk.domains");
    v.push("engineering_posture.baseline");
    v.push("policy.authority_and_revision");
    v.push("governance.decision_authority");
    v.push("governance.required_approvals");
    v.push("governance.exception_policy");
    v.push("engineering_posture.dimensions");
    v.push("engineering_posture.red_lines");
    v.push("governance.review_triggers");
    v.push("governance.reassessment_triggers");
    v.push("debt.register");
    v.push("decisions.records");
    assert(v@.map_values(|s: &'static str| s@) =~= coverage_order());
    v
}

fn normative_list() -> (r: Vec<&'static str>)
    ensures
        r@.map_values(|s: &'static str| s@) == normative_coverage(),
{
    let mut v: Vec<&'static str> = Vec::new();
    v.push("delivery.default_implications");
    v.push("engineering_posture.baseline");
    v.push("policy.authority_and_revision");
    v.push("governance.decision_authority");
    v.push("governance.required_approvals");
    v.push("governance.exception_policy");
    v.push("engineering_posture.dimensions");
    v.push("engineering_posture.red_lines");
    v.push("governance.review_triggers");
    v.push("governance.reassessment_triggers");
    v.push("decisions.records");
    assert(v@.map_values(|s: &'static str| s@) =~= normative_coverage());
    v
}

fn waivable_list() -> (r: Vec<&'static str>)
    ensures
        r@.map_values(|s: &'static str| s@) == waivable_coverage(),
{
    let mut v: Vec<&'static str> = Vec::new();
    v.push("delivery.default_implications");
    v.push("policy.authority_and_revision");
    v.push("governance.decision_authority");
    v.push("governance.required_approvals");
    v.push("governance.exception_policy");
    v.push("engineering_posture.dimensions");
    v.push("engineering_posture.red_lines");
    v.push("governance.review_triggers");
    v.push("governance.reassessment_triggers");
    v.push("decisions.records");
    assert(v@.map_values(|s: &'static str| s@) =~= waivable_coverage());
    v
}

/// The first position of a text in a list of static texts, if any.
pub fn position_in(list: &Vec<&'static str>, value: &String) -> (r: Option<usize>)
    ensures
        r matches Some(k) ==> k < list.len() && list@[k as int]@ == value@ && forall|j: int|
            0 <= j < k ==> (#[trigger] list@[j])@ != value@,
        r is None ==> forall|j: int| 0 <= j < list.len() ==> (#[trigger] list@[j])@ != value@,
{
    let v = chars_of(value.as_str());
    let mut k: usize = 0;
    while k < list.len()
        invariant
            v@ == value@,
            k <= list.len(),
            forall|j: int| 0 <= j < k ==> (#[trigger] list@[j])@ != value@,
        decreases list.len() - k,
    {
        if chars_eq(&chars_of(list[k]), &v) {
            return Some(k);
        }
        k = k + 1;
    }
    None
}

/// The refusal of one coverage submission, given the coverage IDs submitted before it.
pub open spec fn submission_error(
    s: CharterCoverageSubmission,
    earlier: Seq<Seq<char>>,
) -> Option<CharterIntakeErrorKind> {
    let id = s.coverage_id@;
    if !coverage_order().contains(id) || earlier.contains(id) || is_blank(s.value_ref@)
        || s.confidence@ != "high"@ || is_blank(s.sensitivity@) {
        Some(CharterIntakeErrorKind::CoverageMismatch)
    } else if s.contradiction_refs.len() > 0 || s.source_kind == CharterIntakeSourceKind::KnownUnknown
        || s.source_kind == CharterIntakeSourceKind::Contradiction {
        Some(CharterIntakeErrorKind::UnknownOrContradictedCoverage)
    } else if (normative_coverage().contains(id) && s.source_kind
        != CharterIntakeSourceKind::UserDeclaration) || (!normative_coverage().contains(id)
        && s.source_kind != CharterIntakeSourceKind::UserDeclaration && s.source_kind
        != CharterIntakeSourceKind::EvidencedInference) || (s.source_kind
        == CharterIntakeSourceKind::EvidencedInference && s.evidence_refs.len() == 0) {
        Some(CharterIntakeErrorKind::SourceAuthorityMismatch)
    } else if s.waiver_ref is Some && (!waivable_coverage().contains(id) || s.source_kind
        != CharterIntakeSourceKind::UserDeclaration) {
        Some(CharterIntakeErrorKind::WaiverMismatch)
    } else {
        None
    }
}

/// The coverage IDs of submissions.
pub open spec fn submitted_ids(c: Seq<CharterCoverageSubmission>) -> Seq<Seq<char>> {
    c.map_values(|s: CharterCoverageSubmission| s.coverage_id@)
}

/// The refusal of the submissions from position `i` on: the first that fails decides.
pub open spec fn coverage_error_from(c: Seq<CharterCoverageSubmission>, i: int) -> Option<
    CharterIntakeErrorKind,
>
    decreases c.len() - i,
{
    if i < 0 || i >= c.len() {
        None
    } else {
        match submission_error(c[i], submitted_ids(c).take(i)) {
            Some(k) => Some(k),
            None => coverage_error_from(c, i + 1),
        }
    }
}

/// The refusal of a coverage submission set: exactly sixteen submissions are required, then
/// each is checked in order.
pub open spec fn coverage_error(c: Seq<CharterCoverageSubmission>) -> Option<CharterIntakeErrorKind> {
    if c.len() != 16 {
        Some(CharterIntakeErrorKind::CoverageMismatch)
    } else {
        coverage_error_from(c, 0)
    }
}

fn count_filled(slots: &Vec<Option<usize>>) -> (r: usize)
    ensures
        r == filled_count(slots@),
{
    let mut n: usize = 0;
    let mut i: usize = 0;
    while i < slots.len()
        invariant
            i <= slots.len(),
            n == filled_count(slots@.take(i as int)),
            n <= i,
        decreases slots.len() - i,
    {
        assert(slots@.take(i + 1).drop_last() =~= slots@.take(i as int));
        if slots[i].is_some() {
            n = n + 1;
        }
        i = i + 1;
    }
    assert(slots@.take(slots@.len() as int) =~= slots@);
    n
}

/// The number of filled slots.
pub open spec fn filled_count(slots: Seq<Option<usize>>) -> nat
    decreases slots.len(),
{
    if slots.len() == 0 {
        0
    } else {
        filled_count(slots.drop_last()) + (if slots.last() is Some { 1nat } else { 0nat })
    }
}

proof fn lemma_filled_count_update(slots: Seq<Option<usize>>, k: int, v: usize)
    requires
        0 <= k < slots.len(),
        slots[k] is None,
    ensures
        filled_count(slots.update(k, Some(v))) == filled_count(slots) + 1,
    decreases slots.len(),
{
    let t = slots.update(k, Some(v));
    if k == slots.len() - 1 {
        assert(t.drop_last() =~= slots.drop_last());
    } else {
        assert(t.drop_last() =~= slots.drop_last().update(k, Some(v)));
        lemma_filled_count_update(slots.drop_last(), k, v);
    }
}

proof fn lemma_filled_count_full(slots: Seq<Option<usize>>)
    requires
        filled_count(slots) == slots.len(),
    ensures
        forall|k: int| 0 <= k < slots.len() ==> #[trigger] slots[k] is Some,
    decreases slots.len(),
{
    if slots.len() > 0 {
        lemma_filled_count_bound(slots.drop_last());
        lemma_filled_count_full(slots.drop_last());
        assert forall|k: int| 0 <= k < slots.len() implies #[trigger] slots[k] is Some by {
            if k < slots.len() - 1 {
                assert(slots.drop_last()[k] == slots[k]);
            }
        }
    }
}

proof fn lemma_filled_count_bound(slots: Seq<Option<usize>>)
    ensures
        filled_count(slots) <= slots.len(),
    decreases slots.len(),
{
    if slots.len() > 0 {
        lemma_filled_count_bound(slots.drop_last());
    }
}

/// Checks the sixteen coverage submissions and arranges them in coverage order: position `k`
/// of the result is the submission for the `k`-th coverage ID.
pub fn validate_and_order_coverage(coverage: &[CharterCoverageSubmission]) -> (r: Result<
    Vec<usize>,
    CharterIntakeError,
>)
    ensures
        r is Ok <==> coverage_error(coverage@) is None,
        r matches Err(e) ==> coverage_error(coverage@) == Some(e.error_kind()),
        r matches Ok(order) ==> order.len() == 16 && forall|k: int|
            0 <= k < 16 ==> (#[trigger] order@[k]) < coverage.len() && coverage@[order@[k] as int].coverage_id@
                == coverage_order()[k],
{
    if coverage.len() != 16 {
        return Err(CharterIntakeError::new(
            CharterIntakeErrorKind::CoverageMismatch,
            "Charter intake requires exactly sixteen coverage submissions",
        ));
    }
    let ghost c = coverage@;
    let order_list = coverage_order_list();
    let normative = normative_list();
    let waivable = waivable_list();
    let mut slots: Vec<Option<usize>> = Vec::new();
    let mut s: usize = 0;
    while s < 16
        invariant
            s <= 16,
            slots.len() == s,
            forall|k: int| 0 <= k < s ==> slots@[k] is None,
        decreases 16 - s,
    {
        slots.push(None);
        s = s + 1;
    }
    assert(filled_count(slots@) == 0) by {
        assert forall|n: int| 0 <= n <= 16 implies filled_count(#[trigger] slots@.take(n)) == 0 by {
            assert forall|m: int| 0 <= m <= n implies filled_count(#[trigger] slots@.take(m)) == 0 by {
                lemma_prefix_empty(slots@, m);
            }
        }
        assert(slots@.take(16) =~= slots@);
    }
    let mut i: usize = 0;
    while i < 16
        invariant
            c == coverage@,
            coverage.len() == 16,
            i <= 16,
            order_list@.map_values(|t: &'static str| t@) == coverage_order(),
            normative@.map_values(|t: &'static str| t@) == normative_coverage(),
            waivable@.map_values(|t: &'static str| t@) == waivable_coverage(),
            slots.len() == 16,
            filled_count(slots@) == i,
            coverage_error(c) == coverage_error_from(c, i as int),
            forall|j: int| 0 <= j < i ==> coverage_order().contains(#[trigger] c[j].coverage_id@),
            forall|k: int|
                0 <= k < 16 ==> match #[trigger] slots@[k] {
                    Some(p) => p < i && c[p as int].coverage_id@ == coverage_order()[k],
                    None => forall|j: int| 0 <= j < i ==> !first_position_of(c[j].coverage_id@, k),
                },
        decreases 16 - i,
    {
        let submission = &coverage[i];
        let ghost earlier = submitted_ids(c).take(i as int);
        let ghost id = submission.coverage_id@;
        proof {
            assert(c[i as int] == *submission);
        }
        let index = match position_in(&order_list, &submission.coverage_id) {
            Some(k) => k,
            None => {
                proof {
                    assert forall|k: int| 0 <= k < 16 implies coverage_order()[k] != id by {
                        assert(order_list@.map_values(|t: &'static str| t@)[k] == order_list@[k]@);
                    }
                }
                return Err(CharterIntakeError::new(
                    CharterIntakeErrorKind::CoverageMismatch,
                    "unknown Charter coverage ID",
                ));
            },
        };
        proof {
            assert(order_list@.map_values(|t: &'static str| t@)[index as int] == order_list@[index as int]@);
            assert(coverage_order()[index as int] == id);
            assert(coverage_order().contains(id));
            assert forall|m: int| 0 <= m < index implies coverage_order()[m] != id by {
                assert(order_list@.map_values(|t: &'static str| t@)[m] == order_list@[m]@);
            }
            assert(first_position_of(id, index as int));
        }
        if slots[index].is_some() {
            proof {
                let p = slots@[index as int]->0;
                assert(earlier[p as int] == c[p as int].coverage_id@);
            }
            return Err(CharterIntakeError::new(
                CharterIntakeErrorKind::CoverageMismatch,
                "duplicate Charter coverage ID",
            ));
        }
        proof {
            if earlier.contains(id) {
                let j = choose|j: int| 0 <= j < earlier.len() && earlier[j] == id;
                assert(c[j].coverage_id@ == id);
                assert(first_position_of(c[j].coverage_id@, index as int));
            }
        }
        let value_blank = is_blank_text(submission.value_ref.as_str());
        let sensitivity_blank = is_blank_text(submission.sensitivity.as_str());
        let high = chars_eq(&chars_of(submission.confidence.as_str()), &chars_of("high"));
        if value_blank || !high || sensitivity_blank {
            return Err(CharterIntakeError::new(
                CharterIntakeErrorKind::CoverageMismatch,
                "coverage submission is incomplete",
            ));
        }
        if submission.contradiction_refs.len() > 0 || submission.source_kind
            == CharterIntakeSourceKind::KnownUnknown || submission.source_kind
            == CharterIntakeSourceKind::Contradiction {
            return Err(CharterIntakeError::new(
                CharterIntakeErrorKind::UnknownOrContradictedCoverage,
                "coverage submission is unknown or contradicted",
            ));
        }
        let is_normative = position_in(&normative, &submission.coverage_id).is_some();
        proof {
            if normative_coverage().contains(id) {
                let k = choose|k: int| 0 <= k < normative_coverage().len() && normative_coverage()[k] == id;
                assert(normative@.map_values(|t: &'static str| t@)[k] == normative@[k]@);
            }
            if is_normative {
                let k = choose|k: int| 0 <= k < normative.len() && normative@[k]@ == id;
                assert(normative@.map_values(|t: &'static str| t@)[k] == normative@[k]@);
            }
        }
        if (is_normative && submission.source_kind != CharterIntakeSourceKind::UserDeclaration) || (
        !is_normative && submission.source_kind != CharterIntakeSourceKind::UserDeclaration
            && submission.source_kind != CharterIntakeSourceKind::EvidencedInference) || (
        submission.source_kind == CharterIntakeSourceKind::EvidencedInference
            && submission.evidence_refs.len() == 0) {
            return Err(CharterIntakeError::new(
                CharterIntakeErrorKind::SourceAuthorityMismatch,
                "coverage submission has an inadmissible source",
            ));
        }
        let is_waivable = position_in(&waivable, &submission.coverage_id).is_some();
        proof {
            if waivable_coverage().contains(id) {
                let k = choose|k: int| 0 <= k < waivable_coverage().len() && waivable_coverage()[k] == id;
                assert(waivable@.map_values(|t: &'static str| t@)[k] == waivable@[k]@);
            }
            if is_waivable {
                let k = choose|k: int| 0 <= k < waivable.len() && waivable@[k]@ == id;
                assert(waivable@.map_values(|t: &'static str| t@)[k] == waivable@[k]@);
            }
        }
        if submission.waiver_ref.is_some() && (!is_waivable || submission.source_kind
            != CharterIntakeSourceKind::UserDeclaration) {
            return Err(CharterIntakeError::new(
                CharterIntakeErrorKind::WaiverMismatch,
                "coverage submission cannot use this waiver",
            ));
        }
        proof {
            assert(submission_error(c[i as int], earlier) is None);
            lemma_filled_count_update(slots@, index as int, i);
        }
        slots.set(index, Some(i));
        proof {
            assert(first_position_of(id, index as int));
            assert forall|k: int|
                0 <= k < 16 implies match #[trigger] slots@[k] {
                Some(p) => p < i + 1 && c[p as int].coverage_id@ == coverage_order()[k],
                None => forall|j: int| 0 <= j < i + 1 ==> !first_position_of(c[j].coverage_id@, k),
            } by {
                if k != index && slots@[k] is None {
                    if first_position_of(id, k) {
                        lemma_first_position_unique(id, k, index as int);
                    }
                }
            }
        }
        i = i + 1;
    }
    proof {
        lemma_filled_count_full(slots@);
    }
    let mut order: Vec<usize> = Vec::new();
    let mut k: usize = 0;
    while k < 16
        invariant
            c == coverage@,
            coverage.len() == 16,
            slots.len() == 16,
            k <= 16,
            order.len() == k,
            forall|m: int| 0 <= m < 16 ==> #[trigger] slots@[m] is Some,
            forall|m: int|
                0 <= m < 16 ==> match #[trigger] slots@[m] {
                    Some(p) => p < 16 && c[p as int].coverage_id@ == coverage_order()[m],
                    None => true,
                },
            forall|m: int|
                0 <= m < k ==> (#[trigger] order@[m]) < 16 && c[order@[m] as int].coverage_id@
                    == coverage_order()[m],
        decreases 16 - k,
    {
        let p = match slots[k] {
            Some(p) => p,
            None => 0,
        };
        order.push(p);
        k = k + 1;
    }
    Ok(order)
}

proof fn lemma_prefix_empty(slots: Seq<Option<usize>>, m: int)
    requires
        0 <= m <= slots.len(),
        forall|k: int| 0 <= k < slots.len() ==> slots[k] is None,
    ensures
        filled_count(slots.take(m)) == 0,
    decreases m,
{
    if m > 0 {
        assert(slots.take(m).drop_last() =~= slots.take(m - 1));
        lemma_prefix_empty(slots, m - 1);
    }
}

/// Position `k` is the first at which `id` stands in the coverage order.
pub open spec fn first_position_of(id: Seq<char>, k: int) -> bool {
    0 <= k < 16 && coverage_order()[k] == id && forall|m: int| 0 <= m < k ==> coverage_order()[m] != id
}

pub proof fn lemma_first_position_unique(id: Seq<char>, k: int, m: int)
    requires
        first_position_of(id, k),
        first_position_of(id, m),
    ensures
        k == m,
{
}

/// The basis of an intake: none for a first Charter, and for an amendment the expected
/// current fingerprint, which must equal the observed one.
pub open spec fn basis_outcome(expected: Option<Seq<char>>, observed: Option<Seq<char>>) -> Result<
    Option<Seq<char>>,
    (),
> {
    match (expected, observed) {
        (None, None) => Ok(None),
        (Some(e), Some(o)) => if e == o {
            Ok(Some(e))
        } else {
            Err(())
        },
        _ => Err(()),
    }
}

/// The basis of an intake: with neither an expected nor an observed current fingerprint it is
/// a creation with no basis; with both it is accepted only when they are the same text, and the
/// basis is then that fingerprint, expected and observed alike; with only one of them it is
/// refused.
pub proof fn lemma_basis_outcome(expected: Option<Seq<char>>, observed: Option<Seq<char>>)
    ensures
        basis_outcome(expected, observed) == Ok::<Option<Seq<char>>, ()>(None) <==> expected is None
            && observed is None,
        basis_outcome(expected, observed) is Ok <==> (expected is None && observed is None) || (
        expected is Some && observed == expected),
        basis_outcome(expected, observed) matches Ok(Some(b)) ==> expected == Some(b) && observed == Some(b),
        expected is Some && observed is Some && expected != observed ==> basis_outcome(expected, observed) is Err,
{
}

pub fn validate_basis(expected: Option<&str>, observed: Option<&str>) -> (r: Result<
    Option<String>,
    CharterIntakeError,
>)
    ensures
        match basis_outcome(
            match expected {
                Some(e) => Some(e@),
                None => None,
            },
            match observed {
                Some(o) => Some(o@),
                None => None,
            },
        ) {
            Ok(Some(b)) => r matches Ok(Some(s)) && s@ == b,
            Ok(None) => r matches Ok(None),
            Err(_) => r matches Err(e) && e.error_kind() == CharterIntakeErrorKind::BasisMismatch,
        },
        r matches Ok(Some(s)) ==> expected matches Some(e) && observed matches Some(o) && s@ == e@ && s@ == o@,
        r matches Ok(None) ==> expected is None && observed is None,
        (expected matches Some(e) && observed matches Some(o) && e@ != o@) ==> (r matches Err(x)
            && x.error_detail() == "expected-current does not match observed canonical Charter bytes"@),
        (expected is Some && observed is None) ==> (r matches Err(x) && x.error_detail()
            == "expected-current must be omitted for initial Charter creation"@),
        (expected is None && observed is Some) ==> (r matches Err(x) && x.error_detail()
            == "expected-current is mandatory for a Charter amendment"@),
{
    match (expected, observed) {
        (None, None) => Ok(None),
        (Some(expected), Some(observed)) => {
            if chars_eq(&chars_of(expected), &chars_of(observed)) {
                Ok(Some(expected.to_owned()))
            } else {
                Err(CharterIntakeError::new(
                    CharterIntakeErrorKind::BasisMismatch,
                    "expected-current does not match observed canonical Charter bytes",
                ))
            }
        },
        (Some(_), None) => Err(CharterIntakeError::new(
            CharterIntakeErrorKind::BasisMismatch,
            "expected-current must be omitted for initial Charter creation",
        )),
        (None, Some(_)) => Err(CharterIntakeError::new(
            CharterIntakeErrorKind::BasisMismatch,
            "expected-current is mandatory for a Charter amendment",
        )),
    }
}

/// Intake provenance: a consumer with non-blank kind, ID and version, and a UTC finalization
/// time.
pub open spec fn audit_fields_valid(consumer: CharterIntakeConsumer, finalized_at_utc: Seq<char>) -> bool {
    !is_blank(consumer.kind@) && !is_blank(consumer.id@) && !is_blank(consumer.version@)
        && utc_timestamp_layout(encode_utf8(finalized_at_utc))
}

pub fn validate_audit_fields(consumer: &CharterIntakeConsumer, finalized_at_utc: &str) -> (r: Result<
    (),
    CharterIntakeError,
>)
    ensures
        r is Ok <==> audit_fields_valid(*consumer, finalized_at_utc@),
        r matches Err(e) ==> e.error_kind() == CharterIntakeErrorKind::CoverageMismatch,
{
    if is_blank_text(consumer.kind.as_str()) || is_blank_text(consumer.id.as_str()) || is_blank_text(
        consumer.version.as_str(),
    ) || !is_utc_timestamp(finalized_at_utc) {
        return Err(CharterIntakeError::new(
            CharterIntakeErrorKind::CoverageMismatch,
            "intake consumer provenance and finalized_at_utc must be explicit and bounded",
        ));
    }
    Ok(())
}

/// The JSON-pointer escape of one character: `~` becomes `~0` and `/` becomes `~1`.
pub open spec fn pointer_escape_char(c: char) -> Seq<char> {
    if c == '~' {
        seq!['~', '0']
    } else if c == '/' {
        seq!['~', '1']
    } else {
        seq![c]
    }
}

/// The JSON-pointer escape of a text.
pub open spec fn pointer_escaped(s: Seq<char>) -> Seq<char>
    decreases s.len(),
{
    if s.len() == 0 {
        Seq::empty()
    } else {
        pointer_escaped(s.drop_last()) + pointer_escape_char(s.last())
    }
}

pub fn escape_pointer(value: &str) -> (r: String)
    ensures
        r@ == pointer_escaped(value@),
{
    let s = chars_of(value);
    let mut out: Vec<char> = Vec::new();
    let mut i: usize = 0;
    while i < s.len()
        invariant
            s@ == value@,
            i <= s.len(),
            out@ == pointer_escaped(s@.take(i as int)),
        decreases s.len() - i,
    {
        let c = s[i];
        if c == '~' {
            out.push('~');
            out.push('0');
        } else if c == '/' {
            out.push('~');
            out.push('1');
        } else {
            out.push(c);
        }
        assert(s@.take(i + 1).drop_last() =~= s@.take(i as int));
        assert(out@ =~= pointer_escaped(s@.take(i + 1)));
        i = i + 1;
    }
    assert(s@.take(s@.len() as int) =~= s@);
    string_of(&out)
}

/// The Charter paths that each coverage ID owns, in coverage order.
pub open spec fn coverage_targets() -> Seq<(Seq<char>, Seq<Seq<char>>)> {
    seq![
        ("project_shape.definition"@, seq!["/record_id"@, "/project/name"@, "/project/classification"@, "/project/team_size"@, "/project/users"@, "/project/expected_lifetime"@, "/project/surfaces"@, "/project/runtime_environments"@]),
        ("delivery.constraints"@, seq!["/project/constraints"@]),
        ("delivery.default_implications"@, seq!["/project/default_implications"@]),
        ("operational_reality.production_state"@, seq!["/project/operational_reality"@]),
        ("risk.domains"@, seq!["/domains"@]),
        ("engineering_posture.baseline"@, seq!["/posture/baseline_level"@, "/posture/baseline_rationale"@]),
        ("policy.authority_and_revision"@, seq!["/policy"@]),
        ("governance.decision_authority"@, seq!["/governance/decision_authority"@]),
        ("governance.required_approvals"@, seq!["/governance/required_approvals"@]),
        ("governance.exception_policy"@, seq!["/governance/exception_policy"@, "/governance/exception_process"@]),
        ("engineering_posture.dimensions"@, seq!["/engineering_posture/dimensions"@]),
        ("engineering_posture.red_lines"@, seq!["/engineering_posture/red_lines"@]),
        ("governance.review_triggers"@, seq!["/governance/review_triggers"@]),
        ("governance.reassessment_triggers"@, seq!["/governance/reassessment_triggers"@]),
        ("debt.register"@, seq!["/debt"@]),
        ("decisions.records"@, seq!["/decision_records"@]),
    ]
}

/// A path is a target or lies below it.
pub open spec fn path_under(path: Seq<char>, target: Seq<char>) -> bool {
    path == target || has_prefix(path, target.push('/'))
}

/// The path lies under one of the targets.
pub open spec fn under_any(path: Seq<char>, targets: Seq<Seq<char>>) -> bool {
    exists|t: int| 0 <= t < targets.len() && path_under(path, #[trigger] targets[t])
}

/// The first coverage ID, from position `k` of the table on, that owns the path.
pub open spec fn coverage_owner_from(path: Seq<char>, k: int) -> Option<Seq<char>>
    decreases 16 - k,
{
    if k < 0 || k >= 16 {
        None
    } else if under_any(path, coverage_targets()[k].1) {
        Some(coverage_targets()[k].0)
    } else {
        coverage_owner_from(path, k + 1)
    }
}

fn path_is_under(path: &Vec<char>, target: &str) -> (r: bool)
    ensures
        r == path_under(path@, target@),
{
    let mut t = chars_of(target);
    if chars_eq(path, &t) {
        return true;
    }
    t.push('/');
    starts_with(path, &t)
}

fn coverage_table() -> (r: Vec<(&'static str, Vec<&'static str>)>)
    ensures
        r.len() == 16,
        forall|k: int|
            0 <= k < 16 ==> (#[trigger] r@[k]).0@ == coverage_targets()[k].0 && r@[k].1@.map_values(
                |t: &'static str| t@,
            ) == coverage_targets()[k].1,
{
    let mut table: Vec<(&'static str, Vec<&'static str>)> = Vec::new();
    let mut v: Vec<&'static str> = Vec::new();
    v.push("/record_id");
    v.push("/project/name");
    v.push("/project/classification");
    v.push("/project/team_size");
    v.push("/project/users");
    v.push("/project/expected_lifetime");
    v.push("/project/surfaces");
    v.push("/project/runtime_environments");
    table.push(("project_shape.definition", v));
    table.push(("delivery.constraints", single("/project/constraints")));
    table.push(("delivery.default_implications", single("/project/default_implications")));
    table.push(("operational_reality.production_state", single("/project/operational_reality")));
    table.push(("risk.domains", single("/domains")));
    let mut b: Vec<&'static str> = Vec::new();
    b.push("/posture/baseline_level");
    b.push("/posture/baseline_rationale");
    table.push(("engineering_posture.baseline", b));
    table.push(("policy.authority_and_revision", single("/policy")));
    table.push(("governance.decision_authority", single("/governance/decision_authority")));
    table.push(("governance.required_approvals", single("/governance/required_approvals")));
    let mut e: Vec<&'static str> = Vec::new();
    e.push("/governance/exception_policy");
    e.push("/governance/exception_process");
    table.push(("governance.exception_policy", e));
    table.push(("engineering_posture.dimensions", single("/engineering_posture/dimensions")));
    table.push(("engineering_posture.red_lines", single("/engineering_posture/red_lines")));
    table.push(("governance.review_triggers", single("/governance/review_triggers")));
    table.push(("governance.reassessment_triggers", single("/governance/reassessment_triggers")));
    table.push(("debt.register", single("/debt")));
    table.push(("decisions.records", single("/decision_records")));
    proof {
        let f = |t: &'static str| t@;
        assert(table@[0].1@.map_values(f) =~= coverage_targets()[0].1);
        assert(table@[5].1@.map_values(f) =~= coverage_targets()[5].1);
        assert(table@[9].1@.map_values(f) =~= coverage_targets()[9].1);
        assert(table@[1].1@.map_values(f) =~= coverage_targets()[1].1);
        assert(table@[2].1@.map_values(f) =~= coverage_targets()[2].1);
        assert(table@[3].1@.map_values(f) =~= coverage_targets()[3].1);
        assert(table@[4].1@.map_values(f) =~= coverage_targets()[4].1);
        assert(table@[6].1@.map_values(f) =~= coverage_targets()[6].1);
        assert(table@[7].1@.map_values(f) =~= coverage_targets()[7].1);
        assert(table@[8].1@.map_values(f) =~= coverage_targets()[8].1);
        assert(table@[10].1@.map_values(f) =~= coverage_targets()[10].1);
        assert(table@[11].1@.map_values(f) =~= coverage_targets()[11].1);
        assert(table@[12].1@.map_values(f) =~= coverage_targets()[12].1);
        assert(table@[13].1@.map_values(f) =~= coverage_targets()[13].1);
        assert(table@[14].1@.map_values(f) =~= coverage_targets()[14].1);
        assert(table@[15].1@.map_values(f) =~= coverage_targets()[15].1);
    }
    table
}

fn single(target: &'static str) -> (r: Vec<&'static str>)
    ensures
        r@.map_values(|t: &'static str| t@) == seq![target@],
{
    let mut v: Vec<&'static str> = Vec::new();
    v.push(target);
    assert(v@.map_values(|t: &'static str| t@) =~= seq![target@]);
    v
}

/// The coverage ID that owns a Charter path, if any.
pub fn coverage_for_path(path: &str) -> (r: Option<&'static str>)
    ensures
        r matches Some(id) ==> coverage_owner_from(path@, 0) == Some(id@),
        r is None ==> coverage_owner_from(path@, 0) is None,
{
    let p = chars_of(path);
    let table = coverage_table();
    let mut k: usize = 0;
    while k < 16
        invariant
            p@ == path@,
            table.len() == 16,
            forall|m: int|
                0 <= m < 16 ==> (#[trigger] table@[m]).0@ == coverage_targets()[m].0 && table@[m].1@.map_values(
                    |t: &'static str| t@,
                ) == coverage_targets()[m].1,
            k <= 16,
            coverage_owner_from(path@, 0) == coverage_owner_from(path@, k as int),
        decreases 16 - k,
    {
        let (id, targets) = &table[k];
        let ghost tv = coverage_targets()[k as int].1;
        let mut t: usize = 0;
        let mut found = false;
        while t < targets.len()
            invariant
                p@ == path@,
                targets@.map_values(|x: &'static str| x@) == tv,
                t <= targets.len(),
                found ==> under_any(path@, tv),
                !found ==> forall|m: int| 0 <= m < t ==> !path_under(path@, #[trigger] tv[m]),
            decreases targets.len() - t,
        {
            assert(tv[t as int] == targets@[t as int]@);
            if path_is_under(&p, targets[t]) {
                found = true;
            }
            t = t + 1;
        }
        if found {
            return Some(*id);
        }
        k = k + 1;
    }
    None
}

/// The hex digits of a fingerprint.
pub fn fingerprint_hex(fingerprint: &str) -> (r: String)
    requires
        is_fingerprint(fingerprint@),
    ensures
        r@ == hex_part(fingerprint@),
{
    proof {
        lemma_sha256_prefix();
    }
    let f = chars_of(fingerprint);
    string_of(&slice_chars(&f, 7, f.len()))
}

} // verus!
