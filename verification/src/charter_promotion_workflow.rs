use vstd::prelude::*;
use vstd::utf8::encode_utf8;
use std::path::PathBuf;
use crate::charter_lifecycle::{
    address_charter_lifecycle, clearance_complete, is_blank, is_blank_text, observation_fingerprints,
    observation_views, CharterLifecycleState,
};
use crate::charter_intake::CharterCoverageResult;
use crate::charter_lifecycle_store::CharterLifecycleAuthorityV1;
use crate::charter_lifecycle_validation::{coverage_settled, coverage_settled_check};
use crate::text::{string_views, views};
use crate::json::{
    array_text, canonical_json_bytes, fingerprint_json, jcs_bytes, json_array, json_fingerprint,
    json_member, json_object, json_opt_string, json_str, json_string, json_string_array, member_text,
    object_text, opt_string_text, string_array_text,
};
use crate::charter_lifecycle_validation::{
    binding_view, definition_binding_table, definition_bindings, LifecycleDefinitionBindingV10,
    SELECTED_PROFILE_FINGERPRINT, SELECTED_PROFILE_REF,
};
use crate::charter_lineage_store::MAX_LINEAGE_REFERENCE_BYTES;
use crate::digest::{is_fingerprint, is_fingerprint_chars, lemma_sha256_prefix, sha256_prefix};
use crate::text::{
    chars_eq, chars_lt, chars_of, ends_with, has_prefix, has_suffix, is_lower_sha256_hex,
    lemma_seq_lt_irreflexive, lemma_seq_lt_total, lemma_seq_lt_transitive, seq_lt,
    sha256_hex_text, slice_chars, starts_with, string_of,
};

verus! {

/// The repository path of the canonical Charter.
pub const CANONICAL_REF: &'static str = ".handbook/project/charter.yaml";

/// The most approval pairs or approval refs one promotion may carry.
pub const MAX_APPROVAL_REFS: usize = 64;

/// One approval class paired with the authority that may grant it.
#[derive(Clone, Debug, PartialEq, Eq)]
pub struct ApproverAuthorityPairV1 {
    pub approval_class: String,
    pub authority_ref: String,
}

impl View for ApproverAuthorityPairV1 {
    type V = (Seq<char>, Seq<char>);

    open spec fn view(&self) -> (Seq<char>, Seq<char>) {
        (self.approval_class@, self.authority_ref@)
    }
}

/// What a caller asks to promote: a finalized candidate and its approval anchor.
#[derive(Clone, Debug, PartialEq, Eq)]
pub struct CharterPromotionIntentV1 {
    pub candidate_ref: String,
    pub approval_ref: String,
    pub expected_current_fingerprint: Option<String>,
}

/// The references retained by the authority transaction that committed a promotion.
#[derive(Clone, Debug, PartialEq, Eq)]
pub struct CharterPromotionCommitV1 {
    pub promotion_ref: String,
    pub lifecycle_transition_ref: String,
}

/// The outcome of a committed promotion workflow.
#[derive(Clone, Debug, PartialEq, Eq)]
pub struct CharterPromotionWorkflowCommitV1 {
    pub canonical_fingerprint: String,
    pub promotion_ref: String,
    pub lifecycle_transition_ref: String,
    pub approval_refs: Vec<String>,
    pub required_approval_pairs: Vec<ApproverAuthorityPairV1>,
    pub transaction: CharterPromotionCommitV1,
}

/// The product-facing view of a committed promotion.
#[derive(Clone, Debug, PartialEq, Eq)]
pub struct CharterPromotionProductProjectionV1 {
    pub canonical_path: String,
    pub canonical_fingerprint: String,
    pub promotion_ref: String,
    pub promotion_fingerprint: String,
    pub changed_paths: Vec<String>,
    pub next_actions: Vec<String>,
}

#[derive(Clone, Copy, Debug, PartialEq, Eq, Structural)]
pub enum CharterPromotionProductProjectionErrorKindV1 {
    InvalidCanonicalFingerprint,
    InvalidPromotionRef,
    InvalidLifecycleTransitionRef,
    InconsistentCommit,
}

#[derive(Clone, Debug, PartialEq, Eq)]
pub struct CharterPromotionProductProjectionErrorV1 {
    kind: CharterPromotionProductProjectionErrorKindV1,
    detail: String,
}

/// The product-facing refusal of a promotion or of its projection.
#[derive(Clone, Debug, PartialEq, Eq)]
pub struct CharterPromotionProductRefusalV1 {
    pub code: String,
    pub message: String,
    pub retryable: bool,
    pub next_actions: Vec<String>,
}

#[derive(Clone, Copy, Debug, PartialEq, Eq, Structural)]
pub enum CharterPromotionWorkflowErrorKindV1 {
    InvalidIntent,
    CandidateRefused,
    ApprovalRefused,
    RegistryRefused,
    DefinitionDrift,
    BasisMismatch,
    LifecycleClearanceIncomplete,
    TransactionRefused,
}

#[derive(Clone, Debug, PartialEq, Eq)]
pub struct CharterPromotionWorkflowErrorV1 {
    kind: CharterPromotionWorkflowErrorKindV1,
    detail: String,
}

/// The promotion workflow of one repository.
#[derive(Debug)]
pub struct CharterPromotionWorkflowServiceV1 {
    repo_root: PathBuf,
}

impl CharterPromotionWorkflowServiceV1 {
    /// The repository root the workflow serves.
    pub closed spec fn root(&self) -> PathBuf {
        self.repo_root
    }

    pub fn new(repo_root: PathBuf) -> (r: Self)
        ensures
            r.root() == repo_root,
    {
        Self { repo_root }
    }

    pub fn repo_root(&self) -> (r: &PathBuf)
        ensures
            *r == self.root(),
    {
        &self.repo_root
    }
}

// ---------------------------------------------------------------------------
// Refusal tables
// ---------------------------------------------------------------------------

/// The refusal code of each workflow error kind.
pub open spec fn workflow_refusal_code(kind: CharterPromotionWorkflowErrorKindV1) -> Seq<char> {
    match kind {
        CharterPromotionWorkflowErrorKindV1::InvalidIntent => "invalid_intent"@,
        CharterPromotionWorkflowErrorKindV1::CandidateRefused => "candidate_refused"@,
        CharterPromotionWorkflowErrorKindV1::ApprovalRefused => "approval_refused"@,
        CharterPromotionWorkflowErrorKindV1::RegistryRefused => "registry_refused"@,
        CharterPromotionWorkflowErrorKindV1::DefinitionDrift => "definition_drift"@,
        CharterPromotionWorkflowErrorKindV1::BasisMismatch => "basis_mismatch"@,
        CharterPromotionWorkflowErrorKindV1::LifecycleClearanceIncomplete => "lifecycle_clearance_incomplete"@,
        CharterPromotionWorkflowErrorKindV1::TransactionRefused => "transaction_refused"@,
    }
}

/// Only a basis mismatch can be retried as it stands: the candidate is re-finalized.
pub open spec fn workflow_refusal_retryable(kind: CharterPromotionWorkflowErrorKindV1) -> bool {
    kind == CharterPromotionWorkflowErrorKindV1::BasisMismatch
}

/// The one next action offered for each workflow error kind.
pub open spec fn workflow_refusal_next_action(kind: CharterPromotionWorkflowErrorKindV1) -> Seq<
    char,
> {
    match kind {
        CharterPromotionWorkflowErrorKindV1::InvalidIntent => "correct the bounded promotion intent and retry"@,
        CharterPromotionWorkflowErrorKindV1::CandidateRefused => "repair or rebuild the candidate against current selected definitions before retrying"@,
        CharterPromotionWorkflowErrorKindV1::ApprovalRefused => "record every required current approval, then retry promotion"@,
        CharterPromotionWorkflowErrorKindV1::RegistryRefused => "repair or bootstrap current approver registry authority before retrying"@,
        CharterPromotionWorkflowErrorKindV1::DefinitionDrift => "repair the selected profile and Charter definition closure before retrying"@,
        CharterPromotionWorkflowErrorKindV1::BasisMismatch => "re-finalize the candidate against current canonical Charter authority before retrying"@,
        CharterPromotionWorkflowErrorKindV1::LifecycleClearanceIncomplete => "reevaluate reopened Charter coverage and address every active lifecycle observation before retrying"@,
        CharterPromotionWorkflowErrorKindV1::TransactionRefused => "repair retained promotion transaction evidence before retrying"@,
    }
}

/// The refusal code of each projection error kind.
pub open spec fn projection_refusal_code(kind: CharterPromotionProductProjectionErrorKindV1) -> Seq<
    char,
> {
    match kind {
        CharterPromotionProductProjectionErrorKindV1::InvalidCanonicalFingerprint => "promotion_projection_invalid_canonical_fingerprint"@,
        CharterPromotionProductProjectionErrorKindV1::InvalidPromotionRef => "promotion_projection_invalid_promotion_ref"@,
        CharterPromotionProductProjectionErrorKindV1::InvalidLifecycleTransitionRef => "promotion_projection_invalid_lifecycle_transition_ref"@,
        CharterPromotionProductProjectionErrorKindV1::InconsistentCommit => "promotion_projection_inconsistent_commit"@,
    }
}

/// The one next action offered for each projection error kind.
pub open spec fn projection_refusal_next_action(
    kind: CharterPromotionProductProjectionErrorKindV1,
) -> Seq<char> {
    match kind {
        CharterPromotionProductProjectionErrorKindV1::InvalidCanonicalFingerprint => "repair the retained canonical fingerprint before retrying product projection"@,
        CharterPromotionProductProjectionErrorKindV1::InvalidPromotionRef => "repair the retained content-addressed promotion ref before retrying product projection"@,
        CharterPromotionProductProjectionErrorKindV1::InvalidLifecycleTransitionRef => "repair the retained content-addressed lifecycle transition ref before retrying product projection"@,
        CharterPromotionProductProjectionErrorKindV1::InconsistentCommit => "repair retained workflow and transaction ref agreement before retrying product projection"@,
    }
}

/// The texts of a vector of strings.
pub open spec fn texts_of(v: Seq<String>) -> Seq<Seq<char>> {
    v.map_values(|s: String| s@)
}

fn single_text(s: &str) -> (r: Vec<String>)
    ensures
        texts_of(r@) == seq![s@],
{
    let mut v: Vec<String> = Vec::new();
    v.push(s.to_owned());
    assert(texts_of(v@) =~= seq![s@]);
    v
}

impl CharterPromotionWorkflowErrorKindV1 {
    /// The product refusal for this kind of error, carrying `message`.
    pub fn product_refusal(self, message: &str) -> (r: CharterPromotionProductRefusalV1)
        ensures
            r.code@ == workflow_refusal_code(self),
            r.message@ == message@,
            r.retryable == workflow_refusal_retryable(self),
            texts_of(r.next_actions@) == seq![workflow_refusal_next_action(self)],
    {
        let (code, retryable, next_action) = match self {
            CharterPromotionWorkflowErrorKindV1::InvalidIntent => (
                "invalid_intent",
                false,
                "correct the bounded promotion intent and retry",
            ),
            CharterPromotionWorkflowErrorKindV1::CandidateRefused => (
                "candidate_refused",
                false,
                "repair or rebuild the candidate against current selected definitions before retrying",
            ),
            CharterPromotionWorkflowErrorKindV1::ApprovalRefused => (
                "approval_refused",
                false,
                "record every required current approval, then retry promotion",
            ),
            CharterPromotionWorkflowErrorKindV1::RegistryRefused => (
                "registry_refused",
                false,
                "repair or bootstrap current approver registry authority before retrying",
            ),
            CharterPromotionWorkflowErrorKindV1::DefinitionDrift => (
                "definition_drift",
                false,
                "repair the selected profile and Charter definition closure before retrying",
            ),
            CharterPromotionWorkflowErrorKindV1::BasisMismatch => (
                "basis_mismatch",
                true,
                "re-finalize the candidate against current canonical Charter authority before retrying",
            ),
            CharterPromotionWorkflowErrorKindV1::LifecycleClearanceIncomplete => (
                "lifecycle_clearance_incomplete",
                false,
                "reevaluate reopened Charter coverage and address every active lifecycle observation before retrying",
            ),
            CharterPromotionWorkflowErrorKindV1::TransactionRefused => (
                "transaction_refused",
                false,
                "repair retained promotion transaction evidence before retrying",
            ),
        };
        CharterPromotionProductRefusalV1 {
            code: code.to_owned(),
            message: message.to_owned(),
            retryable,
            next_actions: single_text(next_action),
        }
    }
}

impl CharterPromotionWorkflowErrorV1 {
    /// The kind of the refusal.
    pub closed spec fn error_kind(&self) -> CharterPromotionWorkflowErrorKindV1 {
        self.kind
    }

    /// The text that explains the refusal.
    pub closed spec fn error_detail(&self) -> Seq<char> {
        self.detail@
    }

    pub fn new(kind: CharterPromotionWorkflowErrorKindV1, detail: &str) -> (r: Self)
        ensures
            r.error_kind() == kind,
            r.error_detail() == detail@,
    {
        Self { kind, detail: detail.to_owned() }
    }

    pub fn kind(&self) -> (r: CharterPromotionWorkflowErrorKindV1)
        ensures
            r == self.error_kind(),
    {
        self.kind
    }

    pub fn detail(&self) -> (r: &str)
        ensures
            r@ == self.error_detail(),
    {
        self.detail.as_str()
    }

    /// The product refusal of this error: its kind's refusal, carrying its detail.
    pub fn product_refusal(&self) -> (r: CharterPromotionProductRefusalV1)
        ensures
            r.code@ == workflow_refusal_code(self.error_kind()),
            r.message@ == self.error_detail(),
            r.retryable == workflow_refusal_retryable(self.error_kind()),
            texts_of(r.next_actions@) == seq![workflow_refusal_next_action(self.error_kind())],
    {
        self.kind.product_refusal(self.detail.as_str())
    }
}

impl CharterPromotionProductProjectionErrorV1 {
    /// The kind of the refusal.
    pub closed spec fn error_kind(&self) -> CharterPromotionProductProjectionErrorKindV1 {
        self.kind
    }

    /// The text that explains the refusal.
    pub closed spec fn error_detail(&self) -> Seq<char> {
        self.detail@
    }

    pub fn new(kind: CharterPromotionProductProjectionErrorKindV1, detail: &str) -> (r: Self)
        ensures
            r.error_kind() == kind,
            r.error_detail() == detail@,
    {
        Self { kind, detail: detail.to_owned() }
    }

    pub fn kind(&self) -> (r: CharterPromotionProductProjectionErrorKindV1)
        ensures
            r == self.error_kind(),
    {
        self.kind
    }

    pub fn detail(&self) -> (r: &str)
        ensures
            r@ == self.error_detail(),
    {
        self.detail.as_str()
    }

    /// The product refusal of this error: never retryable, with one repair action.
    pub fn product_refusal(&self) -> (r: CharterPromotionProductRefusalV1)
        ensures
            r.code@ == projection_refusal_code(self.error_kind()),
            r.message@ == self.error_detail(),
            !r.retryable,
            texts_of(r.next_actions@) == seq![projection_refusal_next_action(self.error_kind())],
    {
        let (code, next_action) = match self.kind {
            CharterPromotionProductProjectionErrorKindV1::InvalidCanonicalFingerprint => (
                "promotion_projection_invalid_canonical_fingerprint",
                "repair the retained canonical fingerprint before retrying product projection",
            ),
            CharterPromotionProductProjectionErrorKindV1::InvalidPromotionRef => (
                "promotion_projection_invalid_promotion_ref",
                "repair the retained content-addressed promotion ref before retrying product projection",
            ),
            CharterPromotionProductProjectionErrorKindV1::InvalidLifecycleTransitionRef => (
                "promotion_projection_invalid_lifecycle_transition_ref",
                "repair the retained content-addressed lifecycle transition ref before retrying product projection",
            ),
            CharterPromotionProductProjectionErrorKindV1::InconsistentCommit => (
                "promotion_projection_inconsistent_commit",
                "repair retained workflow and transaction ref agreement before retrying product projection",
            ),
        };
        CharterPromotionProductRefusalV1 {
            code: code.to_owned(),
            message: self.detail.clone(),
            retryable: false,
            next_actions: single_text(next_action),
        }
    }
}

// ---------------------------------------------------------------------------
// Required approval pairs
// ---------------------------------------------------------------------------

/// The order of approval pairs: by approval class, then by authority ref.
pub open spec fn pair_lt(a: (Seq<char>, Seq<char>), b: (Seq<char>, Seq<char>)) -> bool {
    seq_lt(a.0, b.0) || (a.0 == b.0 && seq_lt(a.1, b.1))
}

pub open spec fn pair_views(s: Seq<ApproverAuthorityPairV1>) -> Seq<(Seq<char>, Seq<char>)> {
    s.map_values(|p: ApproverAuthorityPairV1| p@)
}

pub open spec fn pairs_strictly_sorted(s: Seq<(Seq<char>, Seq<char>)>) -> bool {
    forall|i: int, j: int| 0 <= i < j < s.len() ==> pair_lt(#[trigger] s[i], #[trigger] s[j])
}

pub open spec fn pairs_distinct(s: Seq<(Seq<char>, Seq<char>)>) -> bool {
    forall|i: int, j: int| 0 <= i < j < s.len() ==> #[trigger] s[i] != #[trigger] s[j]
}

/// An approval class or authority ref: not blank, and at most 255 bytes.
pub open spec fn approval_text_valid(s: Seq<char>) -> bool {
    !is_blank(s) && encode_utf8(s).len() <= 255
}

pub open spec fn approval_pair_valid(p: (Seq<char>, Seq<char>)) -> bool {
    approval_text_valid(p.0) && approval_text_valid(p.1)
}

/// Why a set of required approval pairs is refused, if it is.
pub open spec fn approval_pairs_error(s: Seq<(Seq<char>, Seq<char>)>) -> Option<Seq<char>> {
    if s.len() == 0 || s.len() > MAX_APPROVAL_REFS {
        Some("required approval pair set must contain 1-64 entries"@)
    } else if exists|i: int| 0 <= i < s.len() && !approval_pair_valid(#[trigger] s[i]) {
        Some("approval class and authority ref must be bounded non-empty strings"@)
    } else if !pairs_distinct(s) {
        Some("required approval authority pairs must be unique"@)
    } else {
        None
    }
}

pub proof fn lemma_pair_lt_irreflexive(a: (Seq<char>, Seq<char>))
    ensures
        !pair_lt(a, a),
{
    lemma_seq_lt_irreflexive(a.0);
    lemma_seq_lt_irreflexive(a.1);
}

pub proof fn lemma_pair_lt_transitive(
    a: (Seq<char>, Seq<char>),
    b: (Seq<char>, Seq<char>),
    c: (Seq<char>, Seq<char>),
)
    requires
        pair_lt(a, b),
        pair_lt(b, c),
    ensures
        pair_lt(a, c),
{
    if seq_lt(a.0, b.0) && seq_lt(b.0, c.0) {
        lemma_seq_lt_transitive(a.0, b.0, c.0);
    }
    if a.0 == b.0 && b.0 == c.0 {
        lemma_seq_lt_irreflexive(a.0);
        lemma_seq_lt_transitive(a.1, b.1, c.1);
    }
}

pub proof fn lemma_pair_lt_total(a: (Seq<char>, Seq<char>), b: (Seq<char>, Seq<char>))
    ensures
        pair_lt(a, b) || a == b || pair_lt(b, a),
{
    lemma_seq_lt_total(a.0, b.0);
    lemma_seq_lt_total(a.1, b.1);
}

/// Two strictly sorted arrangements of the same pairs are the same sequence.
pub proof fn lemma_sorted_pairs_unique(x: Seq<(Seq<char>, Seq<char>)>, y: Seq<(Seq<char>, Seq<char>)>)
    requires
        pairs_strictly_sorted(x),
        pairs_strictly_sorted(y),
        forall|e: (Seq<char>, Seq<char>)| x.contains(e) <==> y.contains(e),
    ensures
        x == y,
    decreases x.len() + y.len(),
{
    if x.len() == 0 {
        if y.len() > 0 {
            assert(y.contains(y[0]));
        }
        assert(x =~= y);
    } else if y.len() == 0 {
        assert(x.contains(x[0]));
    } else {
        assert(x.contains(x[0]));
        assert(y.contains(y[0]));
        let i = choose|i: int| 0 <= i < y.len() && y[i] == x[0];
        let j = choose|j: int| 0 <= j < x.len() && x[j] == y[0];
        if x[0] != y[0] {
            assert(i > 0 && j > 0);
            assert(pair_lt(y[0], y[i]));
            assert(pair_lt(x[0], x[j]));
            lemma_pair_lt_transitive(x[0], y[0], x[0]);
            lemma_pair_lt_irreflexive(x[0]);
        }
        let xs = x.drop_first();
        let ys = y.drop_first();
        assert forall|e: (Seq<char>, Seq<char>)| xs.contains(e) <==> ys.contains(e) by {
            if xs.contains(e) {
                let k = choose|k: int| 0 <= k < xs.len() && xs[k] == e;
                assert(x[k + 1] == e);
                assert(pair_lt(x[0], e));
                lemma_pair_lt_irreflexive(e);
                assert(y.contains(e));
                let m = choose|m: int| 0 <= m < y.len() && y[m] == e;
                assert(m != 0);
                assert(ys[m - 1] == e);
            }
            if ys.contains(e) {
                let k = choose|k: int| 0 <= k < ys.len() && ys[k] == e;
                assert(y[k + 1] == e);
                assert(pair_lt(y[0], e));
                lemma_pair_lt_irreflexive(e);
                assert(x.contains(e));
                let m = choose|m: int| 0 <= m < x.len() && x[m] == e;
                assert(m != 0);
                assert(xs[m - 1] == e);
            }
        }
        lemma_sorted_pairs_unique(xs, ys);
        assert(x =~= seq![x[0]] + xs);
        assert(y =~= seq![y[0]] + ys);
    }
}

fn copy_pair(p: &ApproverAuthorityPairV1) -> (r: ApproverAuthorityPairV1)
    ensures
        r@ == p@,
{
    ApproverAuthorityPairV1 {
        approval_class: p.approval_class.clone(),
        authority_ref: p.authority_ref.clone(),
    }
}

fn pair_less(a: &ApproverAuthorityPairV1, b: &ApproverAuthorityPairV1) -> (r: bool)
    ensures
        r == pair_lt(a@, b@),
{
    let ac = chars_of(a.approval_class.as_str());
    let bc = chars_of(b.approval_class.as_str());
    if chars_lt(&ac, &bc) {
        true
    } else if chars_eq(&ac, &bc) {
        chars_lt(&chars_of(a.authority_ref.as_str()), &chars_of(b.authority_ref.as_str()))
    } else {
        false
    }
}

fn approval_text_ok(s: &String) -> (r: bool)
    ensures
        r == approval_text_valid(s@),
{
    !is_blank_text(s.as_str()) && s.as_str().as_bytes().len() <= 255
}

fn approval_refused(detail: &str) -> (r: CharterPromotionWorkflowErrorV1)
    ensures
        r.error_kind() == CharterPromotionWorkflowErrorKindV1::ApprovalRefused,
        r.error_detail() == detail@,
{
    CharterPromotionWorkflowErrorV1::new(CharterPromotionWorkflowErrorKindV1::ApprovalRefused, detail)
}

/// `out` is a normalization of `pairs`: the same pairs, as many, in strictly increasing order.
pub open spec fn normalizes(out: Seq<(Seq<char>, Seq<char>)>, pairs: Seq<(Seq<char>, Seq<char>)>) -> bool {
    &&& pairs_strictly_sorted(out)
    &&& out.len() == pairs.len()
    &&& forall|e: (Seq<char>, Seq<char>)| #[trigger] out.contains(e) <==> pairs.contains(e)
}

proof fn lemma_sorted_same_pairs_equal(a: Seq<(Seq<char>, Seq<char>)>, b: Seq<(Seq<char>, Seq<char>)>)
    requires
        pairs_strictly_sorted(a),
        pairs_strictly_sorted(b),
        a.len() == b.len(),
        forall|e: (Seq<char>, Seq<char>)| #[trigger] a.contains(e) <==> b.contains(e),
    ensures
        a == b,
    decreases a.len(),
{
    if a.len() > 0 {
        assert(a.contains(a[0]));
        assert(b.contains(b[0]));
        if a[0] != b[0] {
            assert(a.contains(b[0]));
            assert(b.contains(a[0]));
            let j = choose|j: int| 0 <= j < a.len() && a[j] == b[0];
            let i = choose|i: int| 0 <= i < b.len() && b[i] == a[0];
            assert(j != 0 && i != 0);
            assert(pair_lt(a[0], a[j]));
            assert(pair_lt(b[0], b[i]));
            lemma_pair_lt_transitive(a[0], b[0], a[0]);
            lemma_pair_lt_irreflexive(a[0]);
        }
        let ta = a.drop_first();
        let tb = b.drop_first();
        assert forall|e: (Seq<char>, Seq<char>)| #[trigger] ta.contains(e) <==> tb.contains(e) by {
            if ta.contains(e) {
                let k = choose|k: int| 0 <= k < ta.len() && ta[k] == e;
                assert(a[k + 1] == e);
                assert(pair_lt(a[0], a[k + 1]));
                lemma_pair_lt_irreflexive(e);
                assert(a.contains(e));
                assert(b.contains(e));
                let m = choose|m: int| 0 <= m < b.len() && b[m] == e;
                assert(m != 0);
                assert(tb[m - 1] == e);
            }
            if tb.contains(e) {
                let k = choose|k: int| 0 <= k < tb.len() && tb[k] == e;
                assert(b[k + 1] == e);
                assert(pair_lt(b[0], b[k + 1]));
                lemma_pair_lt_irreflexive(e);
                assert(b.contains(e));
                assert(a.contains(e));
                let m = choose|m: int| 0 <= m < a.len() && a[m] == e;
                assert(m != 0);
                assert(ta[m - 1] == e);
            }
        }
        assert forall|x: int, y: int| 0 <= x < y < ta.len() implies pair_lt(#[trigger] ta[x], #[trigger] ta[y]) by {
            assert(ta[x] == a[x + 1] && ta[y] == a[y + 1]);
        }
        assert forall|x: int, y: int| 0 <= x < y < tb.len() implies pair_lt(#[trigger] tb[x], #[trigger] tb[y]) by {
            assert(tb[x] == b[x + 1] && tb[y] == b[y + 1]);
        }
        lemma_sorted_same_pairs_equal(ta, tb);
        assert(a =~= seq![a[0]] + ta);
        assert(b =~= seq![b[0]] + tb);
    }
}

/// Normalizing required approval pairs is idempotent: a normalization of an accepted set is
/// itself accepted, and normalizing it again gives it back unchanged.
pub proof fn lemma_normalization_idempotent(
    pairs: Seq<(Seq<char>, Seq<char>)>,
    out: Seq<(Seq<char>, Seq<char>)>,
    again: Seq<(Seq<char>, Seq<char>)>,
)
    requires
        approval_pairs_error(pairs) is None,
        normalizes(out, pairs),
        normalizes(again, out),
    ensures
        approval_pairs_error(out) is None,
        again == out,
{
    assert forall|i: int| 0 <= i < out.len() implies approval_pair_valid(#[trigger] out[i]) by {
        assert(out.contains(out[i]));
        let k = choose|k: int| 0 <= k < pairs.len() && pairs[k] == out[i];
    }
    assert forall|i: int, j: int| 0 <= i < j < out.len() implies #[trigger] out[i] != #[trigger] out[j] by {
        assert(pair_lt(out[i], out[j]));
        lemma_pair_lt_irreflexive(out[i]);
    }
    lemma_sorted_same_pairs_equal(again, out);
}

/// Checks a set of required approval pairs and puts it in its one canonical order.
pub fn normalize_required_approval_pairs(pairs: Vec<ApproverAuthorityPairV1>) -> (r: Result<
    Vec<ApproverAuthorityPairV1>,
    CharterPromotionWorkflowErrorV1,
>)
    ensures
        r is Err <==> approval_pairs_error(pair_views(pairs@)) is Some,
        r matches Err(e) ==> e.error_kind() == CharterPromotionWorkflowErrorKindV1::ApprovalRefused
            && approval_pairs_error(pair_views(pairs@)) == Some(e.error_detail()),
        r matches Ok(v) ==> {
            &&& pairs_strictly_sorted(pair_views(v@))
            &&& v@.len() == pairs@.len()
            &&& forall|e: (Seq<char>, Seq<char>)| #[trigger] pair_views(v@).contains(e)
                <==> pair_views(pairs@).contains(e)
        },
{
    let ghost pv = pair_views(pairs@);
    let n = pairs.len();
    if n == 0 || n > MAX_APPROVAL_REFS {
        return Err(approval_refused("required approval pair set must contain 1-64 entries"));
    }
    let mut i: usize = 0;
    while i < n
        invariant
            n == pairs.len(),
            0 < n <= MAX_APPROVAL_REFS,
            pv == pair_views(pairs@),
            i <= n,
            forall|k: int| 0 <= k < i ==> approval_pair_valid(#[trigger] pv[k]),
        decreases n - i,
    {
        if !approval_text_ok(&pairs[i].approval_class) || !approval_text_ok(
            &pairs[i].authority_ref,
        ) {
            assert(!approval_pair_valid(pv[i as int]));
            return Err(
                approval_refused(
                    "approval class and authority ref must be bounded non-empty strings",
                ),
            );
        }
        i = i + 1;
    }
    assert(!exists|k: int| 0 <= k < pv.len() && !approval_pair_valid(#[trigger] pv[k]));
    let mut sorted: Vec<ApproverAuthorityPairV1> = Vec::new();
    let mut i: usize = 0;
    while i < n
        invariant
            n == pairs.len(),
            0 < n <= MAX_APPROVAL_REFS,
            pv == pair_views(pairs@),
            forall|k: int| 0 <= k < n ==> approval_pair_valid(#[trigger] pv[k]),
            i <= n,
            sorted.len() == i,
            pairs_strictly_sorted(pair_views(sorted@)),
            forall|k: int| 0 <= k < i ==> pair_views(sorted@).contains(#[trigger] pv[k]),
            forall|m: int|
                0 <= m < sorted.len() ==> exists|k: int|
                    0 <= k < i && #[trigger] pair_views(sorted@)[m] == pv[k],
            forall|a: int, b: int| 0 <= a < b < i ==> #[trigger] pv[a] != #[trigger] pv[b],
        decreases n - i,
    {
        let x = copy_pair(&pairs[i]);
        let ghost sv = pair_views(sorted@);
        let mut k: usize = 0;
        let mut done = false;
        while !done
            invariant
                sv == pair_views(sorted@),
                sorted.len() == i,
                i < n,
                n == pairs.len(),
                pv == pair_views(pairs@),
                k <= sorted.len(),
                x@ == pv[i as int],
                forall|m: int| 0 <= m < k ==> pair_lt(#[trigger] sv[m], x@),
                done ==> k == sorted.len() || !pair_lt(sv[k as int], x@),
            decreases sorted.len() - k + (if done { 0int } else { 1int }),
        {
            if k == sorted.len() || !pair_less(&sorted[k], &x) {
                done = true;
            } else {
                k = k + 1;
            }
        }
        if k < sorted.len() && sorted[k].approval_class == x.approval_class
            && sorted[k].authority_ref == x.authority_ref {
            proof {
                assert(sv[k as int] == x@);
                let kk = choose|kk: int| 0 <= kk < i && sv[k as int] == pv[kk];
                assert(pv[kk] == pv[i as int]);
                assert(!pairs_distinct(pv));
            }
            return Err(approval_refused("required approval authority pairs must be unique"));
        }
        proof {
            if k < sorted.len() {
                assert(!pair_lt(sv[k as int], x@));
                lemma_pair_lt_total(sv[k as int], x@);
                assert(pair_lt(x@, sv[k as int]));
                assert forall|m: int| k < m < sv.len() implies pair_lt(x@, #[trigger] sv[m]) by {
                    lemma_pair_lt_transitive(x@, sv[k as int], sv[m]);
                }
            }
            assert forall|m: int| 0 <= m < sv.len() implies #[trigger] sv[m] != x@ by {
                if m < k {
                    lemma_pair_lt_irreflexive(x@);
                } else if m > k {
                    lemma_pair_lt_irreflexive(x@);
                }
            }
            assert forall|kk: int| 0 <= kk < i implies #[trigger] pv[kk] != pv[i as int] by {
                assert(sv.contains(pv[kk]));
            }
        }
        sorted.insert(k, x);
        proof {
            let nv = pair_views(sorted@);
            assert(nv =~= sv.insert(k as int, pv[i as int]));
            assert forall|a: int, b: int| 0 <= a < b < nv.len() implies pair_lt(
                #[trigger] nv[a],
                #[trigger] nv[b],
            ) by {
                if b < k {
                } else if a < k && b == k {
                } else if a < k && b > k {
                    assert(nv[b] == sv[b - 1]);
                } else if a == k {
                    assert(nv[b] == sv[b - 1]);
                } else {
                    assert(nv[a] == sv[a - 1]);
                    assert(nv[b] == sv[b - 1]);
                }
            }
            assert forall|kk: int| 0 <= kk < i + 1 implies nv.contains(#[trigger] pv[kk]) by {
                if kk == i {
                    assert(nv[k as int] == pv[kk]);
                } else {
                    let m = choose|m: int| 0 <= m < sv.len() && sv[m] == pv[kk];
                    if m < k {
                        assert(nv[m] == pv[kk]);
                    } else {
                        assert(nv[m + 1] == pv[kk]);
                    }
                }
            }
            assert forall|m: int| 0 <= m < nv.len() implies exists|kk: int|
                0 <= kk < i + 1 && #[trigger] nv[m] == pv[kk] by {
                if m < k {
                    let kk = choose|kk: int| 0 <= kk < i && sv[m] == pv[kk];
                    assert(nv[m] == pv[kk]);
                } else if m == k {
                    assert(nv[m] == pv[i as int]);
                } else {
                    let kk = choose|kk: int| 0 <= kk < i && sv[m - 1] == pv[kk];
                    assert(nv[m] == pv[kk]);
                }
            }
        }
        i = i + 1;
    }
    proof {
        let sv = pair_views(sorted@);
        assert forall|e: (Seq<char>, Seq<char>)| #[trigger] sv.contains(e) <==> pv.contains(e) by {
            if sv.contains(e) {
                let m = choose|m: int| 0 <= m < sv.len() && sv[m] == e;
                let kk = choose|kk: int| 0 <= kk < n && sv[m] == pv[kk];
                assert(pv[kk] == e);
            }
            if pv.contains(e) {
                let kk = choose|kk: int| 0 <= kk < pv.len() && pv[kk] == e;
                assert(sv.contains(pv[kk]));
            }
        }
    }
    Ok(sorted)
}

// ---------------------------------------------------------------------------
// Intent and product projection
// ---------------------------------------------------------------------------

/// A promotion intent names a bounded, non-empty candidate and approval anchor.
pub open spec fn promotion_intent_valid(candidate_ref: Seq<char>, approval_ref: Seq<char>) -> bool {
    &&& candidate_ref.len() > 0
    &&& encode_utf8(candidate_ref).len() <= MAX_LINEAGE_REFERENCE_BYTES
    &&& approval_ref.len() > 0
    &&& encode_utf8(approval_ref).len() <= MAX_LINEAGE_REFERENCE_BYTES
}

/// Refuses an intent whose candidate or approval anchor reference is empty or too long.
pub fn validate_promotion_intent(intent: &CharterPromotionIntentV1) -> (r: Result<
    (),
    CharterPromotionWorkflowErrorV1,
>)
    ensures
        r is Ok <==> promotion_intent_valid(intent.candidate_ref@, intent.approval_ref@),
        r matches Err(e) ==> e.error_kind() == CharterPromotionWorkflowErrorKindV1::InvalidIntent
            && e.error_detail() == "promotion candidate or approval anchor ref is invalid"@,
{
    if intent.candidate_ref.as_str().is_empty() || intent.candidate_ref.as_str().as_bytes().len()
        > MAX_LINEAGE_REFERENCE_BYTES || intent.approval_ref.as_str().is_empty()
        || intent.approval_ref.as_str().as_bytes().len() > MAX_LINEAGE_REFERENCE_BYTES {
        return Err(
            CharterPromotionWorkflowErrorV1::new(
                CharterPromotionWorkflowErrorKindV1::InvalidIntent,
                "promotion candidate or approval anchor ref is invalid",
            ),
        );
    }
    Ok(())
}

/// The fingerprint named by an exact content-addressed product ref
/// `<partition><id_prefix><64 hex>.json`, if `reference` is one.
pub open spec fn exact_ref_fingerprint(
    reference: Seq<char>,
    partition: Seq<char>,
    id_prefix: Seq<char>,
) -> Option<Seq<char>> {
    let rest = reference.skip(partition.len() as int);
    let stem = rest.take(rest.len() - ".json"@.len());
    let hex = stem.skip(id_prefix.len() as int);
    if has_prefix(reference, partition) && has_suffix(rest, ".json"@) && has_prefix(stem, id_prefix)
        && is_lower_sha256_hex(hex) {
        Some(sha256_prefix() + hex)
    } else {
        None
    }
}

fn exact_product_ref_fingerprint(reference: &str, partition: &str, id_prefix: &str) -> (r: Option<
    String,
>)
    ensures
        r matches Some(f) ==> exact_ref_fingerprint(reference@, partition@, id_prefix@) == Some(
            f@,
        ),
        r is None ==> exact_ref_fingerprint(reference@, partition@, id_prefix@) is None,
{
    let v = chars_of(reference);
    let p = chars_of(partition);
    if !starts_with(&v, &p) {
        return None;
    }
    let rest = slice_chars(&v, p.len(), v.len());
    assert(rest@ =~= reference@.skip(partition@.len() as int));
    let suffix = chars_of(".json");
    if !ends_with(&rest, &suffix) {
        return None;
    }
    let stem = slice_chars(&rest, 0, rest.len() - suffix.len());
    assert(stem@ =~= rest@.take(rest@.len() - ".json"@.len()));
    let q = chars_of(id_prefix);
    if !starts_with(&stem, &q) {
        return None;
    }
    let hex = slice_chars(&stem, q.len(), stem.len());
    assert(hex@ =~= stem@.skip(id_prefix@.len() as int));
    if !sha256_hex_text(&hex) {
        return None;
    }
    let mut out = chars_of("sha256:");
    proof {
        lemma_sha256_prefix();
    }
    let mut h = hex;
    out.append(&mut h);
    Some(string_of(&out))
}

fn state_path(reference: &String) -> (r: String)
    ensures
        r@ == ".handbook/state/"@ + reference@,
{
    let mut out = chars_of(".handbook/state/");
    let mut tail = chars_of(reference.as_str());
    out.append(&mut tail);
    string_of(&out)
}

impl CharterPromotionWorkflowCommitV1 {
    /// Why a committed workflow cannot be projected for the product, if it cannot.
    pub open spec fn projection_error(&self) -> Option<CharterPromotionProductProjectionErrorKindV1> {
        if !is_fingerprint(self.canonical_fingerprint@) {
            Some(CharterPromotionProductProjectionErrorKindV1::InvalidCanonicalFingerprint)
        } else if self.promotion_ref@ != self.transaction.promotion_ref@
            || self.lifecycle_transition_ref@ != self.transaction.lifecycle_transition_ref@ {
            Some(CharterPromotionProductProjectionErrorKindV1::InconsistentCommit)
        } else if exact_ref_fingerprint(self.promotion_ref@, "promotions/"@, "promotion_"@) is None {
            Some(CharterPromotionProductProjectionErrorKindV1::InvalidPromotionRef)
        } else if exact_ref_fingerprint(
            self.lifecycle_transition_ref@,
            "lifecycle-transitions/"@,
            "lifecycle-transition_"@,
        ) is None {
            Some(CharterPromotionProductProjectionErrorKindV1::InvalidLifecycleTransitionRef)
        } else {
            None
        }
    }

    /// The text that explains a product projection refusal of the given kind.
    pub open spec fn projection_error_detail(kind: CharterPromotionProductProjectionErrorKindV1) -> Seq<char> {
        match kind {
            CharterPromotionProductProjectionErrorKindV1::InvalidCanonicalFingerprint => "canonical fingerprint is not an exact lowercase SHA-256 fingerprint"@,
            CharterPromotionProductProjectionErrorKindV1::InconsistentCommit => "workflow and retained transaction refs disagree"@,
            CharterPromotionProductProjectionErrorKindV1::InvalidPromotionRef => "promotion ref is not an exact content-addressed promotion ref"@,
            CharterPromotionProductProjectionErrorKindV1::InvalidLifecycleTransitionRef => "lifecycle transition ref is not an exact content-addressed lifecycle transition ref"@,
        }
    }

    /// The product projection of a committed promotion: the canonical path, the
    /// promotion's fingerprint, and the three paths that the promotion changed.
    pub fn product_projection(&self) -> (r: Result<
        CharterPromotionProductProjectionV1,
        CharterPromotionProductProjectionErrorV1,
    >)
        ensures
            r is Err <==> self.projection_error() is Some,
            r matches Err(e) ==> Some(e.error_kind()) == self.projection_error(),
            r matches Err(e) ==> e.error_detail() == Self::projection_error_detail(e.error_kind()),
            r matches Ok(p) ==> {
                &&& p.canonical_path@ == CANONICAL_REF@
                &&& p.canonical_fingerprint@ == self.canonical_fingerprint@
                &&& p.promotion_ref@ == self.promotion_ref@
                &&& Some(p.promotion_fingerprint@) == exact_ref_fingerprint(
                    self.promotion_ref@,
                    "promotions/"@,
                    "promotion_"@,
                )
                &&& texts_of(p.changed_paths@) == seq![
                    CANONICAL_REF@,
                    ".handbook/state/"@ + self.promotion_ref@,
                    ".handbook/state/"@ + self.lifecycle_transition_ref@,
                ]
                &&& texts_of(p.next_actions@) == seq![
                    "retain the committed promotion reference"@,
                ]
            },
    {
        if !is_fingerprint_chars(&chars_of(self.canonical_fingerprint.as_str())) {
            return Err(
                CharterPromotionProductProjectionErrorV1::new(
                    CharterPromotionProductProjectionErrorKindV1::InvalidCanonicalFingerprint,
                    "canonical fingerprint is not an exact lowercase SHA-256 fingerprint",
                ),
            );
        }
        if self.promotion_ref != self.transaction.promotion_ref || self.lifecycle_transition_ref
            != self.transaction.lifecycle_transition_ref {
            return Err(
                CharterPromotionProductProjectionErrorV1::new(
                    CharterPromotionProductProjectionErrorKindV1::InconsistentCommit,
                    "workflow and retained transaction refs disagree",
                ),
            );
        }
        let promotion_fingerprint = match exact_product_ref_fingerprint(
            self.promotion_ref.as_str(),
            "promotions/",
            "promotion_",
        ) {
            Some(f) => f,
            None => {
                return Err(
                    CharterPromotionProductProjectionErrorV1::new(
                        CharterPromotionProductProjectionErrorKindV1::InvalidPromotionRef,
                        "promotion ref is not an exact content-addressed promotion ref",
                    ),
                );
            },
        };
        if exact_product_ref_fingerprint(
            self.lifecycle_transition_ref.as_str(),
            "lifecycle-transitions/",
            "lifecycle-transition_",
        ).is_none() {
            return Err(
                CharterPromotionProductProjectionErrorV1::new(
                    CharterPromotionProductProjectionErrorKindV1::InvalidLifecycleTransitionRef,
                    "lifecycle transition ref is not an exact content-addressed lifecycle transition ref",
                ),
            );
        }
        let mut changed_paths: Vec<String> = Vec::new();
        changed_paths.push(CANONICAL_REF.to_owned());
        changed_paths.push(state_path(&self.promotion_ref));
        changed_paths.push(state_path(&self.lifecycle_transition_ref));
        assert(texts_of(changed_paths@) =~= seq![
            CANONICAL_REF@,
            ".handbook/state/"@ + self.promotion_ref@,
            ".handbook/state/"@ + self.lifecycle_transition_ref@,
        ]);
        Ok(
            CharterPromotionProductProjectionV1 {
                canonical_path: CANONICAL_REF.to_owned(),
                canonical_fingerprint: self.canonical_fingerprint.clone(),
                promotion_ref: self.promotion_ref.clone(),
                promotion_fingerprint,
                changed_paths,
                next_actions: single_text("retain the committed promotion reference"),
            },
        )
    }
}


// ---------------------------------------------------------------------------
// Lifecycle clearance of a promotion
// ---------------------------------------------------------------------------

/// A promotion clears the committed lifecycle head: a head without active observations needs
/// nothing; otherwise the promoted bytes must differ from the committed ones, the intake must
/// have settled every reopened coverage ID, and the promotion must address every active
/// observation and exactly the reopened coverage.
pub open spec fn clearance_ok(
    l: CharterLifecycleAuthorityV1,
    coverage: Seq<CharterCoverageResult>,
    new_canonical_fingerprint: Seq<char>,
    current_canonical_fingerprint: Seq<char>,
) -> bool {
    l.active_observations@.len() == 0 || {
        &&& new_canonical_fingerprint != current_canonical_fingerprint
        &&& forall|k: int|
            0 <= k < l.reopened_coverage_ids@.len() ==> coverage_settled(
                coverage,
                (#[trigger] l.reopened_coverage_ids@[k])@,
            )
        &&& clearance_complete(
            observation_views(l.active_observations@),
            observation_fingerprints(observation_views(l.active_observations@)),
            string_views(l.reopened_coverage_ids@),
        )
    }
}

fn clearance_error(detail: &str) -> (r: CharterPromotionWorkflowErrorV1)
    ensures
        r.error_kind() == CharterPromotionWorkflowErrorKindV1::LifecycleClearanceIncomplete,
{
    CharterPromotionWorkflowErrorV1::new(CharterPromotionWorkflowErrorKindV1::LifecycleClearanceIncomplete, detail)
}

/// Checks that a promotion to `new_canonical_fingerprint` clears the committed lifecycle head,
/// against the coverage of the candidate's intake.
pub fn validate_lifecycle_clearance(
    lifecycle: &CharterLifecycleAuthorityV1,
    intake_coverage: &Vec<CharterCoverageResult>,
    new_canonical_fingerprint: &str,
    current_canonical_fingerprint: &str,
) -> (r: Result<(), CharterPromotionWorkflowErrorV1>)
    ensures
        r is Ok <==> clearance_ok(
            *lifecycle,
            intake_coverage@,
            new_canonical_fingerprint@,
            current_canonical_fingerprint@,
        ),
        r matches Err(e) ==> e.error_kind() == CharterPromotionWorkflowErrorKindV1::LifecycleClearanceIncomplete,
{
    if lifecycle.active_observations.len() == 0 {
        return Ok(());
    }
    if chars_eq(&chars_of(new_canonical_fingerprint), &chars_of(current_canonical_fingerprint)) {
        return Err(clearance_error("active lifecycle observations require changed approved Charter bytes"));
    }
    let ids = &lifecycle.reopened_coverage_ids;
    let mut i: usize = 0;
    while i < ids.len()
        invariant
            ids@ == lifecycle.reopened_coverage_ids@,
            lifecycle.active_observations@.len() > 0,
            i <= ids.len(),
            forall|k: int| 0 <= k < i ==> coverage_settled(intake_coverage@, (#[trigger] ids@[k])@),
        decreases ids.len() - i,
    {
        if !coverage_settled_check(intake_coverage, &ids[i]) {
            assert(!coverage_settled(intake_coverage@, lifecycle.reopened_coverage_ids@[i as int]@));
            return Err(
                clearance_error("candidate intake did not reevaluate every reopened lifecycle coverage ID"),
            );
        }
        i = i + 1;
    }
    let active = &lifecycle.active_observations;
    let ghost av = observation_views(active@);
    let mut addressed: Vec<String> = Vec::new();
    let mut j: usize = 0;
    while j < active.len()
        invariant
            active@ == lifecycle.active_observations@,
            av == observation_views(active@),
            j <= active.len(),
            string_views(addressed@) == observation_fingerprints(av).take(j as int),
        decreases active.len() - j,
    {
        let ghost before = string_views(addressed@);
        addressed.push(active[j].event_fingerprint.clone());
        assert(string_views(addressed@) =~= before.push(av[j as int].event_fingerprint));
        assert(string_views(addressed@) =~= observation_fingerprints(av).take(j + 1));
        j = j + 1;
    }
    assert(observation_fingerprints(av).take(active.len() as int) =~= observation_fingerprints(av));
    match address_charter_lifecycle(active.as_slice(), addressed.as_slice(), ids.as_slice()) {
        Ok(_) => Ok(()),
        Err(e) => Err(clearance_error(e.detail())),
    }
}

/// The lifecycle state a promotion starts from: the initial current state where neither the
/// canonical Charter nor its lifecycle exists, or the committed head's state where both exist
/// for the same canonical fingerprint and the promotion clears the head.
pub open spec fn promotion_prior_state_ok(
    current_fingerprint: Option<Seq<char>>,
    lifecycle: Option<CharterLifecycleAuthorityV1>,
    coverage: Seq<CharterCoverageResult>,
    new_canonical_fingerprint: Seq<char>,
) -> bool {
    match (current_fingerprint, lifecycle) {
        (None, None) => true,
        (Some(c), Some(l)) => l.canonical_fingerprint@ == c && clearance_ok(l, coverage, new_canonical_fingerprint, c),
        _ => false,
    }
}

/// Where a promotion starts in the lifecycle.
#[derive(Clone, Debug, PartialEq, Eq)]
pub enum PromotionPriorStateV1 {
    Initial,
    Retained { state: CharterLifecycleState, state_fingerprint: String },
}

/// Decides the lifecycle state a promotion to `new_canonical_fingerprint` starts from.
pub fn promotion_prior_state(
    current_fingerprint: Option<&str>,
    lifecycle: &Option<CharterLifecycleAuthorityV1>,
    intake_coverage: &Vec<CharterCoverageResult>,
    new_canonical_fingerprint: &str,
) -> (r: Result<PromotionPriorStateV1, CharterPromotionWorkflowErrorV1>)
    ensures
        r is Ok <==> promotion_prior_state_ok(
            match current_fingerprint {
                Some(c) => Some(c@),
                None => None,
            },
            *lifecycle,
            intake_coverage@,
            new_canonical_fingerprint@,
        ),
        r matches Ok(PromotionPriorStateV1::Initial) ==> current_fingerprint is None,
        r matches Ok(PromotionPriorStateV1::Retained { state, state_fingerprint }) ==> lifecycle matches Some(
            l,
        ) && state == l.state && state_fingerprint@ == l.state_fingerprint@,
        r matches Err(e) ==> e.error_kind() == CharterPromotionWorkflowErrorKindV1::LifecycleClearanceIncomplete,
{
    match (current_fingerprint, lifecycle) {
        (None, None) => Ok(PromotionPriorStateV1::Initial),
        (Some(c), Some(l)) => {
            if !chars_eq(&chars_of(l.canonical_fingerprint.as_str()), &chars_of(c)) {
                return Err(clearance_error("canonical and lifecycle authority observations are inconsistent"));
            }
            match validate_lifecycle_clearance(l, intake_coverage, new_canonical_fingerprint, c) {
                Ok(()) => {},
                Err(e) => {
                    return Err(e);
                },
            }
            Ok(PromotionPriorStateV1::Retained { state: l.state, state_fingerprint: l.state_fingerprint.clone() })
        },
        _ => Err(clearance_error("canonical and lifecycle authority observations are inconsistent")),
    }
}


// ---------------------------------------------------------------------------
// The promotion record
// ---------------------------------------------------------------------------

/// A definition that a promotion record pins, by reference and fingerprint.
#[derive(Clone, Debug, PartialEq, Eq)]
pub struct PromotionDefinitionPinV1 {
    pub definition_ref: String,
    pub definition_fingerprint: String,
}

/// An artifact promotion record, version 1.1.
#[derive(Clone, Debug, PartialEq, Eq)]
pub struct PromotionRecordV11 {
    pub schema_id: String,
    pub schema_version: String,
    pub promotion_id: String,
    pub candidate_ref: String,
    pub candidate_fingerprint: String,
    pub target_instance_id: String,
    pub basis_artifact_fingerprint: Option<String>,
    pub expected_current_artifact_fingerprint: Option<String>,
    pub profile_ref: String,
    pub resolved_profile_fingerprint: String,
    pub resolved_definitions: Vec<PromotionDefinitionPinV1>,
    pub approval_refs: Vec<String>,
    pub validation_result_refs: Vec<String>,
    pub decision: String,
    pub authorized_by_ref: String,
    pub canonical_artifact_ref: String,
    pub canonical_artifact_fingerprint: String,
    pub approver_registry_state_ref: String,
    pub approver_registry_state_fingerprint: String,
    pub registry_head_transition_ref: String,
    pub registry_head_transition_fingerprint: String,
    pub promotion_fingerprint: String,
}

/// What a promotion record binds: the candidate, the expected current Charter, the ordered
/// approvals, the retained validation result, the authority that authorized it, the new
/// canonical fingerprint and the approver registry it was checked against.
#[derive(Clone, Debug, PartialEq, Eq)]
pub struct PromotionRecordInputsV1 {
    pub candidate_ref: String,
    pub candidate_fingerprint: String,
    pub expected_current_fingerprint: Option<String>,
    pub approval_refs: Vec<String>,
    pub validation_result_ref: String,
    pub authorized_by_ref: String,
    pub canonical_fingerprint: String,
    pub registry_state_ref: String,
    pub registry_state_fingerprint: String,
    pub registry_head_ref: String,
    pub registry_head_fingerprint: String,
}

pub open spec fn pin_json(p: PromotionDefinitionPinV1) -> Seq<char> {
    json_object(
        seq![
            json_member("definition_ref"@, json_string(p.definition_ref@)),
            json_member("definition_fingerprint"@, json_string(p.definition_fingerprint@)),
        ],
    )
}

pub open spec fn opt_string_view(o: Option<String>) -> Option<Seq<char>> {
    match o {
        Some(s) => Some(s@),
        None => None,
    }
}

/// The members of a promotion record that its fingerprint covers: all but its ID and
/// fingerprint.
pub open spec fn promotion_preimage_members(r: PromotionRecordV11) -> Seq<Seq<char>> {
    seq![
        json_member("schema_id"@, json_string(r.schema_id@)),
        json_member("schema_version"@, json_string(r.schema_version@)),
        json_member("candidate_ref"@, json_string(r.candidate_ref@)),
        json_member("candidate_fingerprint"@, json_string(r.candidate_fingerprint@)),
        json_member("target_instance_id"@, json_string(r.target_instance_id@)),
        json_member("basis_artifact_fingerprint"@, json_opt_string(opt_string_view(r.basis_artifact_fingerprint))),
        json_member(
            "expected_current_artifact_fingerprint"@,
            json_opt_string(opt_string_view(r.expected_current_artifact_fingerprint)),
        ),
        json_member("profile_ref"@, json_string(r.profile_ref@)),
        json_member("resolved_profile_fingerprint"@, json_string(r.resolved_profile_fingerprint@)),
        json_member(
            "resolved_definitions"@,
            json_array(r.resolved_definitions@.map_values(|p: PromotionDefinitionPinV1| pin_json(p))),
        ),
        json_member("approval_refs"@, json_string_array(string_views(r.approval_refs@))),
        json_member("validation_result_refs"@, json_string_array(string_views(r.validation_result_refs@))),
        json_member("decision"@, json_string(r.decision@)),
        json_member("authorized_by_ref"@, json_string(r.authorized_by_ref@)),
        json_member("canonical_artifact_ref"@, json_string(r.canonical_artifact_ref@)),
        json_member("canonical_artifact_fingerprint"@, json_string(r.canonical_artifact_fingerprint@)),
        json_member("approver_registry_state_ref"@, json_string(r.approver_registry_state_ref@)),
        json_member(
            "approver_registry_state_fingerprint"@,
            json_string(r.approver_registry_state_fingerprint@),
        ),
        json_member("registry_head_transition_ref"@, json_string(r.registry_head_transition_ref@)),
        json_member(
            "registry_head_transition_fingerprint"@,
            json_string(r.registry_head_transition_fingerprint@),
        ),
    ]
}

pub open spec fn promotion_preimage_json(r: PromotionRecordV11) -> Seq<char> {
    json_object(promotion_preimage_members(r))
}

/// The complete JSON of a promotion record.
pub open spec fn promotion_record_json(r: PromotionRecordV11) -> Seq<char> {
    json_object(
        promotion_preimage_members(r) + seq![
            json_member("promotion_id"@, json_string(r.promotion_id@)),
            json_member("promotion_fingerprint"@, json_string(r.promotion_fingerprint@)),
        ],
    )
}

/// The definitions that a promotion pins: the references and fingerprints of the frozen
/// lifecycle-result closure, in its order.
pub open spec fn pinned_definitions() -> Seq<(Seq<char>, Seq<char>)> {
    definition_binding_table().map_values(|b: (Seq<char>, Seq<char>, Seq<char>)| (b.1, b.2))
}

/// Every member of a promotion record's preimage, as built from its inputs.
pub open spec fn promotion_built_from(r: PromotionRecordV11, i: PromotionRecordInputsV1) -> bool {
    &&& r.schema_id@ == "handbook.artifact-promotion-record"@
    &&& r.schema_version@ == "1.1"@
    &&& r.candidate_ref@ == i.candidate_ref@
    &&& r.candidate_fingerprint@ == i.candidate_fingerprint@
    &&& r.target_instance_id@ == "project_authority"@
    &&& opt_string_view(r.basis_artifact_fingerprint) == opt_string_view(i.expected_current_fingerprint)
    &&& opt_string_view(r.expected_current_artifact_fingerprint) == opt_string_view(
        i.expected_current_fingerprint,
    )
    &&& r.profile_ref@ == SELECTED_PROFILE_REF@
    &&& r.resolved_profile_fingerprint@ == SELECTED_PROFILE_FINGERPRINT@
    &&& r.resolved_definitions@.map_values(
        |p: PromotionDefinitionPinV1| (p.definition_ref@, p.definition_fingerprint@),
    ) == pinned_definitions()
    &&& string_views(r.approval_refs@) == string_views(i.approval_refs@)
    &&& string_views(r.validation_result_refs@) == seq![i.validation_result_ref@]
    &&& r.decision@ == "approved"@
    &&& r.authorized_by_ref@ == i.authorized_by_ref@
    &&& r.canonical_artifact_ref@ == CANONICAL_REF@
    &&& r.canonical_artifact_fingerprint@ == i.canonical_fingerprint@
    &&& r.approver_registry_state_ref@ == i.registry_state_ref@
    &&& r.approver_registry_state_fingerprint@ == i.registry_state_fingerprint@
    &&& r.registry_head_transition_ref@ == i.registry_head_ref@
    &&& r.registry_head_transition_fingerprint@ == i.registry_head_fingerprint@
}

/// The ID of a promotion with the given fingerprint.
pub open spec fn promotion_id_of(fingerprint: Seq<char>) -> Seq<char> {
    "promotion_"@ + crate::digest::fingerprint_hex(fingerprint)
}

fn pins_text(v: &Vec<PromotionDefinitionPinV1>) -> (r: Vec<char>)
    ensures
        r@ == json_array(v@.map_values(|p: PromotionDefinitionPinV1| pin_json(p))),
{
    let mut items: Vec<Vec<char>> = Vec::new();
    let mut i: usize = 0;
    while i < v.len()
        invariant
            i <= v.len(),
            views(items@) == v@.map_values(|p: PromotionDefinitionPinV1| pin_json(p)).take(i as int),
        decreases v.len() - i,
    {
        let mut m: Vec<Vec<char>> = Vec::new();
        m.push(member_text("definition_ref", json_str(v[i].definition_ref.as_str())));
        m.push(member_text("definition_fingerprint", json_str(v[i].definition_fingerprint.as_str())));
        assert(views(m@) =~= seq![
            json_member("definition_ref"@, json_string(v@[i as int].definition_ref@)),
            json_member("definition_fingerprint"@, json_string(v@[i as int].definition_fingerprint@)),
        ]);
        let ghost before = views(items@);
        items.push(object_text(&m));
        assert(views(items@) =~= before.push(pin_json(v@[i as int])));
        assert(views(items@) =~= v@.map_values(|p: PromotionDefinitionPinV1| pin_json(p)).take(i + 1));
        i = i + 1;
    }
    assert(v@.map_values(|p: PromotionDefinitionPinV1| pin_json(p)).take(v.len() as int) =~= v@.map_values(
        |p: PromotionDefinitionPinV1| pin_json(p),
    ));
    array_text(&items)
}

fn promotion_member_texts(r: &PromotionRecordV11) -> (m: Vec<Vec<char>>)
    ensures
        views(m@) == promotion_preimage_members(*r),
{
    let mut m: Vec<Vec<char>> = Vec::new();
    m.push(member_text("schema_id", json_str(r.schema_id.as_str())));
    m.push(member_text("schema_version", json_str(r.schema_version.as_str())));
    m.push(member_text("candidate_ref", json_str(r.candidate_ref.as_str())));
    m.push(member_text("candidate_fingerprint", json_str(r.candidate_fingerprint.as_str())));
    m.push(member_text("target_instance_id", json_str(r.target_instance_id.as_str())));
    m.push(member_text("basis_artifact_fingerprint", opt_string_text(&r.basis_artifact_fingerprint)));
    m.push(
        member_text(
            "expected_current_artifact_fingerprint",
            opt_string_text(&r.expected_current_artifact_fingerprint),
        ),
    );
    m.push(member_text("profile_ref", json_str(r.profile_ref.as_str())));
    m.push(member_text("resolved_profile_fingerprint", json_str(r.resolved_profile_fingerprint.as_str())));
    m.push(member_text("resolved_definitions", pins_text(&r.resolved_definitions)));
    m.push(member_text("approval_refs", string_array_text(&r.approval_refs)));
    m.push(member_text("validation_result_refs", string_array_text(&r.validation_result_refs)));
    m.push(member_text("decision", json_str(r.decision.as_str())));
    m.push(member_text("authorized_by_ref", json_str(r.authorized_by_ref.as_str())));
    m.push(member_text("canonical_artifact_ref", json_str(r.canonical_artifact_ref.as_str())));
    m.push(member_text("canonical_artifact_fingerprint", json_str(r.canonical_artifact_fingerprint.as_str())));
    m.push(member_text("approver_registry_state_ref", json_str(r.approver_registry_state_ref.as_str())));
    m.push(
        member_text(
            "approver_registry_state_fingerprint",
            json_str(r.approver_registry_state_fingerprint.as_str()),
        ),
    );
    m.push(member_text("registry_head_transition_ref", json_str(r.registry_head_transition_ref.as_str())));
    m.push(
        member_text(
            "registry_head_transition_fingerprint",
            json_str(r.registry_head_transition_fingerprint.as_str()),
        ),
    );
    assert(views(m@) =~= promotion_preimage_members(*r));
    m
}

/// The canonical bytes of a promotion record.
pub fn promotion_record_bytes(r: &PromotionRecordV11) -> (b: Option<Vec<u8>>)
    ensures
        b matches Some(v) ==> jcs_bytes(promotion_record_json(*r)) == Some(v@),
        b is None ==> jcs_bytes(promotion_record_json(*r)) is None,
{
    let mut m = promotion_member_texts(r);
    let ghost base = views(m@);
    m.push(member_text("promotion_id", json_str(r.promotion_id.as_str())));
    m.push(member_text("promotion_fingerprint", json_str(r.promotion_fingerprint.as_str())));
    assert(views(m@) =~= base + seq![
        json_member("promotion_id"@, json_string(r.promotion_id@)),
        json_member("promotion_fingerprint"@, json_string(r.promotion_fingerprint@)),
    ]);
    canonical_json_bytes(&object_text(&m))
}

fn copy_texts(v: &Vec<String>) -> (r: Vec<String>)
    ensures
        r@ == v@,
{
    let mut out: Vec<String> = Vec::new();
    let mut i: usize = 0;
    while i < v.len()
        invariant
            i <= v.len(),
            out@ == v@.subrange(0, i as int),
        decreases v.len() - i,
    {
        out.push(v[i].clone());
        assert(out@ =~= v@.subrange(0, i + 1));
        i = i + 1;
    }
    assert(out@ =~= v@);
    out
}

fn pinned_definition_list() -> (r: Vec<PromotionDefinitionPinV1>)
    ensures
        r@.map_values(|p: PromotionDefinitionPinV1| (p.definition_ref@, p.definition_fingerprint@))
            == pinned_definitions(),
{
    let table = definition_bindings();
    let ghost t = definition_binding_table();
    let mut out: Vec<PromotionDefinitionPinV1> = Vec::new();
    let mut i: usize = 0;
    while i < table.len()
        invariant
            table@.map_values(|b: LifecycleDefinitionBindingV10| binding_view(b)) == t,
            t == definition_binding_table(),
            i <= table.len(),
            out@.map_values(|p: PromotionDefinitionPinV1| (p.definition_ref@, p.definition_fingerprint@))
                == pinned_definitions().take(i as int),
        decreases table.len() - i,
    {
        assert(t[i as int] == binding_view(table@[i as int]));
        let ghost before = out@.map_values(|p: PromotionDefinitionPinV1| (p.definition_ref@, p.definition_fingerprint@));
        out.push(
            PromotionDefinitionPinV1 {
                definition_ref: table[i].definition_ref.clone(),
                definition_fingerprint: table[i].definition_fingerprint.clone(),
            },
        );
        assert(out@.map_values(|p: PromotionDefinitionPinV1| (p.definition_ref@, p.definition_fingerprint@))
            =~= before.push((t[i as int].1, t[i as int].2)));
        assert(out@.map_values(|p: PromotionDefinitionPinV1| (p.definition_ref@, p.definition_fingerprint@))
            =~= pinned_definitions().take(i + 1));
        i = i + 1;
    }
    assert(pinned_definitions().take(table.len() as int) =~= pinned_definitions());
    out
}

/// Two promotion records built from the same inputs have the same preimage.
proof fn lemma_promotion_preimage_determined(c: PromotionRecordV11, d: PromotionRecordV11, i: PromotionRecordInputsV1)
    requires
        promotion_built_from(c, i),
        promotion_built_from(d, i),
    ensures
        promotion_preimage_json(c) == promotion_preimage_json(d),
{
    let cm = c.resolved_definitions@.map_values(
        |p: PromotionDefinitionPinV1| (p.definition_ref@, p.definition_fingerprint@),
    );
    let dm = d.resolved_definitions@.map_values(
        |p: PromotionDefinitionPinV1| (p.definition_ref@, p.definition_fingerprint@),
    );
    assert(cm == dm);
    assert(cm.len() == c.resolved_definitions@.len() && dm.len() == d.resolved_definitions@.len());
    assert forall|k: int| 0 <= k < c.resolved_definitions@.len() implies pin_json(
        c.resolved_definitions@[k],
    ) == pin_json(d.resolved_definitions@[k]) by {
        assert(cm[k] == (c.resolved_definitions@[k].definition_ref@, c.resolved_definitions@[k].definition_fingerprint@));
        assert(dm[k] == (d.resolved_definitions@[k].definition_ref@, d.resolved_definitions@[k].definition_fingerprint@));
    }
    assert(c.resolved_definitions@.map_values(|p: PromotionDefinitionPinV1| pin_json(p))
        =~= d.resolved_definitions@.map_values(|p: PromotionDefinitionPinV1| pin_json(p)));
    assert(promotion_preimage_members(c) =~= promotion_preimage_members(d));
}

/// Builds the promotion record of a promotion, identified by the fingerprint of its preimage.
#[verifier::rlimit(40)]
pub fn build_promotion_record(inputs: &PromotionRecordInputsV1) -> (r: Result<
    PromotionRecordV11,
    CharterPromotionWorkflowErrorV1,
>)
    ensures
        r matches Ok(rec) ==> {
            &&& promotion_built_from(rec, *inputs)
            &&& json_fingerprint(promotion_preimage_json(rec)) == Some(rec.promotion_fingerprint@)
            &&& rec.promotion_id@ == promotion_id_of(rec.promotion_fingerprint@)
        },
        r matches Err(e) ==> e.error_kind() == CharterPromotionWorkflowErrorKindV1::LifecycleClearanceIncomplete
            && forall|c: PromotionRecordV11|
            #[trigger] promotion_built_from(c, *inputs) ==> json_fingerprint(promotion_preimage_json(c)) is None,
{
    let mut validation_result_refs: Vec<String> = Vec::new();
    validation_result_refs.push(inputs.validation_result_ref.clone());
    assert(string_views(validation_result_refs@) =~= seq![inputs.validation_result_ref@]);
    let mut record = PromotionRecordV11 {
        schema_id: "handbook.artifact-promotion-record".to_owned(),
        schema_version: "1.1".to_owned(),
        promotion_id: String::new(),
        candidate_ref: inputs.candidate_ref.clone(),
        candidate_fingerprint: inputs.candidate_fingerprint.clone(),
        target_instance_id: "project_authority".to_owned(),
        basis_artifact_fingerprint: inputs.expected_current_fingerprint.clone(),
        expected_current_artifact_fingerprint: inputs.expected_current_fingerprint.clone(),
        profile_ref: SELECTED_PROFILE_REF.to_owned(),
        resolved_profile_fingerprint: SELECTED_PROFILE_FINGERPRINT.to_owned(),
        resolved_definitions: pinned_definition_list(),
        approval_refs: copy_texts(&inputs.approval_refs),
        validation_result_refs,
        decision: "approved".to_owned(),
        authorized_by_ref: inputs.authorized_by_ref.clone(),
        canonical_artifact_ref: CANONICAL_REF.to_owned(),
        canonical_artifact_fingerprint: inputs.canonical_fingerprint.clone(),
        approver_registry_state_ref: inputs.registry_state_ref.clone(),
        approver_registry_state_fingerprint: inputs.registry_state_fingerprint.clone(),
        registry_head_transition_ref: inputs.registry_head_ref.clone(),
        registry_head_transition_fingerprint: inputs.registry_head_fingerprint.clone(),
        promotion_fingerprint: String::new(),
    };
    let ghost candidate = record;
    assert(promotion_built_from(record, *inputs));
    match fingerprint_json(&object_text(&promotion_member_texts(&record))) {
        Some(f) => {
            proof {
                lemma_sha256_prefix();
            }
            let hex = slice_chars(&f, 7, f.len());
            assert(hex@ =~= crate::digest::fingerprint_hex(f@));
            let mut id = chars_of("promotion_");
            let mut tail = hex;
            id.append(&mut tail);
            record.promotion_id = string_of(&id);
            record.promotion_fingerprint = string_of(&f);
            assert(promotion_preimage_members(record) =~= promotion_preimage_members(candidate));
            Ok(record)
        },
        None => {
            assert forall|c: PromotionRecordV11| #[trigger] promotion_built_from(c, *inputs) implies json_fingerprint(
                promotion_preimage_json(c),
            ) is None by {
                lemma_promotion_preimage_determined(c, candidate, *inputs);
            }
            Err(
                CharterPromotionWorkflowErrorV1::new(
                    CharterPromotionWorkflowErrorKindV1::LifecycleClearanceIncomplete,
                    "runtime record fingerprint preimage is invalid",
                ),
            )
        },
    }
}

/// The lineage reference of a promotion record.
pub fn promotion_ref(promotion_id: &str) -> (r: String)
    ensures
        r@ == "promotions/"@ + promotion_id@ + ".json"@,
{
    let mut out = chars_of("promotions/");
    let mut id = chars_of(promotion_id);
    out.append(&mut id);
    let mut suffix = chars_of(".json");
    out.append(&mut suffix);
    string_of(&out)
}

} // verus!
