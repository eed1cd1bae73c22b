use vstd::prelude::*;
use vstd::utf8::encode_utf8;
use base64::Engine;
use crate::charter_runtime_vectors::{str_at, str_field, value_text_of, JsonValue};
use crate::json::{canonical_json_bytes, jcs_bytes, opt_string_text};
use crate::digest::{is_fingerprint, is_fingerprint_chars, sha256, sha256_digest};
use crate::json::{
    array_text, fingerprint_json, json_array, json_fingerprint, json_member, json_null,
    json_object, json_opt_string, json_str, json_string, json_string_array, member_text, null_text, object_text,
    string_array_text,
};
use crate::text::{chars_lt, lemma_encode_utf8_concat, lemma_seq_lt_transitive, string_of, views};
use crate::text::{chars_eq, is_lower_sha256_hex, sha256_hex_text, slice_chars, starts_with};
use crate::text::{
    ascii_alnum, ascii_control, ascii_whitespace, chars_of, has_prefix, is_ascii_alnum,
    is_ascii_control, is_ascii_whitespace, seq_lt,
};

verus! {

#[derive(Clone, Copy, Debug, PartialEq, Eq, Structural)]
pub enum ContextResolutionKernelErrorKind {
    InvalidInput,
    AuthorityRefused,
    StaleAuthority,
    Indeterminate,
    ExpansionRefused,
    Cardinality,
    ReplayMismatch,
    ForbiddenTarget,
}

/// A refusal of the context-resolution kernel.
#[derive(Clone, Debug, PartialEq, Eq)]
pub struct ContextResolutionKernelError {
    kind: ContextResolutionKernelErrorKind,
    detail: String,
}

impl ContextResolutionKernelError {
    /// The kind of the refusal.
    pub closed spec fn error_kind(&self) -> ContextResolutionKernelErrorKind {
        self.kind
    }

    /// The text that explains the refusal.
    pub closed spec fn error_detail(&self) -> Seq<char> {
        self.detail@
    }

    pub fn new(kind: ContextResolutionKernelErrorKind, detail: &str) -> (r: Self)
        ensures
            r.error_kind() == kind,
            r.error_detail() == detail@,
    {
        Self { kind, detail: detail.to_owned() }
    }

    pub fn kind(&self) -> (r: ContextResolutionKernelErrorKind)
        ensures
            r == self.error_kind(),
    {
        self.kind
    }

    pub fn detail(&self) -> (r: &str)
        ensures
            r@ == self.error_detail(),
    {
        self.detail.as_str()
    }
}

fn invalid_input(detail: &str) -> (r: ContextResolutionKernelError)
    ensures
        r.error_kind() == ContextResolutionKernelErrorKind::InvalidInput,
        r.error_detail() == detail@,
{
    ContextResolutionKernelError::new(ContextResolutionKernelErrorKind::InvalidInput, detail)
}

// ---------------------------------------------------------------------------
// Exact bindings
// ---------------------------------------------------------------------------

/// A text with no ASCII control or ASCII whitespace character in it.
pub open spec fn no_control_or_space(s: Seq<char>) -> bool {
    forall|i: int| 0 <= i < s.len() ==> !is_ascii_control(#[trigger] s[i]) && !is_ascii_whitespace(
        s[i],
    )
}

/// A non-empty token of at most `max_bytes` bytes, free of ASCII control and space characters.
pub open spec fn is_bounded_token(s: Seq<char>, max_bytes: nat) -> bool {
    s.len() > 0 && encode_utf8(s).len() <= max_bytes && no_control_or_space(s)
}

/// Whether `s` is a bounded token of at most `max_bytes` bytes.
pub fn bounded_token(s: &str, max_bytes: usize) -> (r: bool)
    ensures
        r == is_bounded_token(s@, max_bytes as nat),
{
    let v = chars_of(s);
    if v.len() == 0 || s.as_bytes().len() > max_bytes {
        return false;
    }
    let mut i: usize = 0;
    while i < v.len()
        invariant
            v@ == s@,
            i <= v.len(),
            forall|j: int| 0 <= j < i ==> !is_ascii_control(#[trigger] v@[j])
                && !is_ascii_whitespace(v@[j]),
        decreases v.len() - i,
    {
        if ascii_control(v[i]) || ascii_whitespace(v[i]) {
            return false;
        }
        i = i + 1;
    }
    true
}

/// A reference bound to the exact fingerprint of what it names.
#[derive(Clone, Debug, PartialEq, Eq)]
pub struct ContextResolutionExactBinding {
    reference: String,
    fingerprint: String,
}

impl View for ContextResolutionExactBinding {
    type V = (Seq<char>, Seq<char>);

    closed spec fn view(&self) -> (Seq<char>, Seq<char>) {
        (self.reference@, self.fingerprint@)
    }
}

/// Why an exact binding of `reference` to `fingerprint` is refused, if it is.
pub open spec fn exact_binding_error(reference: Seq<char>, fingerprint: Seq<char>) -> Option<
    Seq<char>,
> {
    if !is_bounded_token(reference, 1024) {
        Some("exact binding reference is invalid"@)
    } else if !is_fingerprint(fingerprint) {
        Some("exact binding fingerprint is invalid"@)
    } else {
        None
    }
}

impl ContextResolutionExactBinding {
    pub fn new(reference: &str, fingerprint: &str) -> (r: Result<
        Self,
        ContextResolutionKernelError,
    >)
        ensures
            r is Err <==> exact_binding_error(reference@, fingerprint@) is Some,
            r matches Err(e) ==> e.error_kind() == ContextResolutionKernelErrorKind::InvalidInput
                && exact_binding_error(reference@, fingerprint@) == Some(e.error_detail()),
            r matches Ok(b) ==> b@ == (reference@, fingerprint@),
    {
        if !bounded_token(reference, 1024) {
            return Err(invalid_input("exact binding reference is invalid"));
        }
        if !is_fingerprint_chars(&chars_of(fingerprint)) {
            return Err(invalid_input("exact binding fingerprint is invalid"));
        }
        Ok(Self { reference: reference.to_owned(), fingerprint: fingerprint.to_owned() })
    }

    pub fn reference(&self) -> (r: &str)
        ensures
            r@ == self@.0,
    {
        self.reference.as_str()
    }

    pub fn fingerprint(&self) -> (r: &str)
        ensures
            r@ == self@.1,
    {
        self.fingerprint.as_str()
    }
}

// ---------------------------------------------------------------------------
// Authority uses and dimensions
// ---------------------------------------------------------------------------

#[derive(Clone, Copy, Debug, PartialEq, Eq, Structural)]
pub enum ContextResolutionAuthorityUse {
    RootCreation,
    Parent,
    Requested,
    Approving,
    Decision,
    Evidence,
    TriggerCondition,
    Constraint,
    Source,
    Target,
    TargetMemory,
}

/// The wire name of each authority use.
pub open spec fn authority_use_name(u: ContextResolutionAuthorityUse) -> Seq<char> {
    match u {
        ContextResolutionAuthorityUse::RootCreation => "root_creation"@,
        ContextResolutionAuthorityUse::Parent => "parent"@,
        ContextResolutionAuthorityUse::Requested => "requested"@,
        ContextResolutionAuthorityUse::Approving => "approving"@,
        ContextResolutionAuthorityUse::Decision => "decision"@,
        ContextResolutionAuthorityUse::Evidence => "evidence"@,
        ContextResolutionAuthorityUse::TriggerCondition => "trigger_condition"@,
        ContextResolutionAuthorityUse::Constraint => "constraint"@,
        ContextResolutionAuthorityUse::Source => "source"@,
        ContextResolutionAuthorityUse::Target => "target"@,
        ContextResolutionAuthorityUse::TargetMemory => "target_memory"@,
    }
}

impl ContextResolutionAuthorityUse {
    pub fn as_str(self) -> (r: &'static str)
        ensures
            r@ == authority_use_name(self),
    {
        match self {
            ContextResolutionAuthorityUse::RootCreation => "root_creation",
            ContextResolutionAuthorityUse::Parent => "parent",
            ContextResolutionAuthorityUse::Requested => "requested",
            ContextResolutionAuthorityUse::Approving => "approving",
            ContextResolutionAuthorityUse::Decision => "decision",
            ContextResolutionAuthorityUse::Evidence => "evidence",
            ContextResolutionAuthorityUse::TriggerCondition => "trigger_condition",
            ContextResolutionAuthorityUse::Constraint => "constraint",
            ContextResolutionAuthorityUse::Source => "source",
            ContextResolutionAuthorityUse::Target => "target",
            ContextResolutionAuthorityUse::TargetMemory => "target_memory",
        }
    }
}

/// The six dimension values of a context-resolution envelope.
#[derive(Clone, Debug, PartialEq, Eq)]
pub struct ContextResolutionDimensions {
    values: [String; 6],
}

impl View for ContextResolutionDimensions {
    type V = Seq<Seq<char>>;

    closed spec fn view(&self) -> Seq<Seq<char>> {
        self.values@.map_values(|v: String| v@)
    }
}

/// The texts of six string slices.
pub open spec fn str6_view(values: [&str; 6]) -> Seq<Seq<char>> {
    values@.map_values(|v: &str| v@)
}

/// Every dimension value is a bounded token of at most 128 bytes.
pub open spec fn dimensions_valid(values: Seq<Seq<char>>) -> bool {
    forall|i: int| 0 <= i < values.len() ==> is_bounded_token(#[trigger] values[i], 128)
}

impl ContextResolutionDimensions {
    pub fn new(values: [&str; 6]) -> (r: Result<Self, ContextResolutionKernelError>)
        ensures
            r is Ok <==> dimensions_valid(str6_view(values)),
            r matches Err(e) ==> e.error_kind() == ContextResolutionKernelErrorKind::InvalidInput
                && e.error_detail() == "context resolution dimension value is invalid"@,
            r matches Ok(d) ==> d@ == str6_view(values),
    {
        let mut i: usize = 0;
        while i < 6
            invariant
                i <= 6,
                values@.len() == 6,
                forall|j: int| 0 <= j < i ==> is_bounded_token(#[trigger] str6_view(values)[j], 128),
            decreases 6 - i,
        {
            let value: &str = values[i];
            assert(str6_view(values)[i as int] == value@);
            if !bounded_token(value, 128) {
                return Err(invalid_input("context resolution dimension value is invalid"));
            }
            i = i + 1;
        }
        let owned: [String; 6] = [
            values[0].to_owned(),
            values[1].to_owned(),
            values[2].to_owned(),
            values[3].to_owned(),
            values[4].to_owned(),
            values[5].to_owned(),
        ];
        let r = Self { values: owned };
        assert(r@ =~= str6_view(values));
        Ok(r)
    }

    pub fn values(&self) -> (r: [&str; 6])
        ensures
            str6_view(r) == self@,
    {
        let r: [&str; 6] = [
            self.values[0].as_str(),
            self.values[1].as_str(),
            self.values[2].as_str(),
            self.values[3].as_str(),
            self.values[4].as_str(),
            self.values[5].as_str(),
        ];
        assert(str6_view(r) =~= self@);
        r
    }
}

// ---------------------------------------------------------------------------
// Mutation rules
// ---------------------------------------------------------------------------

#[derive(Clone, Copy, Debug, PartialEq, Eq, Structural)]
pub enum ContextResolutionMutationEffect {
    Allow,
    Deny,
}

#[derive(Clone, Copy, Debug, PartialEq, Eq, Structural)]
pub enum ContextResolutionMutationDecision {
    Allowed,
    Denied,
    Indeterminate,
}

#[derive(Clone, Copy, Debug, PartialEq, Eq, Structural)]
pub enum ContextResolutionMemoryDecision {
    Authorized,
    PromotionRequired,
}

#[derive(Clone, Copy, Debug, PartialEq, Eq, Structural)]
pub enum ContextResolutionValidationDecision {
    Authorized,
    NotAuthorized,
}

/// The characters a selector segment may hold.
pub open spec fn is_selector_char(c: char) -> bool {
    is_ascii_alnum(c) || c == '.' || c == '_' || c == '*' || c == '-'
}

/// The characters a record or rule identifier may hold.
pub open spec fn is_id_char(c: char) -> bool {
    is_ascii_alnum(c) || c == '.' || c == '_' || c == '-'
}

/// A record or rule identifier: 1 to 128 of `[A-Za-z0-9._-]`.
pub open spec fn is_record_id(s: Seq<char>) -> bool {
    0 < s.len() <= 128 && forall|i: int| 0 <= i < s.len() ==> is_id_char(#[trigger] s[i])
}

/// Position `i` of `s` begins a `/`-separated segment.
pub open spec fn segment_starts(s: Seq<char>, i: int) -> bool {
    i == 0 || s[i - 1] == '/'
}

/// Position `i` of `s` ends a `/`-separated segment.
pub open spec fn segment_ends(s: Seq<char>, i: int) -> bool {
    i == s.len() || s[i] == '/'
}

/// The number of `/` characters in `s`.
pub open spec fn slash_count(s: Seq<char>) -> nat
    decreases s.len(),
{
    if s.len() == 0 {
        0
    } else {
        slash_count(s.drop_last()) + if s.last() == '/' {
            1nat
        } else {
            0nat
        }
    }
}

/// Every character of `s` is a selector character or `/`.
pub open spec fn selector_chars(s: Seq<char>) -> bool {
    forall|i: int| 0 <= i < s.len() ==> is_selector_char(#[trigger] s[i]) || s[i] == '/'
}

/// No two `/` stand side by side in `s`.
pub open spec fn no_double_slash(s: Seq<char>) -> bool {
    forall|i: int| 0 <= i < s.len() - 1 ==> !(#[trigger] s[i] == '/' && s[i + 1] == '/')
}

/// No segment of `s` is `.` or `..`.
pub open spec fn no_dot_segment(s: Seq<char>) -> bool {
    forall|i: int|
        0 <= i < s.len() && segment_starts(s, i) && #[trigger] s[i] == '.' ==> !segment_ends(
            s,
            i + 1,
        ) && !(i + 1 < s.len() && s[i + 1] == '.' && segment_ends(s, i + 2))
}

/// `**` occurs in `s` only as its whole last segment.
pub open spec fn double_star_last(s: Seq<char>) -> bool {
    forall|i: int|
        0 <= i < s.len() - 1 && #[trigger] s[i] == '*' && s[i + 1] == '*' ==> segment_starts(s, i)
            && i + 2 == s.len()
}

/// A repository-path selector: 1 to 1024 characters forming at most 64 non-empty
/// `/`-separated segments of `[A-Za-z0-9._*-]`, none of them `.` or `..`, where `**`
/// occurs only as the whole last segment.
pub open spec fn is_mutation_selector(s: Seq<char>) -> bool {
    &&& 0 < s.len() <= 1024
    &&& selector_chars(s)
    &&& s[0] != '/'
    &&& s.last() != '/'
    &&& no_double_slash(s)
    &&& slash_count(s) < 64
    &&& no_dot_segment(s)
    &&& double_star_last(s)
}

fn selector_char(c: char) -> (r: bool)
    ensures
        r == is_selector_char(c),
{
    ascii_alnum(c) || c == '.' || c == '_' || c == '*' || c == '-'
}

fn id_char(c: char) -> (r: bool)
    ensures
        r == is_id_char(c),
{
    ascii_alnum(c) || c == '.' || c == '_' || c == '-'
}

/// Whether `s` is a record or rule identifier.
pub fn record_id(s: &str) -> (r: bool)
    ensures
        r == is_record_id(s@),
{
    let v = chars_of(s);
    if v.len() == 0 || v.len() > 128 {
        return false;
    }
    let mut i: usize = 0;
    while i < v.len()
        invariant
            v@ == s@,
            i <= v.len(),
            forall|j: int| 0 <= j < i ==> is_id_char(#[trigger] v@[j]),
        decreases v.len() - i,
    {
        if !id_char(v[i]) {
            return false;
        }
        i = i + 1;
    }
    true
}

fn count_selector_chars(v: &Vec<char>) -> (r: Option<usize>)
    ensures
        r is Some <==> selector_chars(v@),
        r matches Some(k) ==> k == slash_count(v@),
{
    let n = v.len();
    let mut i: usize = 0;
    let mut slashes: usize = 0;
    assert(v@.take(0) =~= Seq::<char>::empty());
    while i < n
        invariant
            n == v.len(),
            i <= n,
            slashes == slash_count(v@.take(i as int)),
            slashes <= i,
            forall|j: int| 0 <= j < i ==> is_selector_char(#[trigger] v@[j]) || v@[j] == '/',
        decreases n - i,
    {
        if !selector_char(v[i]) && v[i] != '/' {
            return None;
        }
        assert(v@.take(i + 1).drop_last() =~= v@.take(i as int));
        if v[i] == '/' {
            slashes = slashes + 1;
        }
        i = i + 1;
    }
    assert(v@.take(n as int) =~= v@);
    Some(slashes)
}

fn check_no_double_slash(v: &Vec<char>) -> (r: bool)
    ensures
        r == no_double_slash(v@),
{
    let n = v.len();
    let mut i: usize = 0;
    while i < n
        invariant
            n == v.len(),
            i <= n,
            forall|j: int| 0 <= j < i && j < n - 1 ==> !(#[trigger] v@[j] == '/' && v@[j + 1] == '/'),
        decreases n - i,
    {
        if i + 1 < n && v[i] == '/' && v[i + 1] == '/' {
            return false;
        }
        i = i + 1;
    }
    true
}

fn check_no_dot_segment(v: &Vec<char>) -> (r: bool)
    ensures
        r == no_dot_segment(v@),
{
    let n = v.len();
    let mut i: usize = 0;
    while i < n
        invariant
            n == v.len(),
            i <= n,
            forall|j: int|
                0 <= j < i && segment_starts(v@, j) && #[trigger] v@[j] == '.' ==> !segment_ends(
                    v@,
                    j + 1,
                ) && !(j + 1 < n && v@[j + 1] == '.' && segment_ends(v@, j + 2)),
        decreases n - i,
    {
        if (i == 0 || v[i - 1] == '/') && v[i] == '.' {
            if i + 1 == n || v[i + 1] == '/' {
                return false;
            }
            if v[i + 1] == '.' && (i + 2 == n || v[i + 2] == '/') {
                return false;
            }
        }
        i = i + 1;
    }
    true
}

fn check_double_star_last(v: &Vec<char>) -> (r: bool)
    ensures
        r == double_star_last(v@),
{
    let n = v.len();
    let mut i: usize = 0;
    while i < n
        invariant
            n == v.len(),
            i <= n,
            forall|j: int|
                0 <= j < i && j < n - 1 && #[trigger] v@[j] == '*' && v@[j + 1] == '*'
                    ==> segment_starts(v@, j) && j + 2 == n,
        decreases n - i,
    {
        if i + 1 < n && v[i] == '*' && v[i + 1] == '*' && !((i == 0 || v[i - 1] == '/') && i + 2 == n) {
            return false;
        }
        i = i + 1;
    }
    true
}

/// Whether `s` is a well-formed repository-path selector.
pub fn mutation_selector(s: &str) -> (r: bool)
    ensures
        r == is_mutation_selector(s@),
{
    let v = chars_of(s);
    let n = v.len();
    if n == 0 || n > 1024 || v[0] == '/' || v[n - 1] == '/' {
        return false;
    }
    match count_selector_chars(&v) {
        None => false,
        Some(slashes) => slashes < 64 && check_no_double_slash(&v) && check_no_dot_segment(&v)
            && check_double_star_last(&v),
    }
}

/// One allow or deny rule over repository paths.
#[derive(Clone, Debug, PartialEq, Eq)]
pub struct ContextResolutionMutationRule {
    rule_id: String,
    effect: ContextResolutionMutationEffect,
    target_kind: String,
    selector: String,
}

/// What a mutation rule holds: its ID, effect, target kind and selector.
pub struct MutationRuleView {
    pub rule_id: Seq<char>,
    pub effect: ContextResolutionMutationEffect,
    pub target_kind: Seq<char>,
    pub selector: Seq<char>,
}

impl View for ContextResolutionMutationRule {
    type V = MutationRuleView;

    closed spec fn view(&self) -> MutationRuleView {
        MutationRuleView {
            rule_id: self.rule_id@,
            effect: self.effect,
            target_kind: self.target_kind@,
            selector: self.selector@,
        }
    }
}

/// Why a mutation rule is refused, if it is: its kind and its explanation.
pub open spec fn mutation_rule_error(rule_id: Seq<char>, target_kind: Seq<char>, selector: Seq<char>) -> Option<
    (ContextResolutionKernelErrorKind, Seq<char>),
> {
    if !is_record_id(rule_id) {
        Some((ContextResolutionKernelErrorKind::InvalidInput, "mutation rule ID is invalid"@))
    } else if target_kind != "repository_path"@ {
        Some(
            (
                ContextResolutionKernelErrorKind::Indeterminate,
                "mutation target kind is not admitted"@,
            ),
        )
    } else if !is_mutation_selector(selector) {
        Some((ContextResolutionKernelErrorKind::Indeterminate, "mutation selector is malformed"@))
    } else {
        None
    }
}

impl ContextResolutionMutationRule {
    pub fn new(
        rule_id: &str,
        effect: ContextResolutionMutationEffect,
        target_kind: &str,
        selector: &str,
    ) -> (r: Result<Self, ContextResolutionKernelError>)
        ensures
            r is Err <==> mutation_rule_error(rule_id@, target_kind@, selector@) is Some,
            r matches Err(e) ==> mutation_rule_error(rule_id@, target_kind@, selector@) == Some(
                (e.error_kind(), e.error_detail()),
            ),
            r matches Ok(rule) ==> rule@ == (MutationRuleView {
                rule_id: rule_id@,
                effect,
                target_kind: target_kind@,
                selector: selector@,
            }),
    {
        if !record_id(rule_id) {
            return Err(invalid_input("mutation rule ID is invalid"));
        }
        let kind_chars = chars_of(target_kind);
        let expected = chars_of("repository_path");
        if !crate::text::chars_eq(&kind_chars, &expected) {
            return Err(
                ContextResolutionKernelError::new(
                    ContextResolutionKernelErrorKind::Indeterminate,
                    "mutation target kind is not admitted",
                ),
            );
        }
        if !mutation_selector(selector) {
            return Err(
                ContextResolutionKernelError::new(
                    ContextResolutionKernelErrorKind::Indeterminate,
                    "mutation selector is malformed",
                ),
            );
        }
        Ok(
            Self {
                rule_id: rule_id.to_owned(),
                effect,
                target_kind: target_kind.to_owned(),
                selector: selector.to_owned(),
            },
        )
    }
}

// ---------------------------------------------------------------------------
// Escalation and promotion outcomes
// ---------------------------------------------------------------------------

#[derive(Clone, Copy, Debug, PartialEq, Eq, Structural)]
pub enum ContextResolutionEscalationOutcome {
    Approved,
    Refused,
    Superseded,
}

#[derive(Clone, Copy, Debug, PartialEq, Eq, Structural)]
pub enum ContextResolutionPromotionOutcome {
    Applied,
    Refused,
    Stale,
}

/// How a recovery treats the retry candidates it found: exactly one may be retried.
pub open spec fn recovery_cardinality(candidates: Seq<(String, String)>) -> (Seq<char>, Option<Seq<char>>, Option<Seq<char>>) {
    if candidates.len() == 1 {
        ("retry_available"@, Some(candidates[0].0@), Some(candidates[0].1@))
    } else if candidates.len() == 0 {
        ("candidate_missing"@, None, None)
    } else {
        ("candidate_ambiguous"@, None, None)
    }
}

pub open spec fn opt_text(o: Option<String>) -> Option<Seq<char>> {
    match o {
        Some(s) => Some(s@),
        None => None,
    }
}

/// A recovery offers a retry candidate exactly when there is exactly one, and then offers that
/// one; with none it reports the candidate missing, with several ambiguous.
pub proof fn lemma_recovery_cardinality(candidates: Seq<(String, String)>)
    ensures
        recovery_cardinality(candidates).1 is Some <==> candidates.len() == 1,
        recovery_cardinality(candidates).2 is Some <==> candidates.len() == 1,
        candidates.len() == 1 ==> recovery_cardinality(candidates) == (
            "retry_available"@,
            Some(candidates[0].0@),
            Some(candidates[0].1@),
        ),
        candidates.len() == 0 ==> recovery_cardinality(candidates).0 == "candidate_missing"@,
        candidates.len() > 1 ==> recovery_cardinality(candidates).0 == "candidate_ambiguous"@,
{
}

/// The recovery status for a list of `(ref, fingerprint)` retry candidates, with the one
/// candidate when there is exactly one.
pub fn recovery_candidate_cardinality(candidates: &[(String, String)]) -> (r: (
    &'static str,
    Option<String>,
    Option<String>,
))
    ensures
        (r.0@, opt_text(r.1), opt_text(r.2)) == recovery_cardinality(candidates@),
{
    if candidates.len() == 1 {
        ("retry_available", Some(candidates[0].0.clone()), Some(candidates[0].1.clone()))
    } else if candidates.len() == 0 {
        ("candidate_missing", None, None)
    } else {
        ("candidate_ambiguous", None, None)
    }
}

/// The hex digits of the outer artifact that an HCM authorization operation ID names: what
/// follows `hcm32-authorize-`, when that is 64 lowercase hex digits.
pub open spec fn authorized_outer_hex(operation_id: Seq<char>) -> Option<Seq<char>> {
    if has_prefix(operation_id, "hcm32-authorize-"@) && is_lower_sha256_hex(
        operation_id.skip("hcm32-authorize-"@.len() as int),
    ) {
        Some(operation_id.skip("hcm32-authorize-"@.len() as int))
    } else {
        None
    }
}

/// An operation ID names an outer artifact `h` exactly when it is `hcm32-authorize-` followed by
/// `h`, and `h` is 64 lowercase hex digits.
pub proof fn lemma_authorized_outer_hex(operation_id: Seq<char>, h: Seq<char>)
    ensures
        authorized_outer_hex(operation_id) == Some(h) <==> operation_id == "hcm32-authorize-"@ + h
            && is_lower_sha256_hex(h),
{
    if operation_id == "hcm32-authorize-"@ + h {
        assert(operation_id.take("hcm32-authorize-"@.len() as int) =~= "hcm32-authorize-"@);
        assert(operation_id.skip("hcm32-authorize-"@.len() as int) =~= h);
    }
    if authorized_outer_hex(operation_id) == Some(h) {
        assert(operation_id =~= operation_id.take("hcm32-authorize-"@.len() as int) + operation_id.skip(
            "hcm32-authorize-"@.len() as int,
        ));
    }
}

/// The outer artifact hex digits that an HCM authorization operation ID names, if it names one.
pub fn hcm_authorized_outer_hex(operation_id: &str) -> (r: Option<String>)
    ensures
        opt_text(r) == authorized_outer_hex(operation_id@),
{
    let v = chars_of(operation_id);
    let prefix = chars_of("hcm32-authorize-");
    if !starts_with(&v, &prefix) {
        return None;
    }
    let rest = slice_chars(&v, prefix.len(), v.len());
    assert(rest@ =~= operation_id@.skip("hcm32-authorize-"@.len() as int));
    if !sha256_hex_text(&rest) {
        return None;
    }
    Some(string_of(&rest))
}

/// An approval mapping of a registry credential, with the class and authority it names where it
/// names them as text.
#[derive(Clone, Debug, PartialEq, Eq)]
pub struct PublisherApprovalMappingV1 {
    pub approval_class: Option<String>,
    pub authority_ref: Option<String>,
}

/// A registry credential: its status, where it has one as text, and its approval mappings.
#[derive(Clone, Debug, PartialEq, Eq)]
pub struct PublisherCredentialV1 {
    pub status: Option<String>,
    pub approval_mappings: Vec<PublisherApprovalMappingV1>,
}

/// A mapping that grants Context Resolution authority publication for the given pair.
pub open spec fn grants_publication(m: PublisherApprovalMappingV1, pair: Seq<char>) -> bool {
    opt_text(m.approval_class) == Some("context_resolution_authority_publication"@) && opt_text(
        m.authority_ref,
    ) == Some(pair)
}

/// An active credential with a mapping that grants publication for the given pair.
pub open spec fn holds_publication(c: PublisherCredentialV1, pair: Seq<char>) -> bool {
    &&& opt_text(c.status) == Some("active"@)
    &&& exists|k: int| 0 <= k < c.approval_mappings@.len() && grants_publication(#[trigger] c.approval_mappings@[k], pair)
}

/// How many credentials hold publication for the given pair.
pub open spec fn publication_holders(creds: Seq<PublisherCredentialV1>, pair: Seq<char>) -> nat
    decreases creds.len(),
{
    if creds.len() == 0 {
        0
    } else {
        publication_holders(creds.drop_last(), pair) + if holds_publication(creds.last(), pair) {
            1nat
        } else {
            0nat
        }
    }
}

fn opt_is(o: &Option<String>, literal: &str) -> (r: bool)
    ensures
        r == (opt_text(*o) == Some(literal@)),
{
    match o {
        Some(s) => chars_eq(&chars_of(s.as_str()), &chars_of(literal)),
        None => false,
    }
}

fn credential_holds(c: &PublisherCredentialV1, pair: &str) -> (r: bool)
    ensures
        r == holds_publication(*c, pair@),
{
    if !opt_is(&c.status, "active") {
        return false;
    }
    let mut i: usize = 0;
    while i < c.approval_mappings.len()
        invariant
            opt_text(c.status) == Some("active"@),
            i <= c.approval_mappings.len(),
            forall|k: int| 0 <= k < i ==> !grants_publication(#[trigger] c.approval_mappings@[k], pair@),
        decreases c.approval_mappings.len() - i,
    {
        let m = &c.approval_mappings[i];
        if opt_is(&m.approval_class, "context_resolution_authority_publication") && opt_is(
            &m.authority_ref,
            pair,
        ) {
            assert(grants_publication(c.approval_mappings@[i as int], pair@));
            return true;
        }
        i = i + 1;
    }
    false
}

/// Who holds publication: an active credential holds it for a pair when any one of its approval
/// mappings, at whatever position, grants Context Resolution authority publication for that
/// pair; an inactive credential, or one without such a mapping, does not.
pub proof fn lemma_publication_holder(c: PublisherCredentialV1, pair: Seq<char>, k: int)
    ensures
        opt_text(c.status) == Some("active"@) && 0 <= k < c.approval_mappings@.len() && opt_text(
            c.approval_mappings@[k].approval_class,
        ) == Some("context_resolution_authority_publication"@) && opt_text(c.approval_mappings@[k].authority_ref)
            == Some(pair) ==> holds_publication(c, pair),
        holds_publication(c, pair) ==> opt_text(c.status) == Some("active"@),
        holds_publication(c, pair) ==> exists|j: int|
            0 <= j < c.approval_mappings@.len() && #[trigger] opt_text(c.approval_mappings@[j].approval_class)
                == Some("context_resolution_authority_publication"@) && opt_text(
                c.approval_mappings@[j].authority_ref,
            ) == Some(pair),
{
    if opt_text(c.status) == Some("active"@) && 0 <= k < c.approval_mappings@.len() && opt_text(
        c.approval_mappings@[k].approval_class,
    ) == Some("context_resolution_authority_publication"@) && opt_text(c.approval_mappings@[k].authority_ref)
        == Some(pair) {
        assert(grants_publication(c.approval_mappings@[k], pair));
    }
    if holds_publication(c, pair) {
        let j = choose|j: int| 0 <= j < c.approval_mappings@.len() && grants_publication(#[trigger] c.approval_mappings@[j], pair);
        assert(opt_text(c.approval_mappings@[j].approval_class) == Some("context_resolution_authority_publication"@));
    }
}

/// The holder count counts holders: it is at most the number of credentials, positive exactly
/// when some credential holds publication, and all of them when every one does.
pub proof fn lemma_publication_holder_count(creds: Seq<PublisherCredentialV1>, pair: Seq<char>)
    ensures
        publication_holders(creds, pair) <= creds.len(),
        publication_holders(creds, pair) > 0 <==> exists|i: int| 0 <= i < creds.len() && holds_publication(#[trigger] creds[i], pair),
        (forall|i: int| 0 <= i < creds.len() ==> holds_publication(#[trigger] creds[i], pair)) ==> publication_holders(creds, pair)
            == creds.len(),
    decreases creds.len(),
{
    if creds.len() > 0 {
        let init = creds.drop_last();
        lemma_publication_holder_count(init, pair);
        if exists|i: int| 0 <= i < init.len() && holds_publication(#[trigger] init[i], pair) {
            let i = choose|i: int| 0 <= i < init.len() && holds_publication(#[trigger] init[i], pair);
            assert(creds[i] == init[i]);
        }
        if exists|i: int| 0 <= i < creds.len() && holds_publication(#[trigger] creds[i], pair) {
            let i = choose|i: int| 0 <= i < creds.len() && holds_publication(#[trigger] creds[i], pair);
            if i < creds.len() - 1 {
                assert(init[i] == creds[i]);
            }
        }
        if forall|i: int| 0 <= i < creds.len() ==> holds_publication(#[trigger] creds[i], pair) {
            assert forall|i: int| 0 <= i < init.len() implies holds_publication(#[trigger] init[i], pair) by {
                assert(init[i] == creds[i]);
            }
            assert(holds_publication(creds[creds.len() - 1], pair));
        }
    }
}

/// Counting holders adds up over any split of the credentials, and one credential counts one
/// exactly when it holds publication; together these fix the count of every list.
pub proof fn lemma_publication_holders_additive(
    a: Seq<PublisherCredentialV1>,
    b: Seq<PublisherCredentialV1>,
    c: PublisherCredentialV1,
    pair: Seq<char>,
)
    ensures
        publication_holders(a + b, pair) == publication_holders(a, pair) + publication_holders(b, pair),
        publication_holders(seq![c], pair) == if holds_publication(c, pair) {
            1nat
        } else {
            0nat
        },
    decreases b.len(),
{
    if b.len() > 0 {
        lemma_publication_holders_additive(a, b.drop_last(), c, pair);
        assert((a + b).drop_last() =~= a + b.drop_last());
        assert((a + b).last() == b.last());
    } else {
        assert(a + b =~= a);
    }
    assert(seq![c].drop_last() =~= Seq::<PublisherCredentialV1>::empty());
    assert(seq![c].last() == c);
    assert(publication_holders(Seq::<PublisherCredentialV1>::empty(), pair) == 0);
    assert(publication_holders(seq![c], pair) == publication_holders(seq![c].drop_last(), pair) + if holds_publication(
        c,
        pair,
    ) {
        1nat
    } else {
        0nat
    });
}

/// Counts the credentials that hold Context Resolution authority publication for a pair.
pub fn publication_holder_count(credentials: &Vec<PublisherCredentialV1>, publication_pair: &str) -> (r: usize)
    ensures
        r == publication_holders(credentials@, publication_pair@),
{
    let mut count: usize = 0;
    let mut i: usize = 0;
    while i < credentials.len()
        invariant
            i <= credentials.len(),
            count == publication_holders(credentials@.take(i as int), publication_pair@),
            count <= i,
        decreases credentials.len() - i,
    {
        assert(credentials@.take(i + 1).drop_last() =~= credentials@.take(i as int));
        if credential_holds(&credentials[i], publication_pair) {
            count = count + 1;
        }
        i = i + 1;
    }
    assert(credentials@.take(credentials.len() as int) =~= credentials@);
    count
}

/// What recovery observed of an authorized HCM publication that no committed generic journal
/// carries.
#[derive(Clone, Copy, Debug, PartialEq, Eq)]
pub struct PublicationGapObservationV1 {
    pub installed_without_commit: bool,
    pub journal_conflict: bool,
    pub registry_delta_ambiguous: bool,
    pub predecessor_mismatch: bool,
    pub candidate_invalid: bool,
}

/// The quarantine that records a publication gap: its phase and reason, the one retry candidate
/// where there is one, and whether the journal transaction is recorded.
#[derive(Clone, Debug, PartialEq, Eq)]
pub struct PublicationQuarantineDecisionV1 {
    pub phase: &'static str,
    pub reason: &'static str,
    pub candidate_ref: Option<String>,
    pub candidate_fingerprint: Option<String>,
    pub records_journal_transaction: bool,
}

/// The phase and reason of a publication gap, with its candidate: an installed result first,
/// then a journal conflict, an ambiguous registry delta, a predecessor mismatch and invalid
/// candidates with none valid; otherwise the count of valid candidates decides.
pub open spec fn publication_gap(
    o: PublicationGapObservationV1,
    candidates: Seq<(String, String)>,
) -> (Seq<char>, Seq<char>, Option<Seq<char>>, Option<Seq<char>>) {
    if o.installed_without_commit {
        ("installed_without_commit"@, "installed_result_ambiguous"@, None, None)
    } else if o.journal_conflict {
        ("generic_pending"@, "journal_conflict"@, None, None)
    } else if o.registry_delta_ambiguous {
        ("authorized_without_generic_intent"@, "registry_delta_ambiguous"@, None, None)
    } else if o.predecessor_mismatch {
        ("authorized_without_generic_intent"@, "predecessor_mismatch"@, None, None)
    } else if o.candidate_invalid && candidates.len() == 0 {
        ("authorized_without_generic_intent"@, "candidate_invalid"@, None, None)
    } else {
        let c = recovery_cardinality(candidates);
        ("authorized_without_generic_intent"@, c.0, c.1, c.2)
    }
}

/// The publication-gap law: an installed result, then a journal conflict, then an ambiguous
/// registry delta, then a predecessor mismatch each decide the reason alone, whatever the
/// candidates, and offer no candidate; only the last two are authorized gaps. Past those, invalid
/// candidates with none valid are refused as invalid, and otherwise a candidate is offered
/// exactly when there is exactly one, and it is that one.
pub proof fn lemma_publication_gap(o: PublicationGapObservationV1, candidates: Seq<(String, String)>)
    ensures
        o.installed_without_commit ==> publication_gap(o, candidates) == (
            "installed_without_commit"@,
            "installed_result_ambiguous"@,
            None::<Seq<char>>,
            None::<Seq<char>>,
        ),
        !o.installed_without_commit && o.journal_conflict ==> publication_gap(o, candidates) == (
            "generic_pending"@,
            "journal_conflict"@,
            None::<Seq<char>>,
            None::<Seq<char>>,
        ),
        !o.installed_without_commit && !o.journal_conflict && o.registry_delta_ambiguous ==> publication_gap(
            o,
            candidates,
        ) == (
            "authorized_without_generic_intent"@,
            "registry_delta_ambiguous"@,
            None::<Seq<char>>,
            None::<Seq<char>>,
        ),
        !o.installed_without_commit && !o.journal_conflict && !o.registry_delta_ambiguous
            && o.predecessor_mismatch ==> publication_gap(o, candidates) == (
            "authorized_without_generic_intent"@,
            "predecessor_mismatch"@,
            None::<Seq<char>>,
            None::<Seq<char>>,
        ),
        !o.installed_without_commit && !o.journal_conflict ==> publication_gap(o, candidates).0
            == "authorized_without_generic_intent"@,
        publication_gap(o, candidates).2 is Some ==> {
            &&& !o.installed_without_commit && !o.journal_conflict && !o.registry_delta_ambiguous
                && !o.predecessor_mismatch
            &&& candidates.len() == 1
            &&& publication_gap(o, candidates).1 == "retry_available"@
            &&& publication_gap(o, candidates).2 == Some(candidates[0].0@)
            &&& publication_gap(o, candidates).3 == Some(candidates[0].1@)
        },
        !o.installed_without_commit && !o.journal_conflict && !o.registry_delta_ambiguous
            && !o.predecessor_mismatch && candidates.len() == 1 ==> publication_gap(o, candidates).2 == Some(
            candidates[0].0@,
        ),
        !o.installed_without_commit && !o.journal_conflict && !o.registry_delta_ambiguous
            && !o.predecessor_mismatch && candidates.len() > 1 ==> publication_gap(o, candidates) == (
            "authorized_without_generic_intent"@,
            "candidate_ambiguous"@,
            None::<Seq<char>>,
            None::<Seq<char>>,
        ),
        !o.installed_without_commit && !o.journal_conflict && !o.registry_delta_ambiguous
            && !o.predecessor_mismatch && candidates.len() == 0 ==> publication_gap(o, candidates) == (
            "authorized_without_generic_intent"@,
            if o.candidate_invalid {
                "candidate_invalid"@
            } else {
                "candidate_missing"@
            },
            None::<Seq<char>>,
            None::<Seq<char>>,
        ),
{
    reveal_strlit("retry_available");
    reveal_strlit("installed_result_ambiguous");
    reveal_strlit("journal_conflict");
    reveal_strlit("registry_delta_ambiguous");
    reveal_strlit("predecessor_mismatch");
    reveal_strlit("candidate_invalid");
    reveal_strlit("candidate_missing");
    reveal_strlit("candidate_ambiguous");
}

/// Decides the quarantine of a publication gap; the journal transaction is recorded for every
/// phase but `authorized_without_generic_intent`.
pub fn publication_gap_disposition(
    observation: PublicationGapObservationV1,
    candidates: &[(String, String)],
) -> (r: PublicationQuarantineDecisionV1)
    ensures
        (r.phase@, r.reason@, opt_text(r.candidate_ref), opt_text(r.candidate_fingerprint))
            == publication_gap(observation, candidates@),
        r.records_journal_transaction == (r.phase@ != "authorized_without_generic_intent"@),
{
    proof {
        reveal_strlit("authorized_without_generic_intent");
        reveal_strlit("installed_without_commit");
        reveal_strlit("generic_pending");
        assert("installed_without_commit"@.len() != "authorized_without_generic_intent"@.len());
        assert("generic_pending"@.len() != "authorized_without_generic_intent"@.len());
    }
    if observation.installed_without_commit {
        PublicationQuarantineDecisionV1 {
            phase: "installed_without_commit",
            reason: "installed_result_ambiguous",
            candidate_ref: None,
            candidate_fingerprint: None,
            records_journal_transaction: true,
        }
    } else if observation.journal_conflict {
        PublicationQuarantineDecisionV1 {
            phase: "generic_pending",
            reason: "journal_conflict",
            candidate_ref: None,
            candidate_fingerprint: None,
            records_journal_transaction: true,
        }
    } else if observation.registry_delta_ambiguous {
        PublicationQuarantineDecisionV1 {
            phase: "authorized_without_generic_intent",
            reason: "registry_delta_ambiguous",
            candidate_ref: None,
            candidate_fingerprint: None,
            records_journal_transaction: false,
        }
    } else if observation.predecessor_mismatch {
        PublicationQuarantineDecisionV1 {
            phase: "authorized_without_generic_intent",
            reason: "predecessor_mismatch",
            candidate_ref: None,
            candidate_fingerprint: None,
            records_journal_transaction: false,
        }
    } else if observation.candidate_invalid && candidates.len() == 0 {
        PublicationQuarantineDecisionV1 {
            phase: "authorized_without_generic_intent",
            reason: "candidate_invalid",
            candidate_ref: None,
            candidate_fingerprint: None,
            records_journal_transaction: false,
        }
    } else {
        let (reason, candidate_ref, candidate_fingerprint) = recovery_candidate_cardinality(candidates);
        PublicationQuarantineDecisionV1 {
            phase: "authorized_without_generic_intent",
            reason,
            candidate_ref,
            candidate_fingerprint,
            records_journal_transaction: false,
        }
    }
}

/// The eight big-endian bytes of a length.
pub open spec fn be_u64(n: nat) -> Seq<u8> {
    seq![
        ((n / 0x100000000000000) % 256) as u8,
        ((n / 0x1000000000000) % 256) as u8,
        ((n / 0x10000000000) % 256) as u8,
        ((n / 0x100000000) % 256) as u8,
        ((n / 0x1000000) % 256) as u8,
        ((n / 0x10000) % 256) as u8,
        ((n / 0x100) % 256) as u8,
        (n % 256) as u8,
    ]
}

/// Each part, in order, after the eight big-endian bytes of its length.
pub open spec fn length_prefixed(parts: Seq<Seq<u8>>) -> Seq<u8>
    decreases parts.len(),
{
    if parts.len() == 0 {
        Seq::empty()
    } else {
        length_prefixed(parts.drop_last()) + be_u64(parts.last().len()) + parts.last()
    }
}

fn be_u64_bytes(n: u64) -> (r: Vec<u8>)
    ensures
        r@ == be_u64(n as nat),
{
    let mut v: Vec<u8> = Vec::new();
    v.push(((n / 0x100000000000000) % 256) as u8);
    v.push(((n / 0x1000000000000) % 256) as u8);
    v.push(((n / 0x10000000000) % 256) as u8);
    v.push(((n / 0x100000000) % 256) as u8);
    v.push(((n / 0x1000000) % 256) as u8);
    v.push(((n / 0x10000) % 256) as u8);
    v.push(((n / 0x100) % 256) as u8);
    v.push((n % 256) as u8);
    assert(v@ =~= be_u64(n as nat));
    v
}

fn append_bytes(out: &mut Vec<u8>, bytes: &[u8])
    ensures
        final(out)@ == old(out)@ + bytes@,
{
    let mut i: usize = 0;
    while i < bytes.len()
        invariant
            i <= bytes.len(),
            out@ == old(out)@ + bytes@.take(i as int),
        decreases bytes.len() - i,
    {
        out.push(bytes[i]);
        assert(out@ =~= old(out)@ + bytes@.take(i + 1));
        i = i + 1;
    }
    assert(bytes@.take(bytes.len() as int) =~= bytes@);
}

/// The length-prefixed concatenation of byte strings.
pub fn length_prefixed_bytes(parts: &Vec<Vec<u8>>) -> (r: Vec<u8>)
    ensures
        r@ == length_prefixed(parts@.map_values(|p: Vec<u8>| p@)),
{
    let ghost pv = parts@.map_values(|p: Vec<u8>| p@);
    let mut out: Vec<u8> = Vec::new();
    let mut i: usize = 0;
    assert(pv.take(0) =~= Seq::<Seq<u8>>::empty());
    while i < parts.len()
        invariant
            pv == parts@.map_values(|p: Vec<u8>| p@),
            i <= parts.len(),
            out@ == length_prefixed(pv.take(i as int)),
        decreases parts.len() - i,
    {
        let part = &parts[i];
        let n: u64 = part.len() as u64;
        let prefix = be_u64_bytes(n);
        append_bytes(&mut out, prefix.as_slice());
        append_bytes(&mut out, part.as_slice());
        assert(pv.take(i + 1).drop_last() =~= pv.take(i as int));
        assert(pv.take(i + 1).last() == part@);
        i = i + 1;
    }
    assert(pv.take(parts.len() as int) =~= pv);
    out
}

/// What an authority challenge binds of the current authority snapshot.
#[derive(Clone, Debug, PartialEq, Eq)]
pub struct AuthorityChallengeContextV1 {
    pub repository_identity_fingerprint: String,
    pub registry_state_ref: String,
    pub registry_state_fingerprint: String,
    pub registry_transition_ref: String,
    pub registry_transition_fingerprint: String,
    pub outer_artifact_fingerprint: String,
    pub declaration_byte_fingerprint: String,
    pub payload_byte_fingerprint: String,
    pub semantic_binding_fingerprint: String,
}

/// The parts of an authority challenge preimage, in order: the challenge domain, the nonce,
/// the snapshot's bindings, the authority use and the subject.
pub open spec fn challenge_parts(
    nonce: Seq<u8>,
    c: AuthorityChallengeContextV1,
    authority_use: ContextResolutionAuthorityUse,
    subject: (Seq<char>, Seq<char>),
) -> Seq<Seq<u8>> {
    seq![
        encode_utf8("handbook.context-resolution-authority.challenge.v1"@),
        nonce,
        encode_utf8(c.repository_identity_fingerprint@),
        encode_utf8(c.registry_state_ref@),
        encode_utf8(c.registry_state_fingerprint@),
        encode_utf8(c.registry_transition_ref@),
        encode_utf8(c.registry_transition_fingerprint@),
        encode_utf8(c.outer_artifact_fingerprint@),
        encode_utf8(c.declaration_byte_fingerprint@),
        encode_utf8(c.payload_byte_fingerprint@),
        encode_utf8(c.semantic_binding_fingerprint@),
        encode_utf8(authority_use_name(authority_use)),
        encode_utf8(subject.0),
        encode_utf8(subject.1),
    ]
}

fn bytes_vec(b: &[u8]) -> (r: Vec<u8>)
    ensures
        r@ == b@,
{
    let mut out: Vec<u8> = Vec::new();
    append_bytes(&mut out, b);
    out
}

/// The challenge an authenticator signs to admit an authority use for a subject: the SHA-256
/// digest of the length-prefixed challenge parts.
pub fn authority_challenge(
    nonce: &[u8],
    context: &AuthorityChallengeContextV1,
    authority_use: ContextResolutionAuthorityUse,
    subject: &ContextResolutionExactBinding,
) -> (r: Vec<u8>)
    ensures
        r@ == sha256_digest(length_prefixed(challenge_parts(nonce@, *context, authority_use, subject@))),
{
    let mut parts: Vec<Vec<u8>> = Vec::new();
    parts.push(bytes_vec("handbook.context-resolution-authority.challenge.v1".as_bytes()));
    parts.push(bytes_vec(nonce));
    parts.push(bytes_vec(context.repository_identity_fingerprint.as_str().as_bytes()));
    parts.push(bytes_vec(context.registry_state_ref.as_str().as_bytes()));
    parts.push(bytes_vec(context.registry_state_fingerprint.as_str().as_bytes()));
    parts.push(bytes_vec(context.registry_transition_ref.as_str().as_bytes()));
    parts.push(bytes_vec(context.registry_transition_fingerprint.as_str().as_bytes()));
    parts.push(bytes_vec(context.outer_artifact_fingerprint.as_str().as_bytes()));
    parts.push(bytes_vec(context.declaration_byte_fingerprint.as_str().as_bytes()));
    parts.push(bytes_vec(context.payload_byte_fingerprint.as_str().as_bytes()));
    parts.push(bytes_vec(context.semantic_binding_fingerprint.as_str().as_bytes()));
    parts.push(bytes_vec(authority_use.as_str().as_bytes()));
    parts.push(bytes_vec(subject.reference().as_bytes()));
    parts.push(bytes_vec(subject.fingerprint().as_bytes()));
    assert(parts@.map_values(|p: Vec<u8>| p@) =~= challenge_parts(nonce@, *context, authority_use, subject@));
    let preimage = length_prefixed_bytes(&parts);
    sha256(preimage.as_slice())
}

/// An authenticator's sign counter is accepted when both counts are zero, or when it exceeds
/// the retained count and the last count seen.
pub open spec fn sign_counter_accepted(retained: u32, previous: u32, observed: u32) -> bool {
    !((retained != 0 || observed != 0) && (observed <= retained || observed <= previous))
}

/// The sign counter law: a counter is accepted when both the retained and the observed counts
/// are zero (an authenticator without a counter); otherwise it is accepted exactly when it is
/// strictly greater than both the retained count and the last count seen.
pub proof fn lemma_sign_counter(retained: u32, previous: u32, observed: u32)
    ensures
        retained == 0 && observed == 0 ==> sign_counter_accepted(retained, previous, observed),
        !(retained == 0 && observed == 0) ==> (sign_counter_accepted(retained, previous, observed) <==> (
        observed > retained && observed > previous)),
        sign_counter_accepted(retained, previous, observed) && observed != 0 ==> observed > retained
            && observed > previous,
{
}

/// Whether an observed sign counter is accepted against the retained and last seen counts.
pub fn sign_counter_advances(retained: u32, previous: u32, observed: u32) -> (r: bool)
    ensures
        r == sign_counter_accepted(retained, previous, observed),
{
    !((retained != 0 || observed != 0) && (observed <= retained || observed <= previous))
}

// ---------------------------------------------------------------------------
// Canonical JSON of kernel values
// ---------------------------------------------------------------------------

/// The JSON of an exact binding.
pub open spec fn binding_json(b: (Seq<char>, Seq<char>)) -> Seq<char> {
    json_object(
        seq![json_member("reference"@, json_string(b.0)), json_member("fingerprint"@, json_string(b.1))],
    )
}

pub open spec fn binding_views(bs: Seq<ContextResolutionExactBinding>) -> Seq<(Seq<char>, Seq<char>)> {
    bs.map_values(|b: ContextResolutionExactBinding| b@)
}

/// The JSON array of a list of exact bindings.
pub open spec fn bindings_json(bs: Seq<(Seq<char>, Seq<char>)>) -> Seq<char> {
    json_array(bs.map_values(|b: (Seq<char>, Seq<char>)| binding_json(b)))
}

pub open spec fn opt_binding_view(o: Option<ContextResolutionExactBinding>) -> Option<(Seq<char>, Seq<char>)> {
    match o {
        Some(b) => Some(b@),
        None => None,
    }
}

/// The JSON of an optional exact binding: `null` when absent.
pub open spec fn opt_binding_json(o: Option<(Seq<char>, Seq<char>)>) -> Seq<char> {
    match o {
        Some(b) => binding_json(b),
        None => json_null(),
    }
}

/// The wire name of a mutation effect.
pub open spec fn effect_name(e: ContextResolutionMutationEffect) -> Seq<char> {
    match e {
        ContextResolutionMutationEffect::Allow => "allow"@,
        ContextResolutionMutationEffect::Deny => "deny"@,
    }
}

/// The JSON of a mutation rule.
pub open spec fn rule_json(r: MutationRuleView) -> Seq<char> {
    json_object(
        seq![
            json_member("rule_id"@, json_string(r.rule_id)),
            json_member("effect"@, json_string(effect_name(r.effect))),
            json_member("target_kind"@, json_string(r.target_kind)),
            json_member("selector"@, json_string(r.selector)),
        ],
    )
}

pub open spec fn rule_views(rs: Seq<ContextResolutionMutationRule>) -> Seq<MutationRuleView> {
    rs.map_values(|r: ContextResolutionMutationRule| r@)
}

/// The JSON array of a list of mutation rules.
pub open spec fn rules_json(rs: Seq<MutationRuleView>) -> Seq<char> {
    json_array(rs.map_values(|r: MutationRuleView| rule_json(r)))
}

/// The JSON of the six dimension values.
pub open spec fn dimensions_json(d: Seq<Seq<char>>) -> Seq<char> {
    json_object(seq![json_member("values"@, json_string_array(d))])
}

fn binding_text(b: &ContextResolutionExactBinding) -> (r: Vec<char>)
    ensures
        r@ == binding_json(b@),
{
    let mut members: Vec<Vec<char>> = Vec::new();
    members.push(member_text("reference", json_str(b.reference.as_str())));
    members.push(member_text("fingerprint", json_str(b.fingerprint.as_str())));
    assert(views(members@) =~= seq![
        json_member("reference"@, json_string(b@.0)),
        json_member("fingerprint"@, json_string(b@.1)),
    ]);
    object_text(&members)
}

fn bindings_text(bs: &Vec<ContextResolutionExactBinding>) -> (r: Vec<char>)
    ensures
        r@ == bindings_json(binding_views(bs@)),
{
    let mut items: Vec<Vec<char>> = Vec::new();
    let mut i: usize = 0;
    while i < bs.len()
        invariant
            i <= bs.len(),
            items.len() == i,
            forall|k: int| 0 <= k < i ==> (#[trigger] items@[k])@ == binding_json(bs@[k]@),
        decreases bs.len() - i,
    {
        items.push(binding_text(&bs[i]));
        i = i + 1;
    }
    assert(views(items@) =~= binding_views(bs@).map_values(
        |b: (Seq<char>, Seq<char>)| binding_json(b),
    ));
    array_text(&items)
}

fn opt_binding_text(o: &Option<ContextResolutionExactBinding>) -> (r: Vec<char>)
    ensures
        r@ == opt_binding_json(opt_binding_view(*o)),
{
    match o {
        Some(b) => binding_text(b),
        None => null_text(),
    }
}

fn rule_text(rule: &ContextResolutionMutationRule) -> (r: Vec<char>)
    ensures
        r@ == rule_json(rule@),
{
    let effect = match rule.effect {
        ContextResolutionMutationEffect::Allow => "allow",
        ContextResolutionMutationEffect::Deny => "deny",
    };
    let mut members: Vec<Vec<char>> = Vec::new();
    members.push(member_text("rule_id", json_str(rule.rule_id.as_str())));
    members.push(member_text("effect", json_str(effect)));
    members.push(member_text("target_kind", json_str(rule.target_kind.as_str())));
    members.push(member_text("selector", json_str(rule.selector.as_str())));
    assert(views(members@) =~= seq![
        json_member("rule_id"@, json_string(rule@.rule_id)),
        json_member("effect"@, json_string(effect_name(rule@.effect))),
        json_member("target_kind"@, json_string(rule@.target_kind)),
        json_member("selector"@, json_string(rule@.selector)),
    ]);
    object_text(&members)
}

fn rules_text(rs: &Vec<ContextResolutionMutationRule>) -> (r: Vec<char>)
    ensures
        r@ == rules_json(rule_views(rs@)),
{
    let mut items: Vec<Vec<char>> = Vec::new();
    let mut i: usize = 0;
    while i < rs.len()
        invariant
            i <= rs.len(),
            items.len() == i,
            forall|k: int| 0 <= k < i ==> (#[trigger] items@[k])@ == rule_json(rs@[k]@),
        decreases rs.len() - i,
    {
        items.push(rule_text(&rs[i]));
        i = i + 1;
    }
    assert(views(items@) =~= rule_views(rs@).map_values(|r: MutationRuleView| rule_json(r)));
    array_text(&items)
}

fn dimensions_text(d: &ContextResolutionDimensions) -> (r: Vec<char>)
    ensures
        r@ == dimensions_json(d@),
{
    let mut values: Vec<String> = Vec::new();
    let mut i: usize = 0;
    while i < 6
        invariant
            i <= 6,
            d.values@.len() == 6,
            values.len() == i,
            forall|k: int| 0 <= k < i ==> (#[trigger] values@[k])@ == d@[k],
        decreases 6 - i,
    {
        values.push(d.values[i].clone());
        i = i + 1;
    }
    assert(values@.map_values(|s: String| s@) =~= d@);
    let mut members: Vec<Vec<char>> = Vec::new();
    members.push(member_text("values", string_array_text(&values)));
    assert(views(members@) =~= seq![json_member("values"@, json_string_array(d@))]);
    object_text(&members)
}

// ---------------------------------------------------------------------------
// Ordered binding lists and derived bindings
// ---------------------------------------------------------------------------

/// A list of at most 256 bindings in strictly ascending order of reference.
pub open spec fn bindings_sorted_unique(bs: Seq<(Seq<char>, Seq<char>)>) -> bool {
    bs.len() <= 256 && forall|i: int, j: int| 0 <= i < j < bs.len() ==> seq_lt(
        #[trigger] bs[i].0,
        #[trigger] bs[j].0,
    )
}

fn check_sorted_unique(bs: &Vec<ContextResolutionExactBinding>) -> (r: bool)
    ensures
        r == bindings_sorted_unique(binding_views(bs@)),
{
    let ghost v = binding_views(bs@);
    if bs.len() > 256 {
        return false;
    }
    let mut i: usize = 1;
    while i < bs.len()
        invariant
            v == binding_views(bs@),
            bs.len() <= 256,
            1 <= i,
            i <= bs.len() || bs.len() == 0,
            forall|a: int, b: int| 0 <= a < b < i && b < v.len() ==> seq_lt(#[trigger] v[a].0, #[trigger] v[b].0),
        decreases bs.len() - i,
    {
        if !chars_lt(&chars_of(bs[i - 1].reference.as_str()), &chars_of(bs[i].reference.as_str())) {
            assert(!seq_lt(v[i - 1].0, v[i as int].0));
            return false;
        }
        proof {
            assert forall|a: int, b: int| 0 <= a < b < i + 1 && b < v.len() implies seq_lt(
                #[trigger] v[a].0,
                #[trigger] v[b].0,
            ) by {
                if b == i && a < i - 1 {
                    lemma_seq_lt_transitive(v[a].0, v[i - 1].0, v[b].0);
                }
            }
        }
        i = i + 1;
    }
    true
}

/// A printable ASCII prefix of at most 64 characters.
pub open spec fn is_plain_prefix(p: Seq<char>) -> bool {
    p.len() <= 64 && forall|i: int| 0 <= i < p.len() ==> '!' <= #[trigger] p[i] && p[i] <= '~'
}

proof fn lemma_prefixed_token(p: Seq<char>, id: Seq<char>)
    requires
        is_plain_prefix(p),
        is_bounded_token(id, 256),
    ensures
        is_bounded_token(p + id, 1024),
{
    lemma_encode_utf8_concat(p, id);
    assert(vstd::utf8::is_ascii_chars(p));
    vstd::utf8::is_ascii_chars_encode_utf8(p);
    assert forall|i: int| 0 <= i < (p + id).len() implies !is_ascii_control(#[trigger] (p + id)[i])
        && !is_ascii_whitespace((p + id)[i]) by {
        if i < p.len() {
            assert((p + id)[i] == p[i]);
        } else {
            assert((p + id)[i] == id[i - p.len()]);
        }
    }
}

/// A record ID is also a bounded token.
proof fn lemma_record_id_token(id: Seq<char>)
    requires
        is_record_id(id),
    ensures
        is_bounded_token(id, 256),
{
    assert(vstd::utf8::is_ascii_chars(id));
    vstd::utf8::is_ascii_chars_encode_utf8(id);
}

fn prefixed_binding(prefix: &str, id: &str, fingerprint: &Vec<char>) -> (r: ContextResolutionExactBinding)
    requires
        is_plain_prefix(prefix@),
        is_bounded_token(id@, 256),
        is_fingerprint(fingerprint@),
    ensures
        r@ == (prefix@ + id@, fingerprint@),
{
    proof {
        lemma_prefixed_token(prefix@, id@);
    }
    let mut reference = chars_of(prefix);
    let mut tail = chars_of(id);
    reference.append(&mut tail);
    ContextResolutionExactBinding { reference: string_of(&reference), fingerprint: string_of(fingerprint) }
}

// ---------------------------------------------------------------------------
// Envelope inputs
// ---------------------------------------------------------------------------

/// The input from which a context-resolution envelope is resolved.
#[derive(Clone, Debug)]
pub struct ContextResolutionEnvelopeInput {
    envelope_id: String,
    objective_ref: String,
    resolved_profile: ContextResolutionExactBinding,
    resolution_stack: ContextResolutionExactBinding,
    active_level_id: String,
    dimensions: ContextResolutionDimensions,
    parent: Option<ContextResolutionExactBinding>,
    constraint_inputs: Vec<ContextResolutionExactBinding>,
    mutation_rules: Vec<ContextResolutionMutationRule>,
    escalation_triggers: Vec<ContextResolutionExactBinding>,
    candidate_binding: ContextResolutionExactBinding,
}

/// The values of an envelope input.
pub struct EnvelopeInputView {
    pub envelope_id: Seq<char>,
    pub objective_ref: Seq<char>,
    pub resolved_profile: (Seq<char>, Seq<char>),
    pub resolution_stack: (Seq<char>, Seq<char>),
    pub active_level_id: Seq<char>,
    pub dimensions: Seq<Seq<char>>,
    pub parent: Option<(Seq<char>, Seq<char>)>,
    pub constraint_inputs: Seq<(Seq<char>, Seq<char>)>,
    pub mutation_rules: Seq<MutationRuleView>,
    pub escalation_triggers: Seq<(Seq<char>, Seq<char>)>,
}

impl View for ContextResolutionEnvelopeInput {
    /// The values of the input and the candidate binding that names it.
    type V = (EnvelopeInputView, (Seq<char>, Seq<char>));

    closed spec fn view(&self) -> (EnvelopeInputView, (Seq<char>, Seq<char>)) {
        (EnvelopeInputView {
            envelope_id: self.envelope_id@,
            objective_ref: self.objective_ref@,
            resolved_profile: self.resolved_profile@,
            resolution_stack: self.resolution_stack@,
            active_level_id: self.active_level_id@,
            dimensions: self.dimensions@,
            parent: opt_binding_view(self.parent),
            constraint_inputs: binding_views(self.constraint_inputs@),
            mutation_rules: rule_views(self.mutation_rules@),
            escalation_triggers: binding_views(self.escalation_triggers@),
        }, self.candidate_binding@)
    }
}

/// The mutation rules of a list have pairwise distinct IDs.
pub open spec fn rule_ids_distinct(rs: Seq<MutationRuleView>) -> bool {
    forall|i: int, j: int| 0 <= i < j < rs.len() ==> #[trigger] rs[i].rule_id != #[trigger] rs[j].rule_id
}

/// Why an envelope input is refused, if it is.
pub open spec fn envelope_input_error(v: EnvelopeInputView) -> Option<Seq<char>> {
    if !is_bounded_token(v.envelope_id, 256) {
        Some("envelope ID is invalid"@)
    } else if !is_bounded_token(v.objective_ref, 256) {
        Some("objective ref is invalid"@)
    } else if !is_bounded_token(v.active_level_id, 256) {
        Some("active level ID is invalid"@)
    } else if !bindings_sorted_unique(v.constraint_inputs) {
        Some("constraint inputs must be strictly ordered and unique"@)
    } else if v.mutation_rules.len() > 256 || v.escalation_triggers.len() > 64 {
        Some("envelope collection exceeds its exact bound"@)
    } else if !rule_ids_distinct(v.mutation_rules) {
        Some("mutation rule ID is duplicated"@)
    } else if !bindings_sorted_unique(v.escalation_triggers) {
        Some("escalation triggers must be strictly ordered and unique"@)
    } else {
        None
    }
}

/// The JSON whose fingerprint identifies an envelope candidate.
#[verifier::opaque]
pub open spec fn envelope_candidate_json(v: EnvelopeInputView) -> Seq<char> {
    json_object(
        seq![
            json_member("envelope_id"@, json_string(v.envelope_id)),
            json_member("objective_ref"@, json_string(v.objective_ref)),
            json_member("resolved_profile"@, binding_json(v.resolved_profile)),
            json_member("resolution_stack"@, binding_json(v.resolution_stack)),
            json_member("active_level_id"@, json_string(v.active_level_id)),
            json_member("dimensions"@, dimensions_json(v.dimensions)),
            json_member("parent"@, opt_binding_json(v.parent)),
            json_member("constraint_inputs"@, bindings_json(v.constraint_inputs)),
            json_member("mutation_rules"@, rules_json(v.mutation_rules)),
            json_member("escalation_triggers"@, bindings_json(v.escalation_triggers)),
        ],
    )
}

fn check_rule_ids_distinct(rs: &Vec<ContextResolutionMutationRule>) -> (r: bool)
    ensures
        r == rule_ids_distinct(rule_views(rs@)),
{
    let ghost v = rule_views(rs@);
    let mut j: usize = 0;
    while j < rs.len()
        invariant
            v == rule_views(rs@),
            j <= rs.len(),
            forall|a: int, b: int| 0 <= a < b < j ==> #[trigger] v[a].rule_id != #[trigger] v[b].rule_id,
        decreases rs.len() - j,
    {
        let mut i: usize = 0;
        while i < j
            invariant
                v == rule_views(rs@),
                i <= j,
                j < rs.len(),
                forall|a: int| 0 <= a < i ==> #[trigger] v[a].rule_id != v[j as int].rule_id,
            decreases j - i,
        {
            if rs[i].rule_id == rs[j].rule_id {
                assert(v[i as int].rule_id == v[j as int].rule_id);
                return false;
            }
            i = i + 1;
        }
        j = j + 1;
    }
    true
}

fn envelope_candidate_text(
    envelope_id: &str,
    objective_ref: &str,
    resolved_profile: &ContextResolutionExactBinding,
    resolution_stack: &ContextResolutionExactBinding,
    active_level_id: &str,
    dimensions: &ContextResolutionDimensions,
    parent: &Option<ContextResolutionExactBinding>,
    constraint_inputs: &Vec<ContextResolutionExactBinding>,
    mutation_rules: &Vec<ContextResolutionMutationRule>,
    escalation_triggers: &Vec<ContextResolutionExactBinding>,
) -> (r: Vec<char>)
    ensures
        r@ == envelope_candidate_json(
            EnvelopeInputView {
                envelope_id: envelope_id@,
                objective_ref: objective_ref@,
                resolved_profile: resolved_profile@,
                resolution_stack: resolution_stack@,
                active_level_id: active_level_id@,
                dimensions: dimensions@,
                parent: opt_binding_view(*parent),
                constraint_inputs: binding_views(constraint_inputs@),
                mutation_rules: rule_views(mutation_rules@),
                escalation_triggers: binding_views(escalation_triggers@),
            },
        ),
{
    let mut members: Vec<Vec<char>> = Vec::new();
    members.push(member_text("envelope_id", json_str(envelope_id)));
    members.push(member_text("objective_ref", json_str(objective_ref)));
    members.push(member_text("resolved_profile", binding_text(resolved_profile)));
    members.push(member_text("resolution_stack", binding_text(resolution_stack)));
    members.push(member_text("active_level_id", json_str(active_level_id)));
    members.push(member_text("dimensions", dimensions_text(dimensions)));
    members.push(member_text("parent", opt_binding_text(parent)));
    members.push(member_text("constraint_inputs", bindings_text(constraint_inputs)));
    members.push(member_text("mutation_rules", rules_text(mutation_rules)));
    members.push(member_text("escalation_triggers", bindings_text(escalation_triggers)));
    proof {
        reveal(envelope_candidate_json);
        assert(views(members@) =~= seq![
            json_member("envelope_id"@, json_string(envelope_id@)),
            json_member("objective_ref"@, json_string(objective_ref@)),
            json_member("resolved_profile"@, binding_json(resolved_profile@)),
            json_member("resolution_stack"@, binding_json(resolution_stack@)),
            json_member("active_level_id"@, json_string(active_level_id@)),
            json_member("dimensions"@, dimensions_json(dimensions@)),
            json_member("parent"@, opt_binding_json(opt_binding_view(*parent))),
            json_member("constraint_inputs"@, bindings_json(binding_views(constraint_inputs@))),
            json_member("mutation_rules"@, rules_json(rule_views(mutation_rules@))),
            json_member("escalation_triggers"@, bindings_json(binding_views(escalation_triggers@))),
        ]);
    }
    object_text(&members)
}

impl ContextResolutionEnvelopeInput {
    /// The binding that names this candidate input by its fingerprint.
    pub closed spec fn candidate(&self) -> (Seq<char>, Seq<char>) {
        self.candidate_binding@
    }

    #[verifier::rlimit(40)]
    pub fn new(
        envelope_id: &str,
        objective_ref: &str,
        resolved_profile: ContextResolutionExactBinding,
        resolution_stack: ContextResolutionExactBinding,
        active_level_id: &str,
        dimensions: ContextResolutionDimensions,
        parent: Option<ContextResolutionExactBinding>,
        constraint_inputs: Vec<ContextResolutionExactBinding>,
        mutation_rules: Vec<ContextResolutionMutationRule>,
        escalation_triggers: Vec<ContextResolutionExactBinding>,
    ) -> (r: Result<Self, ContextResolutionKernelError>)
        ensures
            ({
                let v = EnvelopeInputView {
                    envelope_id: envelope_id@,
                    objective_ref: objective_ref@,
                    resolved_profile: resolved_profile@,
                    resolution_stack: resolution_stack@,
                    active_level_id: active_level_id@,
                    dimensions: dimensions@,
                    parent: opt_binding_view(parent),
                    constraint_inputs: binding_views(constraint_inputs@),
                    mutation_rules: rule_views(mutation_rules@),
                    escalation_triggers: binding_views(escalation_triggers@),
                };
                &&& r is Err <==> envelope_input_error(v) is Some || json_fingerprint(
                    envelope_candidate_json(v),
                ) is None
                &&& r matches Err(e) ==> e.error_kind() == ContextResolutionKernelErrorKind::InvalidInput
                    && e.error_detail() == match envelope_input_error(v) {
                    Some(d) => d,
                    None => "envelope candidate could not be fingerprinted"@,
                }
                &&& r matches Ok(input) ==> input@.0 == v && input@.1 == input.candidate() && Some(input.candidate().1) == json_fingerprint(
                    envelope_candidate_json(v),
                ) && input.candidate().0 == "context-resolution-envelope-candidate/"@ + envelope_id@
            }),
    {
        if !bounded_token(envelope_id, 256) {
            return Err(invalid_input("envelope ID is invalid"));
        }
        if !bounded_token(objective_ref, 256) {
            return Err(invalid_input("objective ref is invalid"));
        }
        if !bounded_token(active_level_id, 256) {
            return Err(invalid_input("active level ID is invalid"));
        }
        if !check_sorted_unique(&constraint_inputs) {
            return Err(invalid_input("constraint inputs must be strictly ordered and unique"));
        }
        if mutation_rules.len() > 256 || escalation_triggers.len() > 64 {
            return Err(invalid_input("envelope collection exceeds its exact bound"));
        }
        if !check_rule_ids_distinct(&mutation_rules) {
            return Err(invalid_input("mutation rule ID is duplicated"));
        }
        if !check_sorted_unique(&escalation_triggers) {
            return Err(invalid_input("escalation triggers must be strictly ordered and unique"));
        }
        let text = envelope_candidate_text(
            envelope_id,
            objective_ref,
            &resolved_profile,
            &resolution_stack,
            active_level_id,
            &dimensions,
            &parent,
            &constraint_inputs,
            &mutation_rules,
            &escalation_triggers,
        );
        let fingerprint = match fingerprint_json(&text) {
            Some(f) => f,
            None => {
                return Err(invalid_input("envelope candidate could not be fingerprinted"));
            },
        };
        proof {
            reveal_strlit("context-resolution-envelope-candidate/");
        }
        let candidate_binding = prefixed_binding(
            "context-resolution-envelope-candidate/",
            envelope_id,
            &fingerprint,
        );
        Ok(
            Self {
                envelope_id: envelope_id.to_owned(),
                objective_ref: objective_ref.to_owned(),
                resolved_profile,
                resolution_stack,
                active_level_id: active_level_id.to_owned(),
                dimensions,
                parent,
                constraint_inputs,
                mutation_rules,
                escalation_triggers,
                candidate_binding,
            },
        )
    }

    pub fn candidate_binding(&self) -> (r: &ContextResolutionExactBinding)
        ensures
            r@ == self.candidate(),
    {
        &self.candidate_binding
    }
}

// ---------------------------------------------------------------------------
// Escalation dispositions
// ---------------------------------------------------------------------------

/// The wire name of an escalation outcome.
pub open spec fn escalation_outcome_name(o: ContextResolutionEscalationOutcome) -> Seq<char> {
    match o {
        ContextResolutionEscalationOutcome::Approved => "approved"@,
        ContextResolutionEscalationOutcome::Refused => "refused"@,
        ContextResolutionEscalationOutcome::Superseded => "superseded"@,
    }
}

/// An approval names the authorized envelope, a supersession the superseding request,
/// and a refusal neither.
pub open spec fn escalation_fields_consistent(
    outcome: ContextResolutionEscalationOutcome,
    authorized_envelope: bool,
    superseding_request: bool,
) -> bool {
    match outcome {
        ContextResolutionEscalationOutcome::Approved => authorized_envelope && !superseding_request,
        ContextResolutionEscalationOutcome::Refused => !authorized_envelope && !superseding_request,
        ContextResolutionEscalationOutcome::Superseded => !authorized_envelope && superseding_request,
    }
}

/// The JSON whose fingerprint identifies an escalation disposition.
#[verifier::opaque]
pub open spec fn escalation_disposition_json(
    disposition_id: Seq<char>,
    request: (Seq<char>, Seq<char>),
    outcome: ContextResolutionEscalationOutcome,
    decision: (Seq<char>, Seq<char>),
    authorized_envelope: Option<(Seq<char>, Seq<char>)>,
    superseding_request: Option<(Seq<char>, Seq<char>)>,
) -> Seq<char> {
    json_object(
        seq![
            json_member("disposition_id"@, json_string(disposition_id)),
            json_member("request"@, binding_json(request)),
            json_member("outcome"@, json_string(escalation_outcome_name(outcome))),
            json_member("decision"@, binding_json(decision)),
            json_member("authorized_envelope"@, opt_binding_json(authorized_envelope)),
            json_member("superseding_request"@, opt_binding_json(superseding_request)),
        ],
    )
}

/// The terminal disposition of an escalation request.
#[derive(Debug)]
pub struct ContextResolutionEscalationDisposition {
    disposition_id: String,
    exact_binding: ContextResolutionExactBinding,
    request: ContextResolutionExactBinding,
    outcome: ContextResolutionEscalationOutcome,
    decision: ContextResolutionExactBinding,
    authorized_envelope: Option<ContextResolutionExactBinding>,
    superseding_request: Option<ContextResolutionExactBinding>,
}

impl ContextResolutionEscalationDisposition {
    /// The binding that names this disposition by its fingerprint.
    pub closed spec fn binding(&self) -> (Seq<char>, Seq<char>) {
        self.exact_binding@
    }

    /// The outcome recorded by this disposition.
    pub closed spec fn recorded_outcome(&self) -> ContextResolutionEscalationOutcome {
        self.outcome
    }

    pub fn new(
        disposition_id: &str,
        request: ContextResolutionExactBinding,
        outcome: ContextResolutionEscalationOutcome,
        decision: ContextResolutionExactBinding,
        authorized_envelope: Option<ContextResolutionExactBinding>,
        superseding_request: Option<ContextResolutionExactBinding>,
    ) -> (r: Result<Self, ContextResolutionKernelError>)
        ensures
            ({
                let json = escalation_disposition_json(
                    disposition_id@,
                    request@,
                    outcome,
                    decision@,
                    opt_binding_view(authorized_envelope),
                    opt_binding_view(superseding_request),
                );
                let consistent = escalation_fields_consistent(
                    outcome,
                    authorized_envelope is Some,
                    superseding_request is Some,
                );
                &&& r is Err <==> !is_record_id(disposition_id@) || !consistent || json_fingerprint(
                    json,
                ) is None
                &&& r matches Err(e) ==> e.error_kind() == ContextResolutionKernelErrorKind::InvalidInput
                    && e.error_detail() == if !is_record_id(disposition_id@) {
                    "escalation disposition ID is invalid"@
                } else if !consistent {
                    "escalation disposition outcome fields are inconsistent"@
                } else {
                    "escalation disposition could not be fingerprinted"@
                }
                &&& r matches Ok(d) ==> d.recorded_outcome() == outcome && Some(d.binding().1)
                    == json_fingerprint(json) && d.binding().0
                    == "context-resolution-escalation-disposition/"@ + disposition_id@
            }),
    {
        if !record_id(disposition_id) {
            return Err(invalid_input("escalation disposition ID is invalid"));
        }
        let valid = match outcome {
            ContextResolutionEscalationOutcome::Approved => authorized_envelope.is_some()
                && superseding_request.is_none(),
            ContextResolutionEscalationOutcome::Refused => authorized_envelope.is_none()
                && superseding_request.is_none(),
            ContextResolutionEscalationOutcome::Superseded => authorized_envelope.is_none()
                && superseding_request.is_some(),
        };
        if !valid {
            return Err(invalid_input("escalation disposition outcome fields are inconsistent"));
        }
        let outcome_name = match outcome {
            ContextResolutionEscalationOutcome::Approved => "approved",
            ContextResolutionEscalationOutcome::Refused => "refused",
            ContextResolutionEscalationOutcome::Superseded => "superseded",
        };
        let mut members: Vec<Vec<char>> = Vec::new();
        members.push(member_text("disposition_id", json_str(disposition_id)));
        members.push(member_text("request", binding_text(&request)));
        members.push(member_text("outcome", json_str(outcome_name)));
        members.push(member_text("decision", binding_text(&decision)));
        members.push(member_text("authorized_envelope", opt_binding_text(&authorized_envelope)));
        members.push(member_text("superseding_request", opt_binding_text(&superseding_request)));
        proof {
            reveal(escalation_disposition_json);
            assert(views(members@) =~= seq![
                json_member("disposition_id"@, json_string(disposition_id@)),
                json_member("request"@, binding_json(request@)),
                json_member("outcome"@, json_string(escalation_outcome_name(outcome))),
                json_member("decision"@, binding_json(decision@)),
                json_member("authorized_envelope"@, opt_binding_json(opt_binding_view(authorized_envelope))),
                json_member("superseding_request"@, opt_binding_json(opt_binding_view(superseding_request))),
            ]);
        }
        let text = object_text(&members);
        let fingerprint = match fingerprint_json(&text) {
            Some(f) => f,
            None => {
                return Err(invalid_input("escalation disposition could not be fingerprinted"));
            },
        };
        proof {
            reveal_strlit("context-resolution-escalation-disposition/");
            lemma_record_id_token(disposition_id@);
        }
        let exact_binding = prefixed_binding(
            "context-resolution-escalation-disposition/",
            disposition_id,
            &fingerprint,
        );
        Ok(
            Self {
                disposition_id: disposition_id.to_owned(),
                exact_binding,
                request,
                outcome,
                decision,
                authorized_envelope,
                superseding_request,
            },
        )
    }

    pub fn exact_binding(&self) -> (r: &ContextResolutionExactBinding)
        ensures
            r@ == self.binding(),
    {
        &self.exact_binding
    }
}

// ---------------------------------------------------------------------------
// Semantic-memory targets
// ---------------------------------------------------------------------------

/// A typed semantic-memory reference: under `semantic-memory.` or
/// `.handbook/state/semantic-memory/`, with no `..` and no ASCII control character.
pub open spec fn is_semantic_memory_ref(s: Seq<char>) -> bool {
    &&& (has_prefix(s, "semantic-memory."@) || has_prefix(s, ".handbook/state/semantic-memory/"@))
    &&& !(exists|i: int| 0 <= i < s.len() - 1 && #[trigger] s[i] == '.' && s[i + 1] == '.')
    &&& forall|i: int| 0 <= i < s.len() ==> !is_ascii_control(#[trigger] s[i])
}

fn semantic_memory_ref(s: &str) -> (r: bool)
    ensures
        r == is_semantic_memory_ref(s@),
{
    let v = chars_of(s);
    if !crate::text::starts_with(&v, &chars_of("semantic-memory.")) && !crate::text::starts_with(
        &v,
        &chars_of(".handbook/state/semantic-memory/"),
    ) {
        return false;
    }
    let n = v.len();
    let mut i: usize = 0;
    while i < n
        invariant
            v@ == s@,
            n == v.len(),
            i <= n,
            forall|j: int| 0 <= j < i && j < n - 1 ==> !(#[trigger] v@[j] == '.' && v@[j + 1] == '.'),
            forall|j: int| 0 <= j < i ==> !is_ascii_control(#[trigger] v@[j]),
        decreases n - i,
    {
        if ascii_control(v[i]) {
            return false;
        }
        if i + 1 < n && v[i] == '.' && v[i + 1] == '.' {
            return false;
        }
        i = i + 1;
    }
    true
}

/// The JSON whose fingerprint identifies a semantic-memory target.
pub open spec fn semantic_target_json(target_record_ref: Seq<char>, expected: Option<Seq<char>>) -> Seq<char> {
    json_object(
        seq![
            json_member("target_record_ref"@, json_string(target_record_ref)),
            json_member("expected_target_fingerprint"@, json_opt_string(expected)),
        ],
    )
}

pub open spec fn opt_str_view(o: Option<&str>) -> Option<Seq<char>> {
    match o {
        Some(s) => Some(s@),
        None => None,
    }
}

/// The semantic-memory record a promotion would write, with the fingerprint it expects there.
#[derive(Clone, Debug)]
pub struct ContextResolutionSemanticMemoryTarget {
    target_record_ref: String,
    expected_target_fingerprint: Option<String>,
    candidate_binding: ContextResolutionExactBinding,
}

/// Why a semantic-memory target is refused, if it is: its kind and explanation.
pub open spec fn semantic_target_error(target_record_ref: Seq<char>, expected: Option<Seq<char>>) -> Option<
    (ContextResolutionKernelErrorKind, Seq<char>),
> {
    let fingerprint = json_fingerprint(semantic_target_json(target_record_ref, expected));
    let reference = "context-resolution-semantic-memory-target/"@ + target_record_ref;
    if !is_semantic_memory_ref(target_record_ref) {
        Some(
            (
                ContextResolutionKernelErrorKind::ForbiddenTarget,
                "promotion target is not a typed semantic-memory record"@,
            ),
        )
    } else if expected matches Some(f) && !is_fingerprint(f) {
        Some(
            (
                ContextResolutionKernelErrorKind::InvalidInput,
                "expected semantic-memory target fingerprint is invalid"@,
            ),
        )
    } else if fingerprint is None {
        Some(
            (
                ContextResolutionKernelErrorKind::InvalidInput,
                "semantic-memory target could not be fingerprinted"@,
            ),
        )
    } else if !is_bounded_token(reference, 1024) {
        Some((ContextResolutionKernelErrorKind::InvalidInput, "exact binding reference is invalid"@))
    } else {
        None
    }
}

impl ContextResolutionSemanticMemoryTarget {
    /// The binding that names this candidate target by its fingerprint.
    pub closed spec fn candidate(&self) -> (Seq<char>, Seq<char>) {
        self.candidate_binding@
    }

    pub fn new(target_record_ref: &str, expected_target_fingerprint: Option<&str>) -> (r: Result<
        Self,
        ContextResolutionKernelError,
    >)
        ensures
            ({
                let expected = opt_str_view(expected_target_fingerprint);
                &&& r is Err <==> semantic_target_error(target_record_ref@, expected) is Some
                &&& r matches Err(e) ==> semantic_target_error(target_record_ref@, expected) == Some(
                    (e.error_kind(), e.error_detail()),
                )
                &&& r matches Ok(t) ==> t.candidate().0
                    == "context-resolution-semantic-memory-target/"@ + target_record_ref@ && Some(
                    t.candidate().1,
                ) == json_fingerprint(semantic_target_json(target_record_ref@, expected))
            }),
    {
        if !semantic_memory_ref(target_record_ref) {
            return Err(
                ContextResolutionKernelError::new(
                    ContextResolutionKernelErrorKind::ForbiddenTarget,
                    "promotion target is not a typed semantic-memory record",
                ),
            );
        }
        let expected_text = match expected_target_fingerprint {
            Some(f) => {
                if !is_fingerprint_chars(&chars_of(f)) {
                    return Err(
                        invalid_input("expected semantic-memory target fingerprint is invalid"),
                    );
                }
                json_str(f)
            },
            None => null_text(),
        };
        let mut members: Vec<Vec<char>> = Vec::new();
        members.push(member_text("target_record_ref", json_str(target_record_ref)));
        members.push(member_text("expected_target_fingerprint", expected_text));
        assert(views(members@) =~= seq![
            json_member("target_record_ref"@, json_string(target_record_ref@)),
            json_member(
                "expected_target_fingerprint"@,
                json_opt_string(opt_str_view(expected_target_fingerprint)),
            ),
        ]);
        let text = object_text(&members);
        assert(text@ == semantic_target_json(
            target_record_ref@,
            opt_str_view(expected_target_fingerprint),
        ));
        let fingerprint = match fingerprint_json(&text) {
            Some(f) => f,
            None => {
                return Err(invalid_input("semantic-memory target could not be fingerprinted"));
            },
        };
        let mut reference = chars_of("context-resolution-semantic-memory-target/");
        let mut tail = chars_of(target_record_ref);
        reference.append(&mut tail);
        let reference_text = string_of(&reference);
        let fingerprint_text = string_of(&fingerprint);
        assert(reference_text@ == "context-resolution-semantic-memory-target/"@ + target_record_ref@);
        assert(is_fingerprint(fingerprint_text@));
        let candidate_binding = match ContextResolutionExactBinding::new(
            reference_text.as_str(),
            fingerprint_text.as_str(),
        ) {
            Ok(b) => b,
            Err(e) => {
                return Err(e);
            },
        };
        Ok(
            Self {
                target_record_ref: target_record_ref.to_owned(),
                expected_target_fingerprint: match expected_target_fingerprint {
                    Some(f) => Some(f.to_owned()),
                    None => None,
                },
                candidate_binding,
            },
        )
    }

    pub fn candidate_binding(&self) -> (r: &ContextResolutionExactBinding)
        ensures
            r@ == self.candidate(),
    {
        &self.candidate_binding
    }
}


// ---------------------------------------------------------------------------
// The HCM publication challenge
// ---------------------------------------------------------------------------

/// What standard padded base64 decoding gives for a text, as `base64`'s `STANDARD` engine
/// decodes it; `None` where it refuses the text.
pub uninterp spec fn base64_decoded(text: Seq<char>) -> Option<Seq<u8>>;

/// The standard padded base64 text of bytes, as `base64`'s `STANDARD` engine encodes them.
pub uninterp spec fn base64_encoded(bytes: Seq<u8>) -> Seq<char>;

/// `base64::engine::general_purpose::STANDARD.decode`: its result depends on the text alone and
/// is named, not restated; a decode error is reported as `None`.
#[verifier::external_body]
fn base64_decode(text: &str) -> (r: Option<Vec<u8>>)
    ensures
        r matches Some(v) ==> base64_decoded(text@) == Some(v@),
        r is None ==> base64_decoded(text@) is None,
{
    base64::engine::general_purpose::STANDARD.decode(text).ok()
}

/// `base64::engine::general_purpose::STANDARD.encode`: its result depends on the bytes alone and
/// is named, not restated. It panics only where the encoded length overflows `usize`, which the
/// bound leaves out.
#[verifier::external_body]
fn base64_encode(bytes: &[u8]) -> (r: String)
    requires
        bytes@.len() <= usize::MAX / 2,
    ensures
        r@ == base64_encoded(bytes@),
{
    base64::engine::general_purpose::STANDARD.encode(bytes)
}

/// The bytes of strict standard padded base64: a text that decodes to between 1 and 16,384
/// bytes which encode back to exactly that text.
pub open spec fn strict_base64_of(value: Seq<char>) -> Option<Seq<u8>> {
    match base64_decoded(value) {
        Some(d) => if 0 < d.len() <= 16384 && base64_encoded(d) == value {
            Some(d)
        } else {
            None
        },
        None => None,
    }
}

fn labelled(label: &str, text: &str) -> (r: String)
    ensures
        r@ == label@ + text@,
{
    let mut out = chars_of(label);
    let mut rest = chars_of(text);
    out.append(&mut rest);
    string_of(&out)
}

/// Decodes strict standard padded base64; the refusal names what `label` describes.
pub fn strict_base64(value: &str, label: &str) -> (r: Result<Vec<u8>, String>)
    ensures
        r matches Ok(d) ==> strict_base64_of(value@) == Some(d@),
        r is Err <==> strict_base64_of(value@) is None,
        r matches Err(e) ==> e@ == label@ + if base64_decoded(value@) is None {
            " is not standard padded base64"@
        } else {
            " is not byte-identical standard padded base64"@
        },
{
    let decoded = match base64_decode(value) {
        Some(d) => d,
        None => {
            return Err(labelled(label, " is not standard padded base64"));
        },
    };
    if decoded.len() == 0 || decoded.len() > 16384 {
        return Err(labelled(label, " is not byte-identical standard padded base64"));
    }
    let encoded = base64_encode(decoded.as_slice());
    if !chars_eq(&chars_of(encoded.as_str()), &chars_of(value)) {
        return Err(labelled(label, " is not byte-identical standard padded base64"));
    }
    Ok(decoded)
}

fn same_bytes(a: &Vec<u8>, b: &Vec<u8>) -> (r: bool)
    ensures
        r == (a@ == b@),
{
    if a.len() != b.len() {
        return false;
    }
    let mut i: usize = 0;
    while i < a.len()
        invariant
            a.len() == b.len(),
            i <= a.len(),
            forall|k: int| 0 <= k < i ==> a@[k] == b@[k],
        decreases a.len() - i,
    {
        if a[i] != b[i] {
            return false;
        }
        i = i + 1;
    }
    assert(a@ =~= b@);
    true
}

/// Bytes that open with the UTF-8 byte order mark.
pub open spec fn starts_with_bom(b: Seq<u8>) -> bool {
    b.len() >= 3 && b[0] == 0xefu8 && b[1] == 0xbbu8 && b[2] == 0xbfu8
}

/// A publication challenge that the assertion carries soundly: its text is strict base64 of
/// bytes without a byte order mark that are exactly the canonical JSON of the challenge.
pub open spec fn challenge_sound(challenge_jcs_base64: Seq<char>, challenge: JsonValue) -> bool {
    match strict_base64_of(challenge_jcs_base64) {
        Some(b) => !starts_with_bom(b) && jcs_bytes(crate::charter_runtime_vectors::value_text(challenge)) == Some(b),
        None => false,
    }
}

/// The outer artifact hex digits that an HCM publication challenge authorizes: its base64 text
/// must be strict and decode to exactly the canonical JSON of `challenge` (the value that those
/// bytes parse to), and then its `operation_id`, when it is a string naming an outer artifact,
/// gives them; a challenge without such an operation ID authorizes nothing.
pub fn hcm_challenge_operation_id(challenge_jcs_base64: &str, challenge: &JsonValue) -> (r: Result<
    Option<String>,
    ContextResolutionKernelError,
>)
    ensures
        r is Ok <==> challenge_sound(challenge_jcs_base64@, *challenge),
        r matches Ok(o) ==> opt_text(o) == match str_at(*challenge, "operation_id"@) {
            Some(op) => authorized_outer_hex(op),
            None => None,
        },
        r matches Err(e) ==> e.error_kind() == ContextResolutionKernelErrorKind::AuthorityRefused,
{
    let bytes = match strict_base64(challenge_jcs_base64, "HCM publication challenge") {
        Ok(b) => b,
        Err(detail) => {
            return Err(
                ContextResolutionKernelError::new(ContextResolutionKernelErrorKind::AuthorityRefused, detail.as_str()),
            );
        },
    };
    if bytes.len() >= 3 && bytes[0] == 0xefu8 && bytes[1] == 0xbbu8 && bytes[2] == 0xbfu8 {
        return Err(
            ContextResolutionKernelError::new(
                ContextResolutionKernelErrorKind::AuthorityRefused,
                "HCM publication challenge is not bounded strict UTF-8",
            ),
        );
    }
    let canonical = match canonical_json_bytes(&value_text_of(challenge)) {
        Some(c) => c,
        None => {
            return Err(
                ContextResolutionKernelError::new(
                    ContextResolutionKernelErrorKind::AuthorityRefused,
                    "HCM publication challenge cannot be emitted as JCS",
                ),
            );
        },
    };
    if !same_bytes(&canonical, &bytes) {
        return Err(
            ContextResolutionKernelError::new(
                ContextResolutionKernelErrorKind::AuthorityRefused,
                "HCM publication challenge is not byte-identical JCS",
            ),
        );
    }
    match str_field(challenge, "operation_id") {
        Some(op) => Ok(hcm_authorized_outer_hex(op.as_str())),
        None => Ok(None),
    }
}


// ---------------------------------------------------------------------------
// Authority admission
// ---------------------------------------------------------------------------

/// The fingerprints that identify a pending authority capsule and the registry transition that
/// published it.
#[derive(Clone, Debug, PartialEq, Eq)]
pub struct AuthorityCapsuleIdentityV1 {
    pub outer_artifact_fingerprint: String,
    pub declaration_byte_fingerprint: String,
    pub payload_byte_fingerprint: String,
    pub semantic_binding_fingerprint: String,
    pub registry_transition_fingerprint: String,
}

/// Two capsule identities agree in all five fingerprints.
pub open spec fn capsule_identities_agree(a: AuthorityCapsuleIdentityV1, b: AuthorityCapsuleIdentityV1) -> bool {
    &&& a.outer_artifact_fingerprint@ == b.outer_artifact_fingerprint@
    &&& a.declaration_byte_fingerprint@ == b.declaration_byte_fingerprint@
    &&& a.payload_byte_fingerprint@ == b.payload_byte_fingerprint@
    &&& a.semantic_binding_fingerprint@ == b.semantic_binding_fingerprint@
    &&& a.registry_transition_fingerprint@ == b.registry_transition_fingerprint@
}

/// How an admission proceeds: with the admission cached for the subject, or with a fresh one.
#[derive(Clone, Copy, Debug, PartialEq, Eq, Structural)]
pub enum AuthorityAdmissionStepV1 {
    UseCached,
    AdmitFresh,
}

/// Decides how an authority use for a subject is admitted. A subject reference already admitted
/// must carry the same fingerprint as before, and then its cached admission is used; otherwise
/// the current authority must still be the snapshot the resolver was opened on, capsule and
/// registry transition alike.
pub fn authority_admission_step(
    cached_subject_fingerprint: Option<&str>,
    subject_fingerprint: &str,
    current: &AuthorityCapsuleIdentityV1,
    snapshot: &AuthorityCapsuleIdentityV1,
) -> (r: Result<AuthorityAdmissionStepV1, ContextResolutionKernelError>)
    ensures
        match cached_subject_fingerprint {
            Some(f) => if f@ == subject_fingerprint@ {
                r == Ok::<AuthorityAdmissionStepV1, ContextResolutionKernelError>(AuthorityAdmissionStepV1::UseCached)
            } else {
                r matches Err(e) && e.error_kind() == ContextResolutionKernelErrorKind::ReplayMismatch
                    && e.error_detail() == "authority subject reference was reused with changed bytes"@
            },
            None => if capsule_identities_agree(*current, *snapshot) {
                r == Ok::<AuthorityAdmissionStepV1, ContextResolutionKernelError>(AuthorityAdmissionStepV1::AdmitFresh)
            } else {
                r matches Err(e) && e.error_kind() == ContextResolutionKernelErrorKind::StaleAuthority
                    && e.error_detail() == "context resolution authority binding changed"@
            },
        },
{
    match cached_subject_fingerprint {
        Some(f) => {
            if text_equal(f, subject_fingerprint) {
                Ok(AuthorityAdmissionStepV1::UseCached)
            } else {
                Err(
                    ContextResolutionKernelError::new(
                        ContextResolutionKernelErrorKind::ReplayMismatch,
                        "authority subject reference was reused with changed bytes",
                    ),
                )
            }
        },
        None => {
            if text_equal(current.outer_artifact_fingerprint.as_str(), snapshot.outer_artifact_fingerprint.as_str())
                && text_equal(
                current.declaration_byte_fingerprint.as_str(),
                snapshot.declaration_byte_fingerprint.as_str(),
            ) && text_equal(current.payload_byte_fingerprint.as_str(), snapshot.payload_byte_fingerprint.as_str())
                && text_equal(
                current.semantic_binding_fingerprint.as_str(),
                snapshot.semantic_binding_fingerprint.as_str(),
            ) && text_equal(
                current.registry_transition_fingerprint.as_str(),
                snapshot.registry_transition_fingerprint.as_str(),
            ) {
                Ok(AuthorityAdmissionStepV1::AdmitFresh)
            } else {
                Err(
                    ContextResolutionKernelError::new(
                        ContextResolutionKernelErrorKind::StaleAuthority,
                        "context resolution authority binding changed",
                    ),
                )
            }
        },
    }
}

fn text_equal(a: &str, b: &str) -> (r: bool)
    ensures
        r == (a@ == b@),
{
    chars_eq(&chars_of(a), &chars_of(b))
}

// ---------------------------------------------------------------------------
// Publication gaps
// ---------------------------------------------------------------------------

/// The authenticator assertion that a registry head transition names, when it is a mapping
/// update that names one by reference and fingerprint; no other transition can leave an
/// authorized publication behind.
pub open spec fn publication_assertion(transition: JsonValue) -> Option<(Seq<char>, Seq<char>)> {
    if str_at(transition, "operation"@) == Some("update_mapping"@) {
        match (str_at(transition, "authorization_ref"@), str_at(transition, "authorization_fingerprint"@)) {
            (Some(r), Some(f)) => Some((r, f)),
            _ => None,
        }
    } else {
        None
    }
}

/// The reference and fingerprint of the authenticator assertion that a registry head
/// transition names, if it is a mapping update that names one.
pub fn publication_assertion_ref(transition: &JsonValue) -> (r: Option<(String, String)>)
    ensures
        match publication_assertion(*transition) {
            Some((a, b)) => r matches Some((x, y)) && x@ == a && y@ == b,
            None => r is None,
        },
{
    let is_update = match str_field(transition, "operation") {
        Some(op) => text_equal(op.as_str(), "update_mapping"),
        None => false,
    };
    if !is_update {
        return None;
    }
    match (str_field(transition, "authorization_ref"), str_field(transition, "authorization_fingerprint")) {
        (Some(r), Some(f)) => Some((r.clone(), f.clone())),
        _ => None,
    }
}

/// A publication quarantine record.
#[derive(Debug)]
pub struct PublicationQuarantineRecordV1 {
    pub repository_identity_fingerprint: JsonValue,
    pub result_registry_state_ref: String,
    pub result_registry_state_fingerprint: String,
    pub result_transition_ref: String,
    pub result_transition_fingerprint: String,
    pub outer_artifact_fingerprint: String,
    pub observed_canonical_artifact_fingerprint: Option<String>,
    pub candidate_ref: Option<String>,
    pub candidate_fingerprint: Option<String>,
    pub idempotency_key: String,
    pub journal_transaction_id: Option<String>,
    pub phase: String,
    pub reason: String,
    pub record_fingerprint: String,
}

/// The fingerprint preimage of a quarantine record: every member but its fingerprint, with an
/// open resolution and no result transaction.
pub open spec fn quarantine_preimage_json(r: PublicationQuarantineRecordV1) -> Seq<char> {
    json_object(
        seq![
            json_member("schema_id"@, json_string("handbook.context-resolution-publication-quarantine"@)),
            json_member("schema_version"@, json_string("1.0"@)),
            json_member(
                "repository_identity_fingerprint"@,
                crate::charter_runtime_vectors::value_text(r.repository_identity_fingerprint),
            ),
            json_member("result_registry_state_ref"@, json_string(r.result_registry_state_ref@)),
            json_member("result_registry_state_fingerprint"@, json_string(r.result_registry_state_fingerprint@)),
            json_member("result_transition_ref"@, json_string(r.result_transition_ref@)),
            json_member("result_transition_fingerprint"@, json_string(r.result_transition_fingerprint@)),
            json_member("outer_artifact_fingerprint"@, json_string(r.outer_artifact_fingerprint@)),
            json_member(
                "observed_canonical_artifact_fingerprint"@,
                json_opt_string(opt_text(r.observed_canonical_artifact_fingerprint)),
            ),
            json_member("candidate_ref"@, json_opt_string(opt_text(r.candidate_ref))),
            json_member("candidate_fingerprint"@, json_opt_string(opt_text(r.candidate_fingerprint))),
            json_member("idempotency_key"@, json_string(r.idempotency_key@)),
            json_member("journal_transaction_id"@, json_opt_string(opt_text(r.journal_transaction_id))),
            json_member("phase"@, json_string(r.phase@)),
            json_member("reason"@, json_string(r.reason@)),
            json_member("resolution"@, json_string("open"@)),
            json_member("result_transaction_ref"@, json_null()),
            json_member("result_transaction_fingerprint"@, json_null()),
        ],
    )
}

#[verifier::rlimit(60)]
#[verifier::spinoff_prover]
fn quarantine_preimage_text(record: &PublicationQuarantineRecordV1) -> (t: Vec<char>)
    ensures
        t@ == quarantine_preimage_json(*record),
{
    let mut members: Vec<Vec<char>> = Vec::new();
    members.push(member_text("schema_id", json_str("handbook.context-resolution-publication-quarantine")));
    members.push(member_text("schema_version", json_str("1.0")));
    members.push(member_text("repository_identity_fingerprint", value_text_of(&record.repository_identity_fingerprint)));
    members.push(member_text("result_registry_state_ref", json_str(record.result_registry_state_ref.as_str())));
    members.push(member_text("result_registry_state_fingerprint", json_str(record.result_registry_state_fingerprint.as_str())));
    members.push(member_text("result_transition_ref", json_str(record.result_transition_ref.as_str())));
    members.push(member_text("result_transition_fingerprint", json_str(record.result_transition_fingerprint.as_str())));
    members.push(member_text("outer_artifact_fingerprint", json_str(record.outer_artifact_fingerprint.as_str())));
    members.push(member_text("observed_canonical_artifact_fingerprint", opt_string_text(&record.observed_canonical_artifact_fingerprint)));
    members.push(member_text("candidate_ref", opt_string_text(&record.candidate_ref)));
    members.push(member_text("candidate_fingerprint", opt_string_text(&record.candidate_fingerprint)));
    members.push(member_text("idempotency_key", json_str(record.idempotency_key.as_str())));
    members.push(member_text("journal_transaction_id", opt_string_text(&record.journal_transaction_id)));
    members.push(member_text("phase", json_str(record.phase.as_str())));
    members.push(member_text("reason", json_str(record.reason.as_str())));
    members.push(member_text("resolution", json_str("open")));
    members.push(member_text("result_transaction_ref", null_text()));
    members.push(member_text("result_transaction_fingerprint", null_text()));
    let t = object_text(&members);
    assert(views(members@) =~= seq![
        json_member("schema_id"@, json_string("handbook.context-resolution-publication-quarantine"@)),
        json_member("schema_version"@, json_string("1.0"@)),
        json_member(
            "repository_identity_fingerprint"@,
            crate::charter_runtime_vectors::value_text(record.repository_identity_fingerprint),
        ),
        json_member("result_registry_state_ref"@, json_string(record.result_registry_state_ref@)),
        json_member("result_registry_state_fingerprint"@, json_string(record.result_registry_state_fingerprint@)),
        json_member("result_transition_ref"@, json_string(record.result_transition_ref@)),
        json_member("result_transition_fingerprint"@, json_string(record.result_transition_fingerprint@)),
        json_member("outer_artifact_fingerprint"@, json_string(record.outer_artifact_fingerprint@)),
        json_member(
            "observed_canonical_artifact_fingerprint"@,
            json_opt_string(opt_text(record.observed_canonical_artifact_fingerprint)),
        ),
        json_member("candidate_ref"@, json_opt_string(opt_text(record.candidate_ref))),
        json_member("candidate_fingerprint"@, json_opt_string(opt_text(record.candidate_fingerprint))),
        json_member("idempotency_key"@, json_string(record.idempotency_key@)),
        json_member("journal_transaction_id"@, json_opt_string(opt_text(record.journal_transaction_id))),
        json_member("phase"@, json_string(record.phase@)),
        json_member("reason"@, json_string(record.reason@)),
        json_member("resolution"@, json_string("open"@)),
        json_member("result_transaction_ref"@, json_null()),
        json_member("result_transaction_fingerprint"@, json_null()),
    ]);
    t
}

/// Builds the quarantine record of an authorized publication gap: the registry head it was
/// found at, the authorized outer artifact and its idempotency key `hcm32crpub_` and its hex,
/// the candidate and journal transaction where there are ones, the phase and reason, and the
/// fingerprint of all that.
#[verifier::rlimit(40)]
pub fn build_publication_quarantine(
    repository_identity_fingerprint: JsonValue,
    result_registry_state_ref: &str,
    result_registry_state_fingerprint: &str,
    result_transition_ref: &str,
    result_transition_fingerprint: &str,
    authorized_outer_fingerprint: &str,
    observed_canonical_artifact_fingerprint: Option<String>,
    candidate_ref: Option<String>,
    candidate_fingerprint: Option<String>,
    journal_transaction_id: Option<String>,
    phase: &str,
    reason: &str,
) -> (r: Result<PublicationQuarantineRecordV1, ContextResolutionKernelError>)
    ensures
        r matches Err(e) ==> e.error_kind() == ContextResolutionKernelErrorKind::AuthorityRefused,
        !has_prefix(authorized_outer_fingerprint@, "sha256:"@) ==> (r matches Err(e) && e.error_detail()
            == "authorized HCM fingerprint is malformed"@),
        r matches Ok(q) ==> {
            &&& has_prefix(authorized_outer_fingerprint@, "sha256:"@)
            &&& q.repository_identity_fingerprint == repository_identity_fingerprint
            &&& q.result_registry_state_ref@ == result_registry_state_ref@
            &&& q.result_registry_state_fingerprint@ == result_registry_state_fingerprint@
            &&& q.result_transition_ref@ == result_transition_ref@
            &&& q.result_transition_fingerprint@ == result_transition_fingerprint@
            &&& q.outer_artifact_fingerprint@ == authorized_outer_fingerprint@
            &&& opt_text(q.observed_canonical_artifact_fingerprint) == opt_text(observed_canonical_artifact_fingerprint)
            &&& opt_text(q.candidate_ref) == opt_text(candidate_ref)
            &&& opt_text(q.candidate_fingerprint) == opt_text(candidate_fingerprint)
            &&& opt_text(q.journal_transaction_id) == opt_text(journal_transaction_id)
            &&& q.idempotency_key@ == "hcm32crpub_"@ + authorized_outer_fingerprint@.skip(7)
            &&& q.phase@ == phase@
            &&& q.reason@ == reason@
            &&& json_fingerprint(quarantine_preimage_json(q)) == Some(q.record_fingerprint@)
        },
        has_prefix(authorized_outer_fingerprint@, "sha256:"@) && r is Err ==> forall|q: PublicationQuarantineRecordV1|
            q.repository_identity_fingerprint == repository_identity_fingerprint && q.result_registry_state_ref@
                == result_registry_state_ref@ && q.result_registry_state_fingerprint@
                == result_registry_state_fingerprint@ && q.result_transition_ref@ == result_transition_ref@
                && q.result_transition_fingerprint@ == result_transition_fingerprint@
                && q.outer_artifact_fingerprint@ == authorized_outer_fingerprint@ && opt_text(
                q.observed_canonical_artifact_fingerprint,
            ) == opt_text(observed_canonical_artifact_fingerprint) && opt_text(q.candidate_ref) == opt_text(
                candidate_ref,
            ) && opt_text(q.candidate_fingerprint) == opt_text(candidate_fingerprint) && opt_text(
                q.journal_transaction_id,
            ) == opt_text(journal_transaction_id) && q.idempotency_key@ == "hcm32crpub_"@
                + authorized_outer_fingerprint@.skip(7) && q.phase@ == phase@ && q.reason@ == reason@
                ==> #[trigger] json_fingerprint(quarantine_preimage_json(q)) is None,
{
    let outer = chars_of(authorized_outer_fingerprint);
    let prefix = chars_of("sha256:");
    proof {
        reveal_strlit("sha256:");
    }
    if !starts_with(&outer, &prefix) {
        return Err(
            ContextResolutionKernelError::new(
                ContextResolutionKernelErrorKind::AuthorityRefused,
                "authorized HCM fingerprint is malformed",
            ),
        );
    }
    let mut key = chars_of("hcm32crpub_");
    let mut hex = slice_chars(&outer, 7, outer.len());
    assert(hex@ =~= authorized_outer_fingerprint@.skip(7));
    key.append(&mut hex);
    let mut record = PublicationQuarantineRecordV1 {
        repository_identity_fingerprint,
        result_registry_state_ref: result_registry_state_ref.to_owned(),
        result_registry_state_fingerprint: result_registry_state_fingerprint.to_owned(),
        result_transition_ref: result_transition_ref.to_owned(),
        result_transition_fingerprint: result_transition_fingerprint.to_owned(),
        outer_artifact_fingerprint: authorized_outer_fingerprint.to_owned(),
        observed_canonical_artifact_fingerprint,
        candidate_ref,
        candidate_fingerprint,
        idempotency_key: string_of(&key),
        journal_transaction_id,
        phase: phase.to_owned(),
        reason: reason.to_owned(),
        record_fingerprint: String::new(),
    };
    let preimage = quarantine_preimage_text(&record);
    match fingerprint_json(&preimage) {
        Some(f) => {
            let ghost before = record;
            record.record_fingerprint = string_of(&f);
            assert(quarantine_preimage_json(record) =~= quarantine_preimage_json(before));
            Ok(record)
        },
        None => {
            assert forall|q: PublicationQuarantineRecordV1|
                q.repository_identity_fingerprint == record.repository_identity_fingerprint && q.result_registry_state_ref@
                    == record.result_registry_state_ref@ && q.result_registry_state_fingerprint@
                    == record.result_registry_state_fingerprint@ && q.result_transition_ref@ == record.result_transition_ref@
                    && q.result_transition_fingerprint@ == record.result_transition_fingerprint@
                    && q.outer_artifact_fingerprint@ == record.outer_artifact_fingerprint@ && opt_text(
                    q.observed_canonical_artifact_fingerprint,
                ) == opt_text(record.observed_canonical_artifact_fingerprint) && opt_text(q.candidate_ref) == opt_text(
                    record.candidate_ref,
                ) && opt_text(q.candidate_fingerprint) == opt_text(record.candidate_fingerprint) && opt_text(
                    q.journal_transaction_id,
                ) == opt_text(record.journal_transaction_id) && q.idempotency_key@ == record.idempotency_key@
                    && q.phase@ == record.phase@ && q.reason@ == record.reason@
                    implies #[trigger] json_fingerprint(quarantine_preimage_json(q)) is None by {
                assert(quarantine_preimage_json(q) =~= quarantine_preimage_json(record));
            }
            Err(
                ContextResolutionKernelError::new(
                    ContextResolutionKernelErrorKind::AuthorityRefused,
                    "HCM quarantine could not be fingerprinted",
                ),
            )
        },
    }
}

/// The refusal that a recorded publication quarantine answers with.
pub fn publication_quarantine_refusal(reason: &str) -> (r: ContextResolutionKernelError)
    ensures
        r.error_kind() == ContextResolutionKernelErrorKind::AuthorityRefused,
        r.error_detail() == "HCM publication is authorized without a committed generic journal: "@ + reason@,
{
    let mut text = chars_of("HCM publication is authorized without a committed generic journal: ");
    let mut tail = chars_of(reason);
    text.append(&mut tail);
    ContextResolutionKernelError::new(ContextResolutionKernelErrorKind::AuthorityRefused, string_of(&text).as_str())
}

} // verus!
