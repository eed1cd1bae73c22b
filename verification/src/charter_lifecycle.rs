use vstd::prelude::*;
use crate::digest::{is_fingerprint, is_fingerprint_chars};
use crate::json::{
    fingerprint_json, json_fingerprint, json_member, json_object, json_string, json_string_array,
    member_text, object_text, string_array_text, json_str,
};
use crate::text::{
    lemma_seq_lt_irreflexive, lemma_seq_lt_total, lemma_seq_lt_transitive,
    chars_lt, chars_of, insert_sorted, insert_sorted_unique, lemma_ordered_set,
    lemma_sorted_texts_unique, ordered_set, seq_lt, sorted_texts, string_of, string_views,
    text_sorted, text_strictly_sorted, views,
};

verus! {

/// The lifecycle state of the canonical Charter.
#[derive(Clone, Copy, Debug, PartialEq, Eq, Structural)]
pub enum CharterLifecycleState {
    Current,
    ReviewRequired,
    ReassessmentRequired,
}

/// What a lifecycle event reports.
#[derive(Clone, Copy, Debug, PartialEq, Eq, Structural)]
pub enum CharterLifecycleEventKind {
    Review,
    ProductionPostureChanged,
    TrustBoundaryChanged,
}

/// An event that may open a lifecycle observation.
#[derive(Clone, Debug, PartialEq, Eq)]
pub struct CharterLifecycleEvent {
    pub event_fingerprint: String,
    pub basis_artifact_fingerprint: String,
    pub kind: CharterLifecycleEventKind,
    pub evidence_ref: String,
    pub evidence_fingerprint: String,
}

/// An active observation, with the coverage that it reopens.
#[derive(Clone, Debug, PartialEq, Eq)]
pub struct CharterLifecycleObservation {
    pub event_fingerprint: String,
    pub basis_artifact_fingerprint: String,
    pub kind: CharterLifecycleEventKind,
    pub evidence_ref: String,
    pub evidence_fingerprint: String,
    pub reopened_coverage_ids: Vec<String>,
}

/// The outcome of applying a batch of events.
#[derive(Clone, Debug, PartialEq, Eq)]
pub struct CharterLifecycleTransition {
    pub prior_state: CharterLifecycleState,
    pub result_state: CharterLifecycleState,
    pub new_observations: Vec<CharterLifecycleObservation>,
    pub active_observations: Vec<CharterLifecycleObservation>,
    pub reopened_coverage_ids: Vec<String>,
    pub state_fingerprint: String,
}

#[derive(Clone, Copy, Debug, PartialEq, Eq, Structural)]
pub enum CharterLifecycleErrorKind {
    InvalidEvent,
    StaleBasis,
    ClearanceIncomplete,
    FingerprintFailed,
}

#[derive(Clone, Debug, PartialEq, Eq)]
pub struct CharterLifecycleError {
    kind: CharterLifecycleErrorKind,
    detail: String,
}

impl CharterLifecycleError {
    /// The kind of the refusal.
    pub closed spec fn error_kind(&self) -> CharterLifecycleErrorKind {
        self.kind
    }

    /// The text that explains the refusal.
    pub closed spec fn error_detail(&self) -> Seq<char> {
        self.detail@
    }

    fn new(kind: CharterLifecycleErrorKind, detail: &str) -> (r: Self)
        ensures
            r.kind == kind,
            r.detail@ == detail@,
    {
        Self { kind, detail: detail.to_owned() }
    }

    pub fn kind(&self) -> (r: CharterLifecycleErrorKind)
        ensures
            r == self.error_kind(),
    {
        self.kind
    }

    pub fn detail(&self) -> (r: &str)
        ensures
            r@ == self.error_detail(),
    {
        self.detail.as_str()
    }
}

/// An event as plain values.
pub struct LifecycleEventView {
    pub event_fingerprint: Seq<char>,
    pub basis_artifact_fingerprint: Seq<char>,
    pub kind: CharterLifecycleEventKind,
    pub evidence_ref: Seq<char>,
    pub evidence_fingerprint: Seq<char>,
}

/// An observation as plain values.
pub struct LifecycleObservationView {
    pub event_fingerprint: Seq<char>,
    pub basis_artifact_fingerprint: Seq<char>,
    pub kind: CharterLifecycleEventKind,
    pub evidence_ref: Seq<char>,
    pub evidence_fingerprint: Seq<char>,
    pub reopened_coverage_ids: Seq<Seq<char>>,
}

impl View for CharterLifecycleEvent {
    type V = LifecycleEventView;

    open spec fn view(&self) -> LifecycleEventView {
        LifecycleEventView {
            event_fingerprint: self.event_fingerprint@,
            basis_artifact_fingerprint: self.basis_artifact_fingerprint@,
            kind: self.kind,
            evidence_ref: self.evidence_ref@,
            evidence_fingerprint: self.evidence_fingerprint@,
        }
    }
}

impl View for CharterLifecycleObservation {
    type V = LifecycleObservationView;

    open spec fn view(&self) -> LifecycleObservationView {
        LifecycleObservationView {
            event_fingerprint: self.event_fingerprint@,
            basis_artifact_fingerprint: self.basis_artifact_fingerprint@,
            kind: self.kind,
            evidence_ref: self.evidence_ref@,
            evidence_fingerprint: self.evidence_fingerprint@,
            reopened_coverage_ids: string_views(self.reopened_coverage_ids@),
        }
    }
}

/// The views of a sequence of events.
pub open spec fn event_views(s: Seq<CharterLifecycleEvent>) -> Seq<LifecycleEventView> {
    s.map_values(|e: CharterLifecycleEvent| e@)
}

/// The views of a sequence of observations.
pub open spec fn observation_views(s: Seq<CharterLifecycleObservation>) -> Seq<LifecycleObservationView> {
    s.map_values(|o: CharterLifecycleObservation| o@)
}

/// Posture and trust-boundary changes come before reviews.
pub open spec fn precedence(kind: CharterLifecycleEventKind) -> int {
    match kind {
        CharterLifecycleEventKind::Review => 1,
        _ => 0,
    }
}

/// The coverage that an event of this kind reopens.
pub open spec fn coverage_reopened_by(kind: CharterLifecycleEventKind) -> Seq<Seq<char>> {
    match kind {
        CharterLifecycleEventKind::Review => Seq::empty(),
        CharterLifecycleEventKind::ProductionPostureChanged => seq![
            "operational_reality.production_state"@,
        ],
        CharterLifecycleEventKind::TrustBoundaryChanged => seq!["governance.exception_policy"@],
    }
}

/// The Unicode `White_Space` characters, as `char::is_whitespace` counts them.
pub open spec fn is_unicode_whitespace(c: char) -> bool {
    let n = c as int;
    (9 <= n <= 13) || n == 32 || n == 0x85 || n == 0xA0 || n == 0x1680 || (0x2000 <= n <= 0x200A)
        || n == 0x2028 || n == 0x2029 || n == 0x202F || n == 0x205F || n == 0x3000
}

/// A text that is empty once trimmed: all of its characters are whitespace.
pub open spec fn is_blank(s: Seq<char>) -> bool {
    forall|i: int| 0 <= i < s.len() ==> is_unicode_whitespace(#[trigger] s[i])
}

/// An event with well-formed identity, basis and evidence fingerprints and a non-blank
/// evidence reference.
pub open spec fn event_valid(e: LifecycleEventView) -> bool {
    is_fingerprint(e.event_fingerprint) && is_fingerprint(e.basis_artifact_fingerprint)
        && is_fingerprint(e.evidence_fingerprint) && !is_blank(e.evidence_ref)
}

/// An event whose basis differs from that of the first active observation.
pub open spec fn event_stale(e: LifecycleEventView, active: Seq<LifecycleObservationView>) -> bool {
    active.len() > 0 && active[0].basis_artifact_fingerprint != e.basis_artifact_fingerprint
}

/// The refusal of a batch: events are checked in order, each for validity and then for its
/// basis; the first that fails decides.
pub open spec fn events_error(
    events: Seq<LifecycleEventView>,
    active: Seq<LifecycleObservationView>,
) -> Option<CharterLifecycleErrorKind>
    decreases events.len(),
{
    if events.len() == 0 {
        None
    } else if !event_valid(events[0]) {
        Some(CharterLifecycleErrorKind::InvalidEvent)
    } else if event_stale(events[0], active) {
        Some(CharterLifecycleErrorKind::StaleBasis)
    } else {
        events_error(events.drop_first(), active)
    }
}

/// The observation that an event opens.
pub open spec fn observation_of(e: LifecycleEventView) -> LifecycleObservationView {
    LifecycleObservationView {
        event_fingerprint: e.event_fingerprint,
        basis_artifact_fingerprint: e.basis_artifact_fingerprint,
        kind: e.kind,
        evidence_ref: e.evidence_ref,
        evidence_fingerprint: e.evidence_fingerprint,
        reopened_coverage_ids: coverage_reopened_by(e.kind),
    }
}

/// The event fingerprints of observations.
pub open spec fn observation_fingerprints(s: Seq<LifecycleObservationView>) -> Seq<Seq<char>> {
    s.map_values(|o: LifecycleObservationView| o.event_fingerprint)
}

/// Batch order: by precedence, then by event fingerprint.
pub open spec fn key_lt(p1: int, f1: Seq<char>, p2: int, f2: Seq<char>) -> bool {
    p1 < p2 || (p1 == p2 && seq_lt(f1, f2))
}

/// Observations in strictly increasing batch order.
pub open spec fn observations_ordered(s: Seq<LifecycleObservationView>) -> bool {
    forall|a: int, b: int|
        0 <= a < b < s.len() ==> key_lt(
            precedence(#[trigger] s[a].kind),
            s[a].event_fingerprint,
            precedence(#[trigger] s[b].kind),
            s[b].event_fingerprint,
        )
}

/// Among the first `n` events, event `i` is the one that batch order puts first among those
/// with its fingerprint: lowest precedence, and of those the earliest.
pub open spec fn first_of_fingerprint(events: Seq<LifecycleEventView>, i: int, n: int) -> bool {
    &&& 0 <= i < n <= events.len()
    &&& forall|j: int|
        0 <= j < n && #[trigger] events[j].event_fingerprint == events[i].event_fingerprint ==> (
        precedence(events[i].kind) < precedence(events[j].kind) || (precedence(events[i].kind)
            == precedence(events[j].kind) && i <= j))
}

/// Event `i` opens a new observation: it is the first of its fingerprint in batch order and
/// its fingerprint is not already active.
pub open spec fn is_new_event(
    events: Seq<LifecycleEventView>,
    active: Seq<LifecycleObservationView>,
    i: int,
) -> bool {
    first_of_fingerprint(events, i, events.len() as int) && !observation_fingerprints(
        active,
    ).contains(events[i].event_fingerprint)
}

/// The observation `o` is opened by some new event of the batch.
pub open spec fn opened_by_batch(
    events: Seq<LifecycleEventView>,
    active: Seq<LifecycleObservationView>,
    o: LifecycleObservationView,
) -> bool {
    exists|i: int| is_new_event(events, active, i) && o == observation_of(events[i])
}

/// `new` is the list of observations that a batch opens: one per fingerprint that is not yet
/// active, from the first event of that fingerprint in batch order, in batch order.
pub open spec fn new_observations_of(
    new: Seq<LifecycleObservationView>,
    events: Seq<LifecycleEventView>,
    active: Seq<LifecycleObservationView>,
) -> bool {
    &&& observations_ordered(new)
    &&& forall|k: int| 0 <= k < new.len() ==> #[trigger] opened_by_batch(events, active, new[k])
    &&& forall|i: int| is_new_event(events, active, i) ==> new.contains(observation_of(#[trigger] events[i]))
}

/// The state that active observations make visible, if any.
pub open spec fn visible_state_of(active: Seq<LifecycleObservationView>) -> Option<CharterLifecycleState> {
    if exists|k: int|
        0 <= k < active.len() && (#[trigger] active[k].kind
            == CharterLifecycleEventKind::ProductionPostureChanged || active[k].kind
            == CharterLifecycleEventKind::TrustBoundaryChanged) {
        Some(CharterLifecycleState::ReassessmentRequired)
    } else if exists|k: int|
        0 <= k < active.len() && #[trigger] active[k].kind == CharterLifecycleEventKind::Review {
        Some(CharterLifecycleState::ReviewRequired)
    } else {
        None
    }
}

/// The state after a batch: the visible state, or the prior one where nothing is active.
pub open spec fn result_state_of(
    prior: CharterLifecycleState,
    active: Seq<LifecycleObservationView>,
) -> CharterLifecycleState {
    match visible_state_of(active) {
        Some(s) => s,
        None => prior,
    }
}

/// The lifecycle state after a batch: reassessment is required exactly when some active
/// observation is a production-posture or trust-boundary change; otherwise review is required
/// exactly when some active observation is a review; with nothing active the prior state stands.
pub proof fn lemma_result_state(prior: CharterLifecycleState, active: Seq<LifecycleObservationView>)
    ensures
        (exists|k: int| 0 <= k < active.len() && (#[trigger] active[k]).kind != CharterLifecycleEventKind::Review)
            ==> result_state_of(prior, active) == CharterLifecycleState::ReassessmentRequired,
        active.len() > 0 && (forall|k: int| 0 <= k < active.len() ==> (#[trigger] active[k]).kind
            == CharterLifecycleEventKind::Review) ==> result_state_of(prior, active)
            == CharterLifecycleState::ReviewRequired,
        active.len() == 0 ==> result_state_of(prior, active) == prior,
{
    if exists|k: int| 0 <= k < active.len() && (#[trigger] active[k]).kind != CharterLifecycleEventKind::Review {
        let k = choose|k: int| 0 <= k < active.len() && (#[trigger] active[k]).kind != CharterLifecycleEventKind::Review;
        assert(active[k].kind == CharterLifecycleEventKind::ProductionPostureChanged || active[k].kind
            == CharterLifecycleEventKind::TrustBoundaryChanged);
    }
    if active.len() > 0 && (forall|k: int| 0 <= k < active.len() ==> (#[trigger] active[k]).kind
        == CharterLifecycleEventKind::Review) {
        assert(active[0].kind == CharterLifecycleEventKind::Review);
        assert(!exists|k: int|
            0 <= k < active.len() && (#[trigger] active[k].kind
                == CharterLifecycleEventKind::ProductionPostureChanged || active[k].kind
                == CharterLifecycleEventKind::TrustBoundaryChanged));
    }
}

/// Every coverage ID that some active observation reopens.
pub open spec fn reopened_union(active: Seq<LifecycleObservationView>) -> Set<Seq<char>> {
    Set::new(
        |id: Seq<char>|
            exists|k: int, j: int|
                0 <= k < active.len() && 0 <= j < active[k].reopened_coverage_ids.len()
                    && #[trigger] active[k].reopened_coverage_ids[j] == id,
    )
}

/// The serialized name of a lifecycle state.
pub open spec fn state_name(s: CharterLifecycleState) -> Seq<char> {
    match s {
        CharterLifecycleState::Current => "current"@,
        CharterLifecycleState::ReviewRequired => "review_required"@,
        CharterLifecycleState::ReassessmentRequired => "reassessment_required"@,
    }
}

/// The JSON whose fingerprint identifies a lifecycle state.
pub open spec fn state_json(
    prior: CharterLifecycleState,
    result: CharterLifecycleState,
    fingerprints: Seq<Seq<char>>,
    reopened: Seq<Seq<char>>,
) -> Seq<char> {
    json_object(
        seq![
            json_member("prior_state"@, json_string(state_name(prior))),
            json_member("result_state"@, json_string(state_name(result))),
            json_member("active_observation_fingerprints"@, json_string_array(fingerprints)),
            json_member("reopened_coverage_ids"@, json_string_array(reopened)),
        ],
    )
}

/// The state JSON of a batch whose active observations are `active`: active fingerprints in
/// text order, reopened coverage as an ordered set.
pub open spec fn transition_state_json(
    prior: CharterLifecycleState,
    active: Seq<LifecycleObservationView>,
) -> Seq<char> {
    state_json(
        prior,
        result_state_of(prior, active),
        sorted_texts(observation_fingerprints(active)),
        ordered_set(reopened_union(active)),
    )
}

fn event_precedence(kind: CharterLifecycleEventKind) -> (r: u8)
    ensures
        r == precedence(kind),
{
    match kind {
        CharterLifecycleEventKind::ProductionPostureChanged
        | CharterLifecycleEventKind::TrustBoundaryChanged => 0,
        CharterLifecycleEventKind::Review => 1,
    }
}

fn reopened_coverage(kind: CharterLifecycleEventKind) -> (r: Vec<String>)
    ensures
        string_views(r@) == coverage_reopened_by(kind),
{
    let mut out: Vec<String> = Vec::new();
    match kind {
        CharterLifecycleEventKind::Review => {},
        CharterLifecycleEventKind::ProductionPostureChanged => {
            out.push("operational_reality.production_state".to_owned());
        },
        CharterLifecycleEventKind::TrustBoundaryChanged => {
            out.push("governance.exception_policy".to_owned());
        },
    }
    assert(string_views(out@) =~= coverage_reopened_by(kind));
    out
}

fn unicode_whitespace(c: char) -> (r: bool)
    ensures
        r == is_unicode_whitespace(c),
{
    ('\u{9}' <= c && c <= '\u{d}') || c == ' ' || c == '\u{85}' || c == '\u{a0}' || c == '\u{1680}'
        || ('\u{2000}' <= c && c <= '\u{200a}') || c == '\u{2028}' || c == '\u{2029}' || c
        == '\u{202f}' || c == '\u{205f}' || c == '\u{3000}'
}

/// Whether a text is empty once trimmed of whitespace.
pub fn is_blank_text(s: &str) -> (r: bool)
    ensures
        r == is_blank(s@),
{
    let chars = chars_of(s);
    let mut i: usize = 0;
    while i < chars.len()
        invariant
            chars@ == s@,
            i <= chars.len(),
            forall|j: int| 0 <= j < i ==> is_unicode_whitespace(#[trigger] chars@[j]),
        decreases chars.len() - i,
    {
        if !unicode_whitespace(chars[i]) {
            return false;
        }
        i = i + 1;
    }
    true
}

fn validate_event(event: &CharterLifecycleEvent) -> (r: Result<(), CharterLifecycleError>)
    ensures
        r is Ok <==> event_valid(event@),
        r matches Err(e) ==> e.error_kind() == CharterLifecycleErrorKind::InvalidEvent,
{
    if !is_fingerprint_chars(&chars_of(event.event_fingerprint.as_str()))
        || !is_fingerprint_chars(&chars_of(event.basis_artifact_fingerprint.as_str()))
        || !is_fingerprint_chars(&chars_of(event.evidence_fingerprint.as_str()))
        || is_blank_text(event.evidence_ref.as_str())
    {
        return Err(
            CharterLifecycleError::new(
                CharterLifecycleErrorKind::InvalidEvent,
                "lifecycle event identity, basis, evidence ref, or evidence fingerprint is invalid",
            ),
        );
    }
    Ok(())
}

fn visible_state(active: &[CharterLifecycleObservation]) -> (r: Option<CharterLifecycleState>)
    ensures
        r == visible_state_of(observation_views(active@)),
{
    let ghost av = observation_views(active@);
    let mut i: usize = 0;
    while i < active.len()
        invariant
            av == observation_views(active@),
            i <= active.len(),
            forall|k: int| 0 <= k < i ==> #[trigger] av[k].kind == CharterLifecycleEventKind::Review,
        decreases active.len() - i,
    {
        if active[i].kind != CharterLifecycleEventKind::Review {
            assert(av[i as int].kind == active@[i as int].kind);
            return Some(CharterLifecycleState::ReassessmentRequired);
        }
        i = i + 1;
    }
    if active.len() > 0 {
        assert(av[0].kind == CharterLifecycleEventKind::Review);
        Some(CharterLifecycleState::ReviewRequired)
    } else {
        None
    }
}

fn state_name_text(state: CharterLifecycleState) -> (r: Vec<char>)
    ensures
        r@ == json_string(state_name(state)),
{
    match state {
        CharterLifecycleState::Current => json_str("current"),
        CharterLifecycleState::ReviewRequired => json_str("review_required"),
        CharterLifecycleState::ReassessmentRequired => json_str("reassessment_required"),
    }
}

fn state_json_text(
    prior: CharterLifecycleState,
    result: CharterLifecycleState,
    fingerprints: &Vec<String>,
    reopened: &Vec<String>,
) -> (r: Vec<char>)
    ensures
        r@ == state_json(prior, result, string_views(fingerprints@), string_views(reopened@)),
{
    let mut members: Vec<Vec<char>> = Vec::new();
    members.push(member_text("prior_state", state_name_text(prior)));
    members.push(member_text("result_state", state_name_text(result)));
    members.push(member_text("active_observation_fingerprints", string_array_text(fingerprints)));
    members.push(member_text("reopened_coverage_ids", string_array_text(reopened)));
    let r = object_text(&members);
    assert(views(members@) =~= seq![
        json_member("prior_state"@, json_string(state_name(prior))),
        json_member("result_state"@, json_string(state_name(result))),
        json_member("active_observation_fingerprints"@, json_string_array(string_views(fingerprints@))),
        json_member("reopened_coverage_ids"@, json_string_array(string_views(reopened@))),
    ]);
    r
}

fn fingerprint_value(json: &Vec<char>) -> (r: Result<String, CharterLifecycleError>)
    ensures
        r matches Ok(f) ==> json_fingerprint(json@) == Some(f@),
        r matches Err(e) ==> json_fingerprint(json@) is None && e.error_kind()
            == CharterLifecycleErrorKind::FingerprintFailed,
{
    match fingerprint_json(json) {
        Some(f) => Ok(string_of(&f)),
        None => Err(
            CharterLifecycleError::new(
                CharterLifecycleErrorKind::FingerprintFailed,
                "lifecycle state fingerprint input could not be canonicalized",
            ),
        ),
    }
}

/// Whether a list of strings holds the given text.
pub fn strings_contain(v: &[String], x: &String) -> (r: bool)
    ensures
        r == string_views(v@).contains(x@),
{
    let mut i: usize = 0;
    while i < v.len()
        invariant
            i <= v.len(),
            forall|j: int| 0 <= j < i ==> v@[j]@ != x@,
        decreases v.len() - i,
    {
        if v[i] == *x {
            assert(string_views(v@)[i as int] == x@);
            return true;
        }
        i = i + 1;
    }
    proof {
        if string_views(v@).contains(x@) {
            let k = choose|k: int| 0 <= k < string_views(v@).len() && string_views(v@)[k] == x@;
            assert(v@[k]@ == x@);
        }
    }
    false
}

fn active_contains(active: &[CharterLifecycleObservation], fingerprint: &String) -> (r: bool)
    ensures
        r == observation_fingerprints(observation_views(active@)).contains(fingerprint@),
{
    let ghost fps = observation_fingerprints(observation_views(active@));
    let mut i: usize = 0;
    while i < active.len()
        invariant
            fps == observation_fingerprints(observation_views(active@)),
            i <= active.len(),
            forall|j: int| 0 <= j < i ==> active@[j].event_fingerprint@ != fingerprint@,
        decreases active.len() - i,
    {
        if active[i].event_fingerprint == *fingerprint {
            assert(fps[i as int] == fingerprint@);
            return true;
        }
        i = i + 1;
    }
    proof {
        if fps.contains(fingerprint@) {
            let k = choose|k: int| 0 <= k < fps.len() && fps[k] == fingerprint@;
            assert(active@[k].event_fingerprint@ == fingerprint@);
        }
    }
    false
}

fn reopened_contains(active: &[CharterLifecycleObservation], id: &String) -> (r: bool)
    ensures
        r == reopened_union(observation_views(active@)).contains(id@),
{
    let ghost av = observation_views(active@);
    let mut i: usize = 0;
    while i < active.len()
        invariant
            av == observation_views(active@),
            i <= active.len(),
            forall|k: int, j: int|
                0 <= k < i && 0 <= j < av[k].reopened_coverage_ids.len() ==> #[trigger] av[k].reopened_coverage_ids[j]
                    != id@,
        decreases active.len() - i,
    {
        if strings_contain(active[i].reopened_coverage_ids.as_slice(), id) {
            proof {
                let ids = string_views(active@[i as int].reopened_coverage_ids@);
                let j = choose|j: int| 0 <= j < ids.len() && ids[j] == id@;
                assert(av[i as int].reopened_coverage_ids[j] == id@);
            }
            return true;
        }
        assert(forall|j: int|
            0 <= j < av[i as int].reopened_coverage_ids.len() ==> av[i as int].reopened_coverage_ids[j]
                == string_views(active@[i as int].reopened_coverage_ids@)[j]);
        i = i + 1;
    }
    false
}

/// Addressing clears the lifecycle: it must name exactly the active observations'
/// fingerprints and re-evaluate exactly the coverage that they reopen.
pub open spec fn clearance_complete(
    active: Seq<LifecycleObservationView>,
    addressed: Seq<Seq<char>>,
    reevaluated: Seq<Seq<char>>,
) -> bool {
    observation_fingerprints(active).to_set() == addressed.to_set() && reopened_union(active)
        == reevaluated.to_set()
}

/// Clears the lifecycle to `Current` when the addressing promotion covers every active
/// observation and exactly the reopened coverage; refuses otherwise.
pub fn address_charter_lifecycle(
    active_observations: &[CharterLifecycleObservation],
    addressed_event_fingerprints: &[String],
    reevaluated_coverage_ids: &[String],
) -> (r: Result<CharterLifecycleState, CharterLifecycleError>)
    ensures
        r is Ok <==> clearance_complete(
            observation_views(active_observations@),
            string_views(addressed_event_fingerprints@),
            string_views(reevaluated_coverage_ids@),
        ),
        r matches Ok(s) ==> s == CharterLifecycleState::Current,
        r matches Err(e) ==> e.error_kind() == CharterLifecycleErrorKind::ClearanceIncomplete,
{
    let ghost av = observation_views(active_observations@);
    let ghost fps = observation_fingerprints(av);
    let ghost addressed = string_views(addressed_event_fingerprints@);
    let ghost reevaluated = string_views(reevaluated_coverage_ids@);
    let mut complete = true;
    let mut i: usize = 0;
    while i < active_observations.len()
        invariant
            av == observation_views(active_observations@),
            fps == observation_fingerprints(av),
            addressed == string_views(addressed_event_fingerprints@),
            reevaluated == string_views(reevaluated_coverage_ids@),
            i <= active_observations.len(),
            complete ==> forall|k: int| 0 <= k < i ==> addressed.contains(#[trigger] fps[k]),
            complete ==> forall|k: int, j: int|
                0 <= k < i && 0 <= j < av[k].reopened_coverage_ids.len() ==> reevaluated.contains(
                    #[trigger] av[k].reopened_coverage_ids[j],
                ),
            !complete ==> !clearance_complete(av, addressed, reevaluated),
        decreases active_observations.len() - i,
    {
        let observation = &active_observations[i];
        if !strings_contain(addressed_event_fingerprints, &observation.event_fingerprint) {
            if complete {
                proof {
                    assert(fps.to_set().contains(fps[i as int]));
                    assert(!addressed.to_set().contains(fps[i as int]));
                }
            }
            complete = false;
        }
        let mut j: usize = 0;
        while j < observation.reopened_coverage_ids.len()
            invariant
                av == observation_views(active_observations@),
                fps == observation_fingerprints(av),
                addressed == string_views(addressed_event_fingerprints@),
                reevaluated == string_views(reevaluated_coverage_ids@),
                i < active_observations.len(),
                observation == &active_observations@[i as int],
                j <= observation.reopened_coverage_ids.len(),
                complete ==> forall|k: int| 0 <= k <= i ==> addressed.contains(#[trigger] fps[k]),
                complete ==> forall|k: int, m: int|
                    ((0 <= k < i && 0 <= m < av[k].reopened_coverage_ids.len()) || (k == i && 0 <= m < j))
                        ==> reevaluated.contains(#[trigger] av[k].reopened_coverage_ids[m]),
                !complete ==> !clearance_complete(av, addressed, reevaluated),
            decreases observation.reopened_coverage_ids.len() - j,
        {
            let id = &observation.reopened_coverage_ids[j];
            if !strings_contain(reevaluated_coverage_ids, id) {
                if complete {
                    proof {
                        assert(av[i as int].reopened_coverage_ids[j as int] == id@);
                        assert(reopened_union(av).contains(id@));
                        assert(!reevaluated.to_set().contains(id@));
                    }
                }
                complete = false;
            }
            proof {
                assert(av[i as int].reopened_coverage_ids[j as int] == id@);
            }
            j = j + 1;
        }
        i = i + 1;
    }
    let mut a: usize = 0;
    while a < addressed_event_fingerprints.len()
        invariant
            av == observation_views(active_observations@),
            fps == observation_fingerprints(av),
            addressed == string_views(addressed_event_fingerprints@),
            reevaluated == string_views(reevaluated_coverage_ids@),
            a <= addressed_event_fingerprints.len(),
            complete ==> forall|k: int| 0 <= k < fps.len() ==> addressed.contains(#[trigger] fps[k]),
            complete ==> forall|k: int, j: int|
                0 <= k < av.len() && 0 <= j < av[k].reopened_coverage_ids.len() ==> reevaluated.contains(
                    #[trigger] av[k].reopened_coverage_ids[j],
                ),
            complete ==> forall|k: int| 0 <= k < a ==> fps.contains(#[trigger] addressed[k]),
            !complete ==> !clearance_complete(av, addressed, reevaluated),
        decreases addressed_event_fingerprints.len() - a,
    {
        if !active_contains(active_observations, &addressed_event_fingerprints[a]) {
            if complete {
                proof {
                    assert(addressed.to_set().contains(addressed[a as int]));
                    assert(!fps.to_set().contains(addressed[a as int]));
                }
            }
            complete = false;
        }
        a = a + 1;
    }
    let mut b: usize = 0;
    while b < reevaluated_coverage_ids.len()
        invariant
            av == observation_views(active_observations@),
            fps == observation_fingerprints(av),
            addressed == string_views(addressed_event_fingerprints@),
            reevaluated == string_views(reevaluated_coverage_ids@),
            b <= reevaluated_coverage_ids.len(),
            complete ==> forall|k: int| 0 <= k < fps.len() ==> addressed.contains(#[trigger] fps[k]),
            complete ==> forall|k: int, j: int|
                0 <= k < av.len() && 0 <= j < av[k].reopened_coverage_ids.len() ==> reevaluated.contains(
                    #[trigger] av[k].reopened_coverage_ids[j],
                ),
            complete ==> forall|k: int| 0 <= k < addressed.len() ==> fps.contains(#[trigger] addressed[k]),
            complete ==> forall|k: int| 0 <= k < b ==> reopened_union(av).contains(#[trigger] reevaluated[k]),
            !complete ==> !clearance_complete(av, addressed, reevaluated),
        decreases reevaluated_coverage_ids.len() - b,
    {
        if !reopened_contains(active_observations, &reevaluated_coverage_ids[b]) {
            if complete {
                proof {
                    assert(reevaluated.to_set().contains(reevaluated[b as int]));
                }
            }
            complete = false;
        }
        b = b + 1;
    }
    if !complete {
        return Err(
            CharterLifecycleError::new(
                CharterLifecycleErrorKind::ClearanceIncomplete,
                "addressing promotion must cover every active observation and exactly the reopened coverage IDs",
            ),
        );
    }
    proof {
        assert forall|e: Seq<char>| fps.to_set().contains(e) implies addressed.to_set().contains(e) by {
            let k = choose|k: int| 0 <= k < fps.len() && fps[k] == e;
            assert(addressed.contains(fps[k]));
        }
        assert forall|e: Seq<char>| addressed.to_set().contains(e) implies fps.to_set().contains(e) by {
            let k = choose|k: int| 0 <= k < addressed.len() && addressed[k] == e;
            assert(fps.contains(addressed[k]));
        }
        assert(fps.to_set() =~= addressed.to_set());
        assert forall|e: Seq<char>| reopened_union(av).contains(e) implies reevaluated.to_set().contains(e) by {
            let (k, j) = choose|k: int, j: int|
                0 <= k < av.len() && 0 <= j < av[k].reopened_coverage_ids.len()
                    && #[trigger] av[k].reopened_coverage_ids[j] == e;
            assert(reevaluated.contains(av[k].reopened_coverage_ids[j]));
        }
        assert forall|e: Seq<char>| reevaluated.to_set().contains(e) implies reopened_union(av).contains(e) by {
            let k = choose|k: int| 0 <= k < reevaluated.len() && reevaluated[k] == e;
            assert(reopened_union(av).contains(reevaluated[k]));
        }
        assert(reopened_union(av) =~= reevaluated.to_set());
    }
    Ok(CharterLifecycleState::Current)
}

fn check_events(
    active: &[CharterLifecycleObservation],
    events: &Vec<CharterLifecycleEvent>,
) -> (r: Result<(), CharterLifecycleError>)
    ensures
        match events_error(event_views(events@), observation_views(active@)) {
            None => r is Ok,
            Some(k) => r matches Err(e) && e.error_kind() == k,
        },
{
    let ghost ev = event_views(events@);
    let ghost av = observation_views(active@);
    let mut i: usize = 0;
    assert(ev.skip(0) =~= ev);
    while i < events.len()
        invariant
            ev == event_views(events@),
            av == observation_views(active@),
            i <= events.len(),
            events_error(ev, av) == events_error(ev.skip(i as int), av),
        decreases events.len() - i,
    {
        assert(ev.skip(i as int)[0] == events@[i as int]@);
        match validate_event(&events[i]) {
            Ok(()) => {},
            Err(e) => {
                return Err(e);
            },
        }
        if active.len() > 0 && !(active[0].basis_artifact_fingerprint
            == events[i].basis_artifact_fingerprint) {
            return Err(
                CharterLifecycleError::new(
                    CharterLifecycleErrorKind::StaleBasis,
                    "lifecycle event basis does not match the active canonical basis",
                ),
            );
        }
        assert(ev.skip(i as int).drop_first() =~= ev.skip(i + 1));
        i = i + 1;
    }
    Ok(())
}

/// Picks, for each fingerprint of the batch that is not already active, the event that
/// batch order puts first.
fn choose_new_events(
    active: &[CharterLifecycleObservation],
    events: &Vec<CharterLifecycleEvent>,
) -> (r: Vec<usize>)
    ensures
        forall|t: int|
            0 <= t < r.len() ==> is_new_event(
                event_views(events@),
                observation_views(active@),
                #[trigger] r@[t] as int,
            ),
        forall|i: int|
            is_new_event(event_views(events@), observation_views(active@), i) ==> exists|t: int|
                0 <= t < r.len() && #[trigger] r@[t] == i,
        forall|t1: int, t2: int|
            0 <= t1 < r.len() && 0 <= t2 < r.len() && t1 != t2 ==> event_views(
                events@,
            )[#[trigger] r@[t1] as int].event_fingerprint != event_views(events@)[#[trigger] r@[t2] as int].event_fingerprint,
{
    let ghost ev = event_views(events@);
    let ghost afps = observation_fingerprints(observation_views(active@));
    let mut chosen: Vec<usize> = Vec::new();
    let mut n: usize = 0;
    while n < events.len()
        invariant
            ev == event_views(events@),
            afps == observation_fingerprints(observation_views(active@)),
            n <= events.len(),
            forall|t: int|
                0 <= t < chosen.len() ==> (#[trigger] chosen@[t]) < n && first_of_fingerprint(
                    ev,
                    chosen@[t] as int,
                    n as int,
                ) && !afps.contains(ev[chosen@[t] as int].event_fingerprint),
            forall|t1: int, t2: int|
                0 <= t1 < chosen.len() && 0 <= t2 < chosen.len() && t1 != t2
                    ==> ev[#[trigger] chosen@[t1] as int].event_fingerprint != ev[#[trigger] chosen@[t2] as int].event_fingerprint,
            forall|j: int|
                0 <= j < n && !afps.contains(#[trigger] ev[j].event_fingerprint) ==> exists|t: int|
                    0 <= t < chosen.len() && ev[chosen@[t] as int].event_fingerprint
                        == ev[j].event_fingerprint,
        decreases events.len() - n,
    {
        let event = &events[n];
        assert(ev[n as int] == event@);
        if active_contains(active, &event.event_fingerprint) {
            assert forall|t: int| 0 <= t < chosen.len() implies first_of_fingerprint(
                ev,
                #[trigger] chosen@[t] as int,
                n + 1,
            ) by {
                assert(first_of_fingerprint(ev, chosen@[t] as int, n as int));
            }
            n = n + 1;
        } else {
            let ghost old_chosen = chosen@;
            let mut found: usize = 0;
            let mut located = false;
            while !located && found < chosen.len()
                invariant
                    ev == event_views(events@),
                    n < events.len(),
                    event@ == ev[n as int],
                    found <= chosen.len(),
                    forall|t: int|
                        0 <= t < chosen.len() ==> (#[trigger] chosen@[t]) < n,
                    !located ==> forall|t: int|
                        0 <= t < found ==> ev[#[trigger] chosen@[t] as int].event_fingerprint
                            != event@.event_fingerprint,
                    located ==> found < chosen.len() && ev[chosen@[found as int] as int].event_fingerprint
                        == event@.event_fingerprint,
                decreases chosen.len() - found + (if located { 0int } else { 1int }),
            {
                if events[chosen[found]].event_fingerprint == event.event_fingerprint {
                    located = true;
                } else {
                    found = found + 1;
                }
            }
            if !located {
                proof {
                    assert forall|t: int| 0 <= t < chosen.len() implies first_of_fingerprint(
                        ev,
                        #[trigger] chosen@[t] as int,
                        n + 1,
                    ) by {
                        assert(first_of_fingerprint(ev, chosen@[t] as int, n as int));
                    }
                    assert forall|j: int|
                        0 <= j < n + 1 && #[trigger] ev[j].event_fingerprint
                            == ev[n as int].event_fingerprint implies (precedence(
                        ev[n as int].kind,
                    ) < precedence(ev[j].kind) || (precedence(ev[n as int].kind) == precedence(
                        ev[j].kind,
                    ) && n <= j)) by {
                        if j < n {
                            assert(!afps.contains(ev[j].event_fingerprint));
                            let t = choose|t: int|
                                0 <= t < chosen.len() && ev[chosen@[t] as int].event_fingerprint
                                    == ev[j].event_fingerprint;
                            assert(ev[chosen@[t] as int].event_fingerprint != event@.event_fingerprint);
                        }
                    }
                }
                chosen.push(n);
                proof {
                    assert forall|j: int|
                        0 <= j < n + 1 && !afps.contains(#[trigger] ev[j].event_fingerprint) implies exists|t: int|
                        0 <= t < chosen.len() && ev[chosen@[t] as int].event_fingerprint
                            == ev[j].event_fingerprint by {
                        if j < n {
                            let t = choose|t: int|
                                0 <= t < old_chosen.len() && ev[old_chosen[t] as int].event_fingerprint
                                    == ev[j].event_fingerprint;
                            assert(chosen@[t] == old_chosen[t]);
                        } else {
                            assert(chosen@[old_chosen.len() as int] == n);
                        }
                    }
                }
            } else {
                let current = chosen[found];
                if event_precedence(event.kind) < event_precedence(events[current].kind) {
                    proof {
                        assert(first_of_fingerprint(ev, current as int, n as int));
                        assert forall|j: int|
                            0 <= j < n + 1 && #[trigger] ev[j].event_fingerprint
                                == ev[n as int].event_fingerprint implies (precedence(
                            ev[n as int].kind,
                        ) < precedence(ev[j].kind) || (precedence(ev[n as int].kind)
                            == precedence(ev[j].kind) && n <= j)) by {
                            if j < n {
                                assert(ev[j].event_fingerprint == ev[current as int].event_fingerprint);
                            }
                        }
                        assert forall|t: int| 0 <= t < chosen.len() && t != found implies first_of_fingerprint(
                            ev,
                            #[trigger] chosen@[t] as int,
                            n + 1,
                        ) by {
                            assert(first_of_fingerprint(ev, chosen@[t] as int, n as int));
                            assert(ev[chosen@[t] as int].event_fingerprint != ev[current as int].event_fingerprint);
                        }
                    }
                    chosen.set(found, n);
                    proof {
                        assert forall|j: int|
                            0 <= j < n + 1 && !afps.contains(#[trigger] ev[j].event_fingerprint) implies exists|t: int|
                            0 <= t < chosen.len() && ev[chosen@[t] as int].event_fingerprint
                                == ev[j].event_fingerprint by {
                            if j < n {
                                let t = choose|t: int|
                                    0 <= t < old_chosen.len() && ev[old_chosen[t] as int].event_fingerprint
                                        == ev[j].event_fingerprint;
                                assert(ev[chosen@[t] as int].event_fingerprint == ev[j].event_fingerprint);
                            } else {
                                assert(ev[chosen@[found as int] as int].event_fingerprint == ev[j].event_fingerprint);
                            }
                        }
                    }
                } else {
                    proof {
                        assert forall|t: int| 0 <= t < chosen.len() implies first_of_fingerprint(
                            ev,
                            #[trigger] chosen@[t] as int,
                            n + 1,
                        ) by {
                            assert(first_of_fingerprint(ev, chosen@[t] as int, n as int));
                        }
                        assert forall|j: int|
                            0 <= j < n + 1 && !afps.contains(#[trigger] ev[j].event_fingerprint) implies exists|t: int|
                            0 <= t < chosen.len() && ev[chosen@[t] as int].event_fingerprint
                                == ev[j].event_fingerprint by {
                            if j < n {
                                let t = choose|t: int|
                                    0 <= t < old_chosen.len() && ev[old_chosen[t] as int].event_fingerprint
                                        == ev[j].event_fingerprint;
                                assert(chosen@[t] == old_chosen[t]);
                            } else {
                                assert(ev[chosen@[found as int] as int].event_fingerprint == ev[j].event_fingerprint);
                            }
                        }
                    }
                }
            }
            n = n + 1;
        }
    }
    proof {
        assert forall|i: int| is_new_event(ev, observation_views(active@), i) implies exists|t: int|
            0 <= t < chosen.len() && #[trigger] chosen@[t] == i by {
            let t = choose|t: int|
                0 <= t < chosen.len() && ev[chosen@[t] as int].event_fingerprint
                    == ev[i].event_fingerprint;
            let c = chosen@[t] as int;
            assert(first_of_fingerprint(ev, c, ev.len() as int));
            assert(first_of_fingerprint(ev, i, ev.len() as int));
            assert(ev[c].event_fingerprint == ev[i].event_fingerprint);
            assert(ev[i].event_fingerprint == ev[c].event_fingerprint);
            assert(c == i);
        }
    }
    chosen
}

/// Event `i` comes before event `j` in batch order.
pub open spec fn index_key_lt(ev: Seq<LifecycleEventView>, i: int, j: int) -> bool {
    key_lt(precedence(ev[i].kind), ev[i].event_fingerprint, precedence(ev[j].kind), ev[j].event_fingerprint)
}

pub proof fn lemma_key_lt(p1: int, f1: Seq<char>, p2: int, f2: Seq<char>, p3: int, f3: Seq<char>)
    ensures
        !key_lt(p1, f1, p1, f1),
        key_lt(p1, f1, p2, f2) && key_lt(p2, f2, p3, f3) ==> key_lt(p1, f1, p3, f3),
        f1 != f2 ==> key_lt(p1, f1, p2, f2) || key_lt(p2, f2, p1, f1),
        !(key_lt(p1, f1, p2, f2) && key_lt(p2, f2, p1, f1)),
{
    lemma_seq_lt_irreflexive(f1);
    lemma_seq_lt_total(f1, f2);
    if seq_lt(f1, f2) && seq_lt(f2, f3) {
        lemma_seq_lt_transitive(f1, f2, f3);
    }
}

fn event_key_lt(a: &CharterLifecycleEvent, b: &CharterLifecycleEvent) -> (r: bool)
    ensures
        r == key_lt(
            precedence(a.kind),
            a.event_fingerprint@,
            precedence(b.kind),
            b.event_fingerprint@,
        ),
{
    let pa = event_precedence(a.kind);
    let pb = event_precedence(b.kind);
    if pa < pb {
        true
    } else if pa > pb {
        false
    } else {
        chars_lt(&chars_of(a.event_fingerprint.as_str()), &chars_of(b.event_fingerprint.as_str()))
    }
}

/// Inserting an event index at its place keeps a list of event indices in batch order.
proof fn lemma_insert_keeps_order(ev: Seq<LifecycleEventView>, old_out: Seq<usize>, pos: int, x: usize)
    requires
        0 <= pos <= old_out.len(),
        x < ev.len(),
        forall|u: int| 0 <= u < old_out.len() ==> (#[trigger] old_out[u]) < ev.len(),
        forall|a: int, b: int|
            0 <= a < b < old_out.len() ==> index_key_lt(ev, #[trigger] old_out[a] as int, #[trigger] old_out[b] as int),
        forall|u: int| 0 <= u < pos ==> index_key_lt(ev, #[trigger] old_out[u] as int, x as int),
        pos < old_out.len() ==> index_key_lt(ev, x as int, old_out[pos] as int),
    ensures
        forall|a: int, b: int|
            0 <= a < b < old_out.insert(pos, x).len() ==> index_key_lt(
                ev,
                #[trigger] old_out.insert(pos, x)[a] as int,
                #[trigger] old_out.insert(pos, x)[b] as int,
            ),
{
    let no = old_out.insert(pos, x);
    assert forall|a: int, b: int| 0 <= a < b < no.len() implies index_key_lt(ev, #[trigger] no[a] as int, #[trigger] no[b] as int) by {
        if b < pos {
            assert(no[a] == old_out[a] && no[b] == old_out[b]);
        } else if a < pos && b == pos {
            assert(no[a] == old_out[a]);
        } else if a < pos {
            assert(no[a] == old_out[a] && no[b] == old_out[b - 1]);
        } else if a == pos {
            let y = old_out[pos] as int;
            assert(no[b] == old_out[b - 1]);
            if b - 1 > pos {
                let z = old_out[b - 1] as int;
                assert(index_key_lt(ev, y, z));
                lemma_key_lt(precedence(ev[x as int].kind), ev[x as int].event_fingerprint, precedence(ev[y].kind), ev[y].event_fingerprint, precedence(ev[z].kind), ev[z].event_fingerprint);
            }
        } else {
            assert(no[a] == old_out[a - 1] && no[b] == old_out[b - 1]);
        }
    }
}

/// Arranges the chosen events in batch order.
fn order_new_events(events: &Vec<CharterLifecycleEvent>, chosen: &Vec<usize>) -> (r: Vec<usize>)
    requires
        forall|t: int| 0 <= t < chosen.len() ==> (#[trigger] chosen@[t]) < events.len(),
        forall|t1: int, t2: int|
            0 <= t1 < chosen.len() && 0 <= t2 < chosen.len() && t1 != t2 ==> event_views(
                events@,
            )[#[trigger] chosen@[t1] as int].event_fingerprint != event_views(events@)[#[trigger] chosen@[t2] as int].event_fingerprint,
    ensures
        forall|u: int| 0 <= u < r.len() ==> (#[trigger] r@[u]) < events.len(),
        forall|a: int, b: int|
            0 <= a < b < r.len() ==> index_key_lt(
                event_views(events@),
                #[trigger] r@[a] as int,
                #[trigger] r@[b] as int,
            ),
        forall|t: int| 0 <= t < chosen.len() ==> r@.contains(#[trigger] chosen@[t]),
        forall|u: int| 0 <= u < r.len() ==> chosen@.contains(#[trigger] r@[u]),
{
    let ghost ev = event_views(events@);
    let mut out: Vec<usize> = Vec::new();
    let mut t: usize = 0;
    while t < chosen.len()
        invariant
            ev == event_views(events@),
            t <= chosen.len(),
            forall|k: int| 0 <= k < chosen.len() ==> (#[trigger] chosen@[k]) < events.len(),
            forall|t1: int, t2: int|
                0 <= t1 < chosen.len() && 0 <= t2 < chosen.len() && t1 != t2
                    ==> ev[#[trigger] chosen@[t1] as int].event_fingerprint != ev[#[trigger] chosen@[t2] as int].event_fingerprint,
            forall|u: int| 0 <= u < out.len() ==> (#[trigger] out@[u]) < events.len(),
            forall|a: int, b: int|
                0 <= a < b < out.len() ==> index_key_lt(ev, #[trigger] out@[a] as int, #[trigger] out@[b] as int),
            forall|k: int| 0 <= k < t ==> out@.contains(#[trigger] chosen@[k]),
            forall|u: int| 0 <= u < out.len() ==> chosen@.take(t as int).contains(#[trigger] out@[u]),
        decreases chosen.len() - t,
    {
        let x = chosen[t];
        let mut pos: usize = 0;
        let mut done = false;
        while !done && pos < out.len()
            invariant
                ev == event_views(events@),
                x < events.len(),
                pos <= out.len(),
                forall|u: int| 0 <= u < out.len() ==> (#[trigger] out@[u]) < events.len(),
                forall|u: int| 0 <= u < pos ==> index_key_lt(ev, #[trigger] out@[u] as int, x as int),
                done ==> pos < out.len() && !index_key_lt(ev, out@[pos as int] as int, x as int),
            decreases out.len() - pos + (if done { 0int } else { 1int }),
        {
            if event_key_lt(&events[out[pos]], &events[x]) {
                pos = pos + 1;
            } else {
                done = true;
            }
        }
        let ghost old_out = out@;
        proof {
            if pos < old_out.len() {
                let k = choose|k: int| 0 <= k < t && chosen@[k] == old_out[pos as int];
                assert(k != t);
                let y = old_out[pos as int] as int;
                lemma_key_lt(precedence(ev[y].kind), ev[y].event_fingerprint, precedence(ev[x as int].kind), ev[x as int].event_fingerprint, 0, seq![]);
                assert(index_key_lt(ev, x as int, y));
            }
        }
        out.insert(pos, x);
        proof {
            let no = out@;
            assert(no =~= old_out.insert(pos as int, x));
            lemma_insert_keeps_order(ev, old_out, pos as int, x);
            assert forall|k: int| 0 <= k < t + 1 implies no.contains(#[trigger] chosen@[k]) by {
                if k < t {
                    let u = choose|u: int| 0 <= u < old_out.len() && old_out[u] == chosen@[k];
                    if u < pos {
                        assert(no[u] == chosen@[k]);
                    } else {
                        assert(no[u + 1] == chosen@[k]);
                    }
                } else {
                    assert(no[pos as int] == chosen@[k]);
                }
            }
            assert forall|u: int| 0 <= u < no.len() implies chosen@.take(t + 1).contains(#[trigger] no[u]) by {
                if u < pos {
                    assert(no[u] == old_out[u]);
                    assert(chosen@.take(t as int).contains(old_out[u]));
                    let k = choose|k: int| 0 <= k < t && chosen@.take(t as int)[k] == old_out[u];
                    assert(chosen@.take(t + 1)[k] == no[u]);
                } else if u == pos {
                    assert(chosen@.take(t + 1)[t as int] == no[u]);
                } else {
                    assert(no[u] == old_out[u - 1]);
                    assert(chosen@.take(t as int).contains(old_out[u - 1]));
                    let k = choose|k: int| 0 <= k < t && chosen@.take(t as int)[k] == old_out[u - 1];
                    assert(chosen@.take(t + 1)[k] == no[u]);
                }
            }
        }
        t = t + 1;
    }
    proof {
        assert(chosen@.take(t as int) =~= chosen@);
    }
    out
}

/// A copy of a list of strings.
pub fn copy_strings(v: &Vec<String>) -> (r: Vec<String>)
    ensures
        r@ == v@,
{
    let mut out: Vec<String> = Vec::new();
    let mut i: usize = 0;
    while i < v.len()
        invariant
            i <= v.len(),
            out@ == v@.take(i as int),
        decreases v.len() - i,
    {
        out.push(v[i].clone());
        assert(out@ =~= v@.take(i + 1));
        i = i + 1;
    }
    assert(v@.take(v@.len() as int) =~= v@);
    out
}

pub fn copy_observation(o: &CharterLifecycleObservation) -> (r: CharterLifecycleObservation)
    ensures
        r@ == o@,
{
    CharterLifecycleObservation {
        event_fingerprint: o.event_fingerprint.clone(),
        basis_artifact_fingerprint: o.basis_artifact_fingerprint.clone(),
        kind: o.kind,
        evidence_ref: o.evidence_ref.clone(),
        evidence_fingerprint: o.evidence_fingerprint.clone(),
        reopened_coverage_ids: copy_strings(&o.reopened_coverage_ids),
    }
}

fn observation_from_event(e: &CharterLifecycleEvent) -> (r: CharterLifecycleObservation)
    ensures
        r@ == observation_of(e@),
{
    CharterLifecycleObservation {
        event_fingerprint: e.event_fingerprint.clone(),
        basis_artifact_fingerprint: e.basis_artifact_fingerprint.clone(),
        kind: e.kind,
        evidence_ref: e.evidence_ref.clone(),
        evidence_fingerprint: e.evidence_fingerprint.clone(),
        reopened_coverage_ids: reopened_coverage(e.kind),
    }
}

/// The active fingerprints in text order.
fn sorted_fingerprints(active: &Vec<CharterLifecycleObservation>) -> (r: Vec<String>)
    ensures
        string_views(r@) == sorted_texts(observation_fingerprints(observation_views(active@))),
{
    let ghost fps = observation_fingerprints(observation_views(active@));
    let mut acc: Vec<Vec<char>> = Vec::new();
    let mut i: usize = 0;
    assert(fps.take(0) =~= Seq::<Seq<char>>::empty());
    assert(views(acc@) =~= fps.take(0));
    while i < active.len()
        invariant
            fps == observation_fingerprints(observation_views(active@)),
            i <= active.len(),
            text_sorted(views(acc@)),
            views(acc@).to_multiset() == fps.take(i as int).to_multiset(),
        decreases active.len() - i,
    {
        insert_sorted(&mut acc, chars_of(active[i].event_fingerprint.as_str()));
        proof {
            assert(fps.take(i + 1) =~= fps.take(i as int).push(fps[i as int]));
            vstd::seq_lib::to_multiset_build(fps.take(i as int), fps[i as int]);
        }
        i = i + 1;
    }
    assert(fps.take(active.len() as int) =~= fps);
    proof {
        lemma_sorted_texts_unique(fps, views(acc@));
    }
    strings_from_texts(&acc)
}

/// The coverage IDs that active observations reopen, as an ordered set.
fn reopened_ids(active: &Vec<CharterLifecycleObservation>) -> (r: Vec<String>)
    ensures
        string_views(r@) == ordered_set(reopened_union(observation_views(active@))),
        text_strictly_sorted(string_views(r@)),
        string_views(r@).to_set() == reopened_union(observation_views(active@)),
{
    let ghost av = observation_views(active@);
    let mut acc: Vec<Vec<char>> = Vec::new();
    let mut i: usize = 0;
    while i < active.len()
        invariant
            av == observation_views(active@),
            i <= active.len(),
            text_strictly_sorted(views(acc@)),
            views(acc@).to_set() == Set::new(
                |id: Seq<char>|
                    exists|k: int, j: int|
                        0 <= k < i && 0 <= j < av[k].reopened_coverage_ids.len()
                            && #[trigger] av[k].reopened_coverage_ids[j] == id,
            ),
        decreases active.len() - i,
    {
        let ids = &active[i].reopened_coverage_ids;
        let mut j: usize = 0;
        while j < ids.len()
            invariant
                av == observation_views(active@),
                i < active.len(),
                ids == &active@[i as int].reopened_coverage_ids,
                j <= ids.len(),
                text_strictly_sorted(views(acc@)),
                views(acc@).to_set() == Set::new(
                    |id: Seq<char>|
                        exists|k: int, m: int|
                            ((0 <= k < i && 0 <= m < av[k].reopened_coverage_ids.len()) || (k == i && 0 <= m < j))
                                && #[trigger] av[k].reopened_coverage_ids[m] == id,
                ),
            decreases ids.len() - j,
        {
            let ghost before = views(acc@).to_set();
            insert_sorted_unique(&mut acc, chars_of(ids[j].as_str()));
            proof {
                assert(av[i as int].reopened_coverage_ids[j as int] == ids@[j as int]@);
                let target = Set::new(
                    |id: Seq<char>|
                        exists|k: int, m: int|
                            ((0 <= k < i && 0 <= m < av[k].reopened_coverage_ids.len()) || (k == i && 0 <= m < j + 1))
                                && #[trigger] av[k].reopened_coverage_ids[m] == id,
                );
                assert forall|id: Seq<char>| target.contains(id) implies before.insert(ids@[j as int]@).contains(id) by {
                    let (k, m) = choose|k: int, m: int|
                        ((0 <= k < i && 0 <= m < av[k].reopened_coverage_ids.len()) || (k == i && 0 <= m < j + 1))
                            && #[trigger] av[k].reopened_coverage_ids[m] == id;
                    if !(k == i && m == j) {
                        assert(before.contains(id));
                    }
                }
                assert forall|id: Seq<char>| before.insert(ids@[j as int]@).contains(id) implies target.contains(id) by {
                    if id == ids@[j as int]@ {
                        assert(av[i as int].reopened_coverage_ids[j as int] == id);
                    } else {
                        assert(before.contains(id));
                        let (k, m) = choose|k: int, m: int|
                            ((0 <= k < i && 0 <= m < av[k].reopened_coverage_ids.len()) || (k == i && 0 <= m < j))
                                && #[trigger] av[k].reopened_coverage_ids[m] == id;
                        assert(av[k].reopened_coverage_ids[m] == id);
                    }
                }
                assert(views(acc@).to_set() =~= target);
            }
            j = j + 1;
        }
        proof {
            let a = Set::new(
                |id: Seq<char>|
                    exists|k: int, m: int|
                        ((0 <= k < i && 0 <= m < av[k].reopened_coverage_ids.len()) || (k == i && 0 <= m < j))
                            && #[trigger] av[k].reopened_coverage_ids[m] == id,
            );
            let b = Set::new(
                |id: Seq<char>|
                    exists|k: int, m: int|
                        0 <= k < i + 1 && 0 <= m < av[k].reopened_coverage_ids.len()
                            && #[trigger] av[k].reopened_coverage_ids[m] == id,
            );
            assert(av[i as int].reopened_coverage_ids.len() == ids.len());
            assert forall|id: Seq<char>| a.contains(id) implies b.contains(id) by {
                let (k, m) = choose|k: int, m: int|
                    ((0 <= k < i && 0 <= m < av[k].reopened_coverage_ids.len()) || (k == i && 0 <= m < j))
                        && #[trigger] av[k].reopened_coverage_ids[m] == id;
                assert(av[k].reopened_coverage_ids[m] == id);
            }
            assert forall|id: Seq<char>| b.contains(id) implies a.contains(id) by {
                let (k, m) = choose|k: int, m: int|
                    0 <= k < i + 1 && 0 <= m < av[k].reopened_coverage_ids.len()
                        && #[trigger] av[k].reopened_coverage_ids[m] == id;
                assert(av[k].reopened_coverage_ids[m] == id);
            }
            assert(a =~= b);
        }
        i = i + 1;
    }
    proof {
        let a = Set::new(
            |id: Seq<char>|
                exists|k: int, j: int|
                    0 <= k < i && 0 <= j < av[k].reopened_coverage_ids.len()
                        && #[trigger] av[k].reopened_coverage_ids[j] == id,
        );
        assert(a =~= reopened_union(av));
        lemma_ordered_set(views(acc@));
    }
    strings_from_texts(&acc)
}

/// Strings with the given characters.
pub fn strings_from_texts(acc: &Vec<Vec<char>>) -> (r: Vec<String>)
    ensures
        string_views(r@) == views(acc@),
{
    let mut out: Vec<String> = Vec::new();
    let mut k: usize = 0;
    while k < acc.len()
        invariant
            k <= acc.len(),
            string_views(out@) == views(acc@).take(k as int),
        decreases acc.len() - k,
    {
        let ghost before = string_views(out@);
        let s = string_of(&acc[k]);
        out.push(s);
        assert(string_views(out@) =~= before.push(acc@[k as int]@));
        assert(string_views(out@) =~= views(acc@).take(k + 1));
        k = k + 1;
    }
    assert(views(acc@).take(acc.len() as int) =~= views(acc@));
    out
}

/// Applies a batch of lifecycle events to the active observations.
///
/// Each event is checked in turn; the first with an invalid identity, basis or evidence is
/// refused as `InvalidEvent`, and the first whose basis differs from the active basis as
/// `StaleBasis`. Otherwise each fingerprint not already active opens one observation, from
/// the first of its events in batch order (posture and trust-boundary changes before reviews,
/// then by fingerprint), and the observations are appended in batch order. The result state is
/// the visible state of all active observations, or the prior state where none is active; the
/// state fingerprint covers the prior and result states, the active fingerprints in text order
/// and the reopened coverage as an ordered set.
pub fn apply_charter_lifecycle_events(
    prior_state: CharterLifecycleState,
    active_observations: &[CharterLifecycleObservation],
    events: Vec<CharterLifecycleEvent>,
) -> (r: Result<CharterLifecycleTransition, CharterLifecycleError>)
    ensures
        events_error(event_views(events@), observation_views(active_observations@)) matches Some(
            k,
        ) ==> r matches Err(e) && e.error_kind() == k,
        r matches Err(e) ==> (events_error(event_views(events@), observation_views(active_observations@))
            is None ==> e.error_kind() == CharterLifecycleErrorKind::FingerprintFailed && exists|
            new: Seq<LifecycleObservationView>,
        |
            new_observations_of(
                new,
                event_views(events@),
                observation_views(active_observations@),
            ) && json_fingerprint(
                transition_state_json(prior_state, observation_views(active_observations@) + new),
            ) is None),
        r matches Ok(t) ==> {
            &&& events_error(event_views(events@), observation_views(active_observations@)) is None
            &&& t.prior_state == prior_state
            &&& new_observations_of(
                observation_views(t.new_observations@),
                event_views(events@),
                observation_views(active_observations@),
            )
            &&& observation_views(t.active_observations@) == observation_views(active_observations@)
                + observation_views(t.new_observations@)
            &&& t.result_state == result_state_of(prior_state, observation_views(t.active_observations@))
            &&& string_views(t.reopened_coverage_ids@) == ordered_set(
                reopened_union(observation_views(t.active_observations@)),
            )
            &&& text_strictly_sorted(string_views(t.reopened_coverage_ids@))
            &&& string_views(t.reopened_coverage_ids@).to_set() == reopened_union(
                observation_views(t.active_observations@),
            )
            &&& json_fingerprint(
                transition_state_json(prior_state, observation_views(t.active_observations@)),
            ) == Some(t.state_fingerprint@)
        },
{
    let ghost ev = event_views(events@);
    let ghost av = observation_views(active_observations@);
    match check_events(active_observations, &events) {
        Ok(()) => {},
        Err(e) => {
            return Err(e);
        },
    }
    let chosen = choose_new_events(active_observations, &events);
    let ordered = order_new_events(&events, &chosen);
    let mut new_observations: Vec<CharterLifecycleObservation> = Vec::new();
    let mut u: usize = 0;
    while u < ordered.len()
        invariant
            ev == event_views(events@),
            u <= ordered.len(),
            forall|w: int| 0 <= w < ordered.len() ==> (#[trigger] ordered@[w]) < events.len(),
            observation_views(new_observations@) == ordered@.take(u as int).map_values(
                |i: usize| observation_of(ev[i as int]),
            ),
        decreases ordered.len() - u,
    {
        let ghost before = observation_views(new_observations@);
        let o = observation_from_event(&events[ordered[u]]);
        new_observations.push(o);
        assert(observation_views(new_observations@) =~= before.push(observation_of(ev[ordered@[u as int] as int])));
        assert(observation_views(new_observations@) =~= ordered@.take(u + 1).map_values(
            |i: usize| observation_of(ev[i as int]),
        ));
        u = u + 1;
    }
    let ghost nv = observation_views(new_observations@);
    proof {
        assert(ordered@.take(ordered.len() as int) =~= ordered@);
        assert(nv =~= ordered@.map_values(|i: usize| observation_of(ev[i as int])));
        assert forall|a: int, b: int| 0 <= a < b < nv.len() implies key_lt(
            precedence(#[trigger] nv[a].kind),
            nv[a].event_fingerprint,
            precedence(#[trigger] nv[b].kind),
            nv[b].event_fingerprint,
        ) by {
            assert(index_key_lt(ev, ordered@[a] as int, ordered@[b] as int));
            assert(nv[a] == observation_of(ev[ordered@[a] as int]));
            assert(nv[b] == observation_of(ev[ordered@[b] as int]));
        }
        assert(observations_ordered(nv));
        assert forall|k: int| 0 <= k < nv.len() implies #[trigger] opened_by_batch(ev, av, nv[k]) by {
            assert(chosen@.contains(ordered@[k]));
            let t = choose|t: int| 0 <= t < chosen.len() && chosen@[t] == ordered@[k];
            assert(is_new_event(ev, av, chosen@[t] as int));
            assert(nv[k] == observation_of(ev[ordered@[k] as int]));
        }
        assert forall|i: int| is_new_event(ev, av, i) implies nv.contains(observation_of(#[trigger] ev[i])) by {
            let t = choose|t: int| 0 <= t < chosen.len() && #[trigger] chosen@[t] == i;
            assert(ordered@.contains(chosen@[t]));
            let k = choose|k: int| 0 <= k < ordered.len() && ordered@[k] == chosen@[t];
            assert(nv[k] == observation_of(ev[i]));
        }
        assert(new_observations_of(nv, ev, av));
    }
    let mut active: Vec<CharterLifecycleObservation> = Vec::new();
    let mut i: usize = 0;
    while i < active_observations.len()
        invariant
            i <= active_observations.len(),
            observation_views(active@) == observation_views(active_observations@).take(i as int),
        decreases active_observations.len() - i,
    {
        let ghost before = observation_views(active@);
        let o = copy_observation(&active_observations[i]);
        active.push(o);
        assert(observation_views(active@) =~= before.push(active_observations@[i as int]@));
        assert(observation_views(active@) =~= observation_views(active_observations@).take(i + 1));
        i = i + 1;
    }
    assert(observation_views(active_observations@).take(active_observations.len() as int) =~= av);
    let mut j: usize = 0;
    while j < new_observations.len()
        invariant
            j <= new_observations.len(),
            observation_views(active@) == av + observation_views(new_observations@).take(j as int),
        decreases new_observations.len() - j,
    {
        let ghost before = observation_views(active@);
        let o = copy_observation(&new_observations[j]);
        active.push(o);
        assert(observation_views(active@) =~= before.push(new_observations@[j as int]@));
        assert(observation_views(active@) =~= av + observation_views(new_observations@).take(j + 1));
        j = j + 1;
    }
    assert(observation_views(new_observations@).take(new_observations.len() as int) =~= nv);
    let result_state = match visible_state(active.as_slice()) {
        Some(s) => s,
        None => prior_state,
    };
    let reopened = reopened_ids(&active);
    let fingerprints = sorted_fingerprints(&active);
    let json = state_json_text(prior_state, result_state, &fingerprints, &reopened);
    let state_fingerprint = match fingerprint_value(&json) {
        Ok(f) => f,
        Err(e) => {
            return Err(e);
        },
    };
    Ok(
        CharterLifecycleTransition {
            prior_state,
            result_state,
            new_observations,
            active_observations: active,
            reopened_coverage_ids: reopened,
            state_fingerprint,
        },
    )
}

/// Replaying events that are all already active opens nothing: any list of new observations
/// for such a batch is empty, so the active observations stay as they were.
pub proof fn lemma_replay_opens_nothing(
    new: Seq<LifecycleObservationView>,
    events: Seq<LifecycleEventView>,
    active: Seq<LifecycleObservationView>,
)
    requires
        new_observations_of(new, events, active),
        forall|i: int|
            0 <= i < events.len() ==> observation_fingerprints(active).contains(
                #[trigger] events[i].event_fingerprint,
            ),
    ensures
        new.len() == 0,
        active + new == active,
{
    if new.len() > 0 {
        assert(opened_by_batch(events, active, new[0]));
        let i = choose|i: int| is_new_event(events, active, i) && new[0] == observation_of(events[i]);
        assert(observation_fingerprints(active).contains(events[i].event_fingerprint));
    }
    assert(active + new =~= active);
}

/// Every event of a batch that opens an observation leaves its fingerprint active afterwards,
/// and no fingerprint is opened twice: the new observations carry fingerprints that were not
/// active, each at most once.
pub proof fn lemma_new_observations_are_fresh_and_distinct(
    new: Seq<LifecycleObservationView>,
    events: Seq<LifecycleEventView>,
    active: Seq<LifecycleObservationView>,
)
    requires
        new_observations_of(new, events, active),
    ensures
        forall|k: int|
            0 <= k < new.len() ==> !observation_fingerprints(active).contains(
                #[trigger] new[k].event_fingerprint,
            ),
        forall|a: int, b: int|
            0 <= a < b < new.len() ==> #[trigger] new[a].event_fingerprint != #[trigger] new[b].event_fingerprint,
{
    assert forall|k: int| 0 <= k < new.len() implies !observation_fingerprints(active).contains(
        #[trigger] new[k].event_fingerprint,
    ) by {
        assert(opened_by_batch(events, active, new[k]));
    }
    assert forall|a: int, b: int| 0 <= a < b < new.len() implies #[trigger] new[a].event_fingerprint
        != #[trigger] new[b].event_fingerprint by {
        assert(opened_by_batch(events, active, new[a]));
        assert(opened_by_batch(events, active, new[b]));
        let i = choose|i: int| is_new_event(events, active, i) && new[a] == observation_of(events[i]);
        let j = choose|j: int| is_new_event(events, active, j) && new[b] == observation_of(events[j]);
        if new[a].event_fingerprint == new[b].event_fingerprint {
            assert(events[i].event_fingerprint == events[j].event_fingerprint);
            assert(events[j].event_fingerprint == events[i].event_fingerprint);
            assert(i == j);
            assert(key_lt(precedence(new[a].kind), new[a].event_fingerprint, precedence(new[b].kind), new[b].event_fingerprint));
            lemma_key_lt(precedence(new[a].kind), new[a].event_fingerprint, 0, seq![], 0, seq![]);
        }
    }
}

/// Addressing exactly what a transition reports clears it: naming every active fingerprint
/// and re-evaluating exactly the reopened coverage that the transition lists is a complete
/// clearance.
pub proof fn lemma_addressing_the_reported_state_clears(
    active: Seq<LifecycleObservationView>,
    reopened: Seq<Seq<char>>,
)
    requires
        reopened.to_set() == reopened_union(active),
    ensures
        clearance_complete(active, observation_fingerprints(active), reopened),
{
}

/// The visible state after a batch: reassessment whenever a posture or trust-boundary change
/// is active, review when only reviews are active, and the prior state when nothing is.
pub proof fn lemma_result_state_cases(
    prior: CharterLifecycleState,
    active: Seq<LifecycleObservationView>,
)
    ensures
        (exists|k: int| 0 <= k < active.len() && #[trigger] active[k].kind != CharterLifecycleEventKind::Review)
            ==> result_state_of(prior, active) == CharterLifecycleState::ReassessmentRequired,
        (active.len() > 0 && forall|k: int|
            0 <= k < active.len() ==> #[trigger] active[k].kind == CharterLifecycleEventKind::Review)
            ==> result_state_of(prior, active) == CharterLifecycleState::ReviewRequired,
        active.len() == 0 ==> result_state_of(prior, active) == prior,
{
    if exists|k: int| 0 <= k < active.len() && #[trigger] active[k].kind != CharterLifecycleEventKind::Review {
        let k = choose|k: int| 0 <= k < active.len() && #[trigger] active[k].kind != CharterLifecycleEventKind::Review;
        assert(active[k].kind == CharterLifecycleEventKind::ProductionPostureChanged || active[k].kind
            == CharterLifecycleEventKind::TrustBoundaryChanged);
    }
    if active.len() > 0 && forall|k: int|
        0 <= k < active.len() ==> #[trigger] active[k].kind == CharterLifecycleEventKind::Review {
        if exists|k: int|
            0 <= k < active.len() && (#[trigger] active[k].kind
                == CharterLifecycleEventKind::ProductionPostureChanged || active[k].kind
                == CharterLifecycleEventKind::TrustBoundaryChanged) {
            let k = choose|k: int|
                0 <= k < active.len() && (#[trigger] active[k].kind
                    == CharterLifecycleEventKind::ProductionPostureChanged || active[k].kind
                    == CharterLifecycleEventKind::TrustBoundaryChanged);
            assert(active[k].kind == CharterLifecycleEventKind::Review);
        }
        assert(active[0].kind == CharterLifecycleEventKind::Review);
    }
}

} // verus!
