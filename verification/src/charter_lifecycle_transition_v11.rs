use vstd::prelude::*;
use vstd::utf8::encode_utf8;
use crate::charter_lifecycle::CharterLifecycleState;
use crate::charter_lifecycle_store::{
    CHARTER_LIFECYCLE_POLICY_REF, charter_lifecycle_state_fingerprint, lifecycle_state_inputs_valid,
    lifecycle_state_json,
};
use crate::charter_posture_transaction_intent_v1::{
    PostureRecordValidationErrorV1, content_ref_valid, hex_id_valid, id_from_fingerprint, invalid,
    pair_valid, posture_pair_of, posture_transition_pair_v1, reassessment_valid,
    validate_content_ref_v1, validate_fingerprint_v1, validate_pair_v1, validate_reassessment_v1,
    validate_transition_id_v1, validate_utc_second_v1, MAX_POSTURE_RECORD_BYTES_V1,
};
use crate::digest::{
    commit_marker, content_fingerprint, fingerprint_hex, fingerprint_of_bytes, is_fingerprint,
    marker_of,
};
use crate::json::{
    encode_jcs_lf, fingerprint_json, jcs_lf_bytes, json_fingerprint, json_member, json_object,
    json_str, json_string, json_string_array, member_text, object_text, string_array_text,
};
use crate::posture_records::{
    EmptyExtensionsV1, OutputRecordV1, PairV1, PostureReassessmentV1, ValidatedPostureTransitionV1,
    pair_json, pair_json_text, reassessment_json, reassessment_json_text,
};
use crate::text::{chars_eq, chars_of, string_of, string_views, views};
use crate::utc::is_utc_second;

verus! {

pub const LIFECYCLE_POLICY_REF: &'static str = "handbook.lifecycle.constitutional-review-lock@1.0.0";

pub const LIFECYCLE_POLICY_FINGERPRINT: &'static str =
    "sha256:88caafb9caaf137647c42a91cd2762ac0871e0a20e2a1844c2c0076d5fb43cc3";

/// A lifecycle transition that rebases the lifecycle onto a posture transition.
#[derive(Clone, Debug, PartialEq, Eq)]
pub struct LifecycleTransitionRecordV11 {
    pub schema_id: String,
    pub schema_version: String,
    pub transition_id: String,
    pub transition_kind: String,
    pub lifecycle_policy: PairV1,
    pub target_instance_id: String,
    pub prior_transition: PairV1,
    pub prior_state: String,
    pub prior_state_fingerprint: String,
    pub new_observation_refs: Vec<String>,
    pub active_observation_refs: Vec<String>,
    pub result_state: String,
    pub result_state_fingerprint: String,
    pub prior_canonical_fingerprint: String,
    pub resulting_canonical_fingerprint: String,
    pub authority_transition: PairV1,
    pub reassessment: PostureReassessmentV1,
    pub transitioned_at_utc: String,
    pub extensions: EmptyExtensionsV1,
    pub transition_fingerprint: String,
}

/// What a caller supplies to construct a lifecycle transition.
#[derive(Clone, Debug, PartialEq, Eq)]
pub struct LifecycleTransitionDraftV11 {
    pub prior_transition: PairV1,
    pub prior_state_fingerprint: String,
}

/// A lifecycle transition together with its exact record bytes.
#[derive(Clone, Debug, PartialEq, Eq)]
pub struct ValidatedLifecycleTransitionV11 {
    pub record: LifecycleTransitionRecordV11,
    pub raw_bytes: Vec<u8>,
}

/// The members of a lifecycle transition that its fingerprint covers: all but its ID,
/// fingerprint and transition time.
pub open spec fn lifecycle_preimage_members(r: LifecycleTransitionRecordV11) -> Seq<Seq<char>> {
    seq![
        json_member("schema_id"@, json_string(r.schema_id@)),
        json_member("schema_version"@, json_string(r.schema_version@)),
        json_member("transition_kind"@, json_string(r.transition_kind@)),
        json_member("lifecycle_policy"@, pair_json(r.lifecycle_policy)),
        json_member("target_instance_id"@, json_string(r.target_instance_id@)),
        json_member("prior_transition"@, pair_json(r.prior_transition)),
        json_member("prior_state"@, json_string(r.prior_state@)),
        json_member("prior_state_fingerprint"@, json_string(r.prior_state_fingerprint@)),
        json_member("new_observation_refs"@, json_string_array(string_views(r.new_observation_refs@))),
        json_member("active_observation_refs"@, json_string_array(string_views(r.active_observation_refs@))),
        json_member("result_state"@, json_string(r.result_state@)),
        json_member("result_state_fingerprint"@, json_string(r.result_state_fingerprint@)),
        json_member("prior_canonical_fingerprint"@, json_string(r.prior_canonical_fingerprint@)),
        json_member("resulting_canonical_fingerprint"@, json_string(r.resulting_canonical_fingerprint@)),
        json_member("authority_transition"@, pair_json(r.authority_transition)),
        json_member("reassessment"@, reassessment_json(r.reassessment)),
        json_member("extensions"@, json_object(seq![])),
    ]
}

pub open spec fn lifecycle_preimage_json(r: LifecycleTransitionRecordV11) -> Seq<char> {
    json_object(lifecycle_preimage_members(r))
}

pub open spec fn lifecycle_record_json(r: LifecycleTransitionRecordV11) -> Seq<char> {
    json_object(
        lifecycle_preimage_members(r) + seq![
            json_member("transition_id"@, json_string(r.transition_id@)),
            json_member("transitioned_at_utc"@, json_string(r.transitioned_at_utc@)),
            json_member("transition_fingerprint"@, json_string(r.transition_fingerprint@)),
        ],
    )
}

fn lifecycle_members_first(r: &LifecycleTransitionRecordV11) -> (m: Vec<Vec<char>>)
    ensures
        views(m@) == lifecycle_preimage_members(*r).take(8),
{
    let mut m: Vec<Vec<char>> = Vec::new();
    m.push(member_text("schema_id", json_str(r.schema_id.as_str())));
    m.push(member_text("schema_version", json_str(r.schema_version.as_str())));
    m.push(member_text("transition_kind", json_str(r.transition_kind.as_str())));
    m.push(member_text("lifecycle_policy", pair_json_text(&r.lifecycle_policy)));
    m.push(member_text("target_instance_id", json_str(r.target_instance_id.as_str())));
    m.push(member_text("prior_transition", pair_json_text(&r.prior_transition)));
    m.push(member_text("prior_state", json_str(r.prior_state.as_str())));
    m.push(member_text("prior_state_fingerprint", json_str(r.prior_state_fingerprint.as_str())));
    assert(views(m@) =~= lifecycle_preimage_members(*r).take(8));
    m
}

fn lifecycle_members_second(r: &LifecycleTransitionRecordV11) -> (m: Vec<Vec<char>>)
    ensures
        views(m@) == lifecycle_preimage_members(*r).skip(8),
{
    let mut m: Vec<Vec<char>> = Vec::new();
    m.push(member_text("new_observation_refs", string_array_text(&r.new_observation_refs)));
    m.push(member_text("active_observation_refs", string_array_text(&r.active_observation_refs)));
    m.push(member_text("result_state", json_str(r.result_state.as_str())));
    m.push(member_text("result_state_fingerprint", json_str(r.result_state_fingerprint.as_str())));
    m.push(member_text("prior_canonical_fingerprint", json_str(r.prior_canonical_fingerprint.as_str())));
    m.push(member_text("resulting_canonical_fingerprint", json_str(r.resulting_canonical_fingerprint.as_str())));
    m.push(member_text("authority_transition", pair_json_text(&r.authority_transition)));
    m.push(member_text("reassessment", reassessment_json_text(&r.reassessment)));
    let empty: Vec<Vec<char>> = Vec::new();
    let ext = object_text(&empty);
    assert(views(empty@) =~= Seq::<Seq<char>>::empty());
    m.push(member_text("extensions", ext));
    assert(views(m@) =~= lifecycle_preimage_members(*r).skip(8));
    m
}

fn lifecycle_member_texts(r: &LifecycleTransitionRecordV11) -> (m: Vec<Vec<char>>)
    ensures
        views(m@) == lifecycle_preimage_members(*r),
{
    let mut m = lifecycle_members_first(r);
    let mut rest = lifecycle_members_second(r);
    let ghost a = views(m@);
    let ghost b = views(rest@);
    m.append(&mut rest);
    assert(views(m@) =~= a + b);
    assert(lifecycle_preimage_members(*r) =~= lifecycle_preimage_members(*r).take(8)
        + lifecycle_preimage_members(*r).skip(8));
    m
}

fn lifecycle_preimage_json_text(r: &LifecycleTransitionRecordV11) -> (t: Vec<char>)
    ensures
        t@ == lifecycle_preimage_json(*r),
{
    let m = lifecycle_member_texts(r);
    object_text(&m)
}

fn lifecycle_record_json_text(r: &LifecycleTransitionRecordV11) -> (t: Vec<char>)
    ensures
        t@ == lifecycle_record_json(*r),
{
    let mut m = lifecycle_member_texts(r);
    let ghost base = views(m@);
    m.push(member_text("transition_id", json_str(r.transition_id.as_str())));
    m.push(member_text("transitioned_at_utc", json_str(r.transitioned_at_utc.as_str())));
    m.push(member_text("transition_fingerprint", json_str(r.transition_fingerprint.as_str())));
    assert(views(m@) =~= base + seq![
        json_member("transition_id"@, json_string(r.transition_id@)),
        json_member("transitioned_at_utc"@, json_string(r.transitioned_at_utc@)),
        json_member("transition_fingerprint"@, json_string(r.transition_fingerprint@)),
    ]);
    object_text(&m)
}

/// The state fingerprint of a `current` lifecycle over the given canonical Charter, under the
/// constitutional review lock and with no active observations.
pub open spec fn current_state_fingerprint_of(canonical_fingerprint: Seq<char>) -> Option<Seq<char>> {
    if lifecycle_state_inputs_valid(
        CHARTER_LIFECYCLE_POLICY_REF@,
        LIFECYCLE_POLICY_FINGERPRINT@,
        "project_authority"@,
        canonical_fingerprint,
        Seq::empty(),
    ) {
        json_fingerprint(
            lifecycle_state_json(
                CHARTER_LIFECYCLE_POLICY_REF@,
                LIFECYCLE_POLICY_FINGERPRINT@,
                "project_authority"@,
                canonical_fingerprint,
                CharterLifecycleState::Current,
                Seq::empty(),
            ),
        )
    } else {
        None
    }
}

pub fn lifecycle_current_state_fingerprint(canonical_fingerprint: &str) -> (r: Result<
    String,
    PostureRecordValidationErrorV1,
>)
    ensures
        r matches Ok(f) ==> current_state_fingerprint_of(canonical_fingerprint@) == Some(f@),
        r is Err ==> current_state_fingerprint_of(canonical_fingerprint@) is None,
{
    let none: Vec<String> = Vec::new();
    let result = charter_lifecycle_state_fingerprint(
        CHARTER_LIFECYCLE_POLICY_REF,
        LIFECYCLE_POLICY_FINGERPRINT,
        "project_authority",
        canonical_fingerprint,
        CharterLifecycleState::Current,
        none.as_slice(),
    );
    assert(string_views(none@) =~= Seq::<Seq<char>>::empty());
    match result {
        Ok(f) => Ok(f),
        Err(e) => Err(invalid("lifecycle state fingerprint derivation refused: ", e.detail())),
    }
}

/// A lifecycle ID: `lifecycle-transition_` and 64 lowercase hex digits.
pub fn validate_lifecycle_id(value: &str) -> (r: Result<(), PostureRecordValidationErrorV1>)
    ensures
        r is Ok <==> hex_id_valid(value@, "lifecycle-transition_"@),
{
    validate_transition_id_v1(value, "lifecycle-transition_", "lifecycle transition ID")
}

/// A valid lifecycle transition 1.1: the fixed constants, no observations, content-addressed
/// prior and authority transitions, state fingerprints that bind the prior and resulting
/// canonical Charters as `current`, a valid time, and a fingerprint and ID that derive from
/// the semantic preimage.
pub open spec fn lifecycle_record_valid(r: LifecycleTransitionRecordV11) -> bool {
    &&& r.schema_id@ == "handbook.lifecycle-transition"@
    &&& r.schema_version@ == "1.1"@
    &&& r.transition_kind@ == "posture_transition"@
    &&& r.target_instance_id@ == "project_authority"@
    &&& r.lifecycle_policy.reference@ == LIFECYCLE_POLICY_REF@
    &&& r.lifecycle_policy.fingerprint@ == LIFECYCLE_POLICY_FINGERPRINT@
    &&& r.prior_state@ == "current"@
    &&& r.result_state@ == "current"@
    &&& r.new_observation_refs.len() == 0
    &&& r.active_observation_refs.len() == 0
    &&& hex_id_valid(r.transition_id@, "lifecycle-transition_"@)
    &&& pair_valid(r.lifecycle_policy)
    &&& content_ref_valid(r.prior_transition, "lifecycle-transitions/lifecycle-transition_"@, ".json"@)
    &&& is_fingerprint(r.prior_state_fingerprint@)
    &&& is_fingerprint(r.result_state_fingerprint@)
    &&& is_fingerprint(r.prior_canonical_fingerprint@)
    &&& is_fingerprint(r.resulting_canonical_fingerprint@)
    &&& is_fingerprint(r.transition_fingerprint@)
    &&& content_ref_valid(r.authority_transition, "posture-transitions/posture-transition_"@, ".json"@)
    &&& current_state_fingerprint_of(r.prior_canonical_fingerprint@) == Some(r.prior_state_fingerprint@)
    &&& current_state_fingerprint_of(r.resulting_canonical_fingerprint@) == Some(r.result_state_fingerprint@)
    &&& reassessment_valid(r.reassessment)
    &&& is_utc_second(encode_utf8(r.transitioned_at_utc@))
    &&& json_fingerprint(lifecycle_preimage_json(r)) == Some(r.transition_fingerprint@)
    &&& r.transition_id@ == "lifecycle-transition_"@ + fingerprint_hex(r.transition_fingerprint@)
}

fn str_is(value: &String, expected: &str) -> (r: bool)
    ensures
        r == (value@ == expected@),
{
    chars_eq(&chars_of(value.as_str()), &chars_of(expected))
}

pub fn validate_lifecycle_transition_record_v11(record: &LifecycleTransitionRecordV11) -> (r: Result<
    (),
    PostureRecordValidationErrorV1,
>)
    ensures
        r is Ok <==> lifecycle_record_valid(*record),
{
    if !str_is(&record.schema_id, "handbook.lifecycle-transition") || !str_is(&record.schema_version, "1.1")
        || !str_is(&record.transition_kind, "posture_transition") || !str_is(&record.target_instance_id, "project_authority")
        || !str_is(&record.lifecycle_policy.reference, LIFECYCLE_POLICY_REF) || !str_is(
        &record.lifecycle_policy.fingerprint,
        LIFECYCLE_POLICY_FINGERPRINT,
    ) || !str_is(&record.prior_state, "current") || !str_is(&record.result_state, "current")
        || record.new_observation_refs.len() != 0 || record.active_observation_refs.len() != 0 {
        return Err(invalid("lifecycle transition 1.1", " constants are invalid"));
    }
    validate_lifecycle_id(record.transition_id.as_str())?;
    validate_pair_v1(&record.lifecycle_policy, "lifecycle policy")?;
    validate_content_ref_v1(
        &record.prior_transition,
        "lifecycle-transitions/lifecycle-transition_",
        ".json",
        "lifecycle prior transition",
    )?;
    validate_fingerprint_v1(record.prior_state_fingerprint.as_str(), "lifecycle prior state fingerprint")?;
    validate_fingerprint_v1(record.result_state_fingerprint.as_str(), "lifecycle result state fingerprint")?;
    validate_fingerprint_v1(record.prior_canonical_fingerprint.as_str(), "lifecycle prior canonical fingerprint")?;
    validate_fingerprint_v1(record.resulting_canonical_fingerprint.as_str(), "lifecycle resulting canonical fingerprint")?;
    validate_fingerprint_v1(record.transition_fingerprint.as_str(), "lifecycle transition fingerprint")?;
    validate_content_ref_v1(
        &record.authority_transition,
        "posture-transitions/posture-transition_",
        ".json",
        "lifecycle authority transition",
    )?;
    let expected_prior = lifecycle_current_state_fingerprint(record.prior_canonical_fingerprint.as_str())?;
    let expected_result = lifecycle_current_state_fingerprint(record.resulting_canonical_fingerprint.as_str())?;
    if !(record.prior_state_fingerprint == expected_prior) || !(record.result_state_fingerprint
        == expected_result) {
        return Err(invalid("lifecycle transition state fingerprints", " do not bind the exact prior and resulting Charters"));
    }
    validate_reassessment_v1(&record.reassessment)?;
    validate_utc_second_v1(record.transitioned_at_utc.as_str(), "lifecycle transition time")?;
    let computed = match fingerprint_json(&lifecycle_preimage_json_text(record)) {
        Some(f) => f,
        None => {
            return Err(invalid("lifecycle transition 1.1", " fingerprint preimage is not canonical"));
        },
    };
    let declared = chars_of(record.transition_fingerprint.as_str());
    if !chars_eq(&declared, &computed) {
        return Err(invalid("lifecycle transition fingerprint", " has an invalid semantic preimage"));
    }
    let expected_id = id_from_fingerprint("lifecycle-transition_", &declared);
    if !(record.transition_id == expected_id) {
        return Err(invalid("lifecycle transition ID", " does not derive from its fingerprint"));
    }
    Ok(())
}

/// The record that rebases the lifecycle onto a posture transition: the fixed constants, the
/// draft's prior transition and prior state fingerprint, the `current` state over the
/// resulting Charter, and the posture's canonical fingerprints, pair, reassessment and time.
pub open spec fn lifecycle_record_matches(
    r: LifecycleTransitionRecordV11,
    posture: ValidatedPostureTransitionV1,
    draft: LifecycleTransitionDraftV11,
) -> bool {
    &&& r.schema_id@ == "handbook.lifecycle-transition"@
    &&& r.schema_version@ == "1.1"@
    &&& r.transition_kind@ == "posture_transition"@
    &&& r.lifecycle_policy.reference@ == LIFECYCLE_POLICY_REF@
    &&& r.lifecycle_policy.fingerprint@ == LIFECYCLE_POLICY_FINGERPRINT@
    &&& r.target_instance_id@ == "project_authority"@
    &&& r.prior_transition == draft.prior_transition
    &&& r.prior_state@ == "current"@
    &&& r.prior_state_fingerprint == draft.prior_state_fingerprint
    &&& r.new_observation_refs.len() == 0
    &&& r.active_observation_refs.len() == 0
    &&& r.result_state@ == "current"@
    &&& current_state_fingerprint_of(posture.record.resulting_canonical.fingerprint@) == Some(
        r.result_state_fingerprint@,
    )
    &&& r.prior_canonical_fingerprint@ == posture.record.expected_canonical.fingerprint@
    &&& r.resulting_canonical_fingerprint@ == posture.record.resulting_canonical.fingerprint@
    &&& (r.authority_transition.reference@, r.authority_transition.fingerprint@) == posture_pair_of(posture.record)
    &&& same_reassessment(r.reassessment, posture.record.reassessment)
    &&& r.transitioned_at_utc@ == posture.record.effective_at_utc@
}

/// Two reassessments with the same intake definition and the same lists.
pub open spec fn same_reassessment(a: PostureReassessmentV1, b: PostureReassessmentV1) -> bool {
    a.intake_definition == b.intake_definition && a.affected_coverage_ids@ == b.affected_coverage_ids@
        && a.validation_result_inputs@ == b.validation_result_inputs@
}

pub proof fn lemma_same_reassessment(a: PostureReassessmentV1, b: PostureReassessmentV1)
    requires
        same_reassessment(a, b),
    ensures
        reassessment_json(a) == reassessment_json(b),
        reassessment_valid(a) == reassessment_valid(b),
{
    reveal(reassessment_json);
}

/// Any two records that rebase the same posture transition from the same draft share their
/// fingerprint preimage.
proof fn lemma_lifecycle_preimages_agree(
    c: LifecycleTransitionRecordV11,
    record: LifecycleTransitionRecordV11,
    posture: ValidatedPostureTransitionV1,
    d: LifecycleTransitionDraftV11,
)
    requires
        lifecycle_record_matches(c, posture, d),
        lifecycle_record_matches(record, posture, d),
    ensures
        lifecycle_preimage_members(c) == lifecycle_preimage_members(record),
{
    reveal(pair_json);
    lemma_same_reassessment(c.reassessment, posture.record.reassessment);
    lemma_same_reassessment(record.reassessment, posture.record.reassessment);
    assert(string_views(c.new_observation_refs@) =~= string_views(record.new_observation_refs@));
    assert(string_views(c.active_observation_refs@) =~= string_views(record.active_observation_refs@));
    assert(lifecycle_preimage_members(c) =~= lifecycle_preimage_members(record));
}

/// Two records that rebase the same posture transition from the same draft and carry the same
/// ID and fingerprint have the same JSON, and are valid together.
proof fn lemma_lifecycle_records_agree(
    c: LifecycleTransitionRecordV11,
    record: LifecycleTransitionRecordV11,
    posture: ValidatedPostureTransitionV1,
    d: LifecycleTransitionDraftV11,
)
    requires
        lifecycle_record_matches(c, posture, d),
        lifecycle_record_matches(record, posture, d),
        c.transition_id@ == record.transition_id@,
        c.transition_fingerprint@ == record.transition_fingerprint@,
    ensures
        lifecycle_record_json(c) == lifecycle_record_json(record),
        lifecycle_record_valid(c) == lifecycle_record_valid(record),
{
    lemma_lifecycle_preimages_agree(c, record, posture, d);
    lemma_same_reassessment(c.reassessment, posture.record.reassessment);
    lemma_same_reassessment(record.reassessment, posture.record.reassessment);
    assert(lifecycle_record_json(c) =~= lifecycle_record_json(record));
}

pub open spec fn lifecycle_record_bytes_ok(r: LifecycleTransitionRecordV11) -> bool {
    jcs_lf_bytes(lifecycle_record_json(r)) matches Some(b) && b.len() <= MAX_POSTURE_RECORD_BYTES_V1
}

/// A copy of a reassessment.
pub fn copy_reassessment(r: &PostureReassessmentV1) -> (c: PostureReassessmentV1)
    ensures
        same_reassessment(c, *r),
{
    PostureReassessmentV1 {
        intake_definition: PairV1 {
            reference: r.intake_definition.reference.clone(),
            fingerprint: r.intake_definition.fingerprint.clone(),
        },
        affected_coverage_ids: crate::charter_lifecycle::copy_strings(&r.affected_coverage_ids),
        validation_result_inputs: copy_pairs(&r.validation_result_inputs),
    }
}

/// A copy of a list of pairs.
pub fn copy_pairs(v: &Vec<PairV1>) -> (r: Vec<PairV1>)
    ensures
        r@ == v@,
{
    let mut out: Vec<PairV1> = Vec::new();
    let mut i: usize = 0;
    while i < v.len()
        invariant
            i <= v.len(),
            out@ == v@.take(i as int),
        decreases v.len() - i,
    {
        out.push(PairV1 { reference: v[i].reference.clone(), fingerprint: v[i].fingerprint.clone() });
        assert(out@ =~= v@.take(i + 1));
        i = i + 1;
    }
    assert(v@.take(v@.len() as int) =~= v@);
    out
}

/// Constructs the lifecycle transition that rebases the lifecycle onto a posture transition.
/// Refused exactly when no valid, encodable record rebases it.
pub fn construct_lifecycle_transition_v11(
    posture: &ValidatedPostureTransitionV1,
    draft: LifecycleTransitionDraftV11,
) -> (r: Result<ValidatedLifecycleTransitionV11, PostureRecordValidationErrorV1>)
    ensures
        r matches Ok(v) ==> lifecycle_record_matches(v.record, *posture, draft) && lifecycle_record_valid(
            v.record,
        ) && jcs_lf_bytes(lifecycle_record_json(v.record)) == Some(v.raw_bytes@) && v.raw_bytes@.len()
            <= MAX_POSTURE_RECORD_BYTES_V1,
        r is Err ==> forall|c: LifecycleTransitionRecordV11|
            lifecycle_record_matches(c, *posture, draft) ==> !(lifecycle_record_valid(c)
                && lifecycle_record_bytes_ok(c)),
{
    let ghost d = draft;
    let result_state_fingerprint = match lifecycle_current_state_fingerprint(
        posture.record.resulting_canonical.fingerprint.as_str(),
    ) {
        Ok(f) => f,
        Err(e) => {
            return Err(e);
        },
    };
    let mut record = LifecycleTransitionRecordV11 {
        schema_id: "handbook.lifecycle-transition".to_owned(),
        schema_version: "1.1".to_owned(),
        transition_id: String::new(),
        transition_kind: "posture_transition".to_owned(),
        lifecycle_policy: PairV1 {
            reference: LIFECYCLE_POLICY_REF.to_owned(),
            fingerprint: LIFECYCLE_POLICY_FINGERPRINT.to_owned(),
        },
        target_instance_id: "project_authority".to_owned(),
        prior_transition: draft.prior_transition,
        prior_state: "current".to_owned(),
        prior_state_fingerprint: draft.prior_state_fingerprint,
        new_observation_refs: Vec::new(),
        active_observation_refs: Vec::new(),
        result_state: "current".to_owned(),
        result_state_fingerprint,
        prior_canonical_fingerprint: posture.record.expected_canonical.fingerprint.clone(),
        resulting_canonical_fingerprint: posture.record.resulting_canonical.fingerprint.clone(),
        authority_transition: posture_transition_pair_v1(posture),
        reassessment: copy_reassessment(&posture.record.reassessment),
        transitioned_at_utc: posture.record.effective_at_utc.clone(),
        extensions: EmptyExtensionsV1 {},
        transition_fingerprint: String::new(),
    };
    let ghost candidate = record;
    let fingerprint = match fingerprint_json(&lifecycle_preimage_json_text(&record)) {
        Some(f) => f,
        None => {
            proof {
                assert forall|c: LifecycleTransitionRecordV11|
                    lifecycle_record_matches(c, *posture, d) implies !(lifecycle_record_valid(c)
                    && lifecycle_record_bytes_ok(c)) by {
                    lemma_lifecycle_preimages_agree(c, candidate, *posture, d);
                }
            }
            return Err(invalid("lifecycle transition 1.1", " fingerprint preimage is not canonical"));
        },
    };
    record.transition_id = id_from_fingerprint("lifecycle-transition_", &fingerprint);
    record.transition_fingerprint = string_of(&fingerprint);
    proof {
        lemma_lifecycle_preimages_agree(record, candidate, *posture, d);
        assert forall|c: LifecycleTransitionRecordV11|
            lifecycle_record_matches(c, *posture, d) && lifecycle_record_valid(c) implies c.transition_id@
            == record.transition_id@ && c.transition_fingerprint@ == record.transition_fingerprint@ by {
            lemma_lifecycle_preimages_agree(c, record, *posture, d);
        }
    }
    let checked = validate_lifecycle_transition_record_v11(&record);
    if checked.is_err() {
        proof {
            assert forall|c: LifecycleTransitionRecordV11|
                lifecycle_record_matches(c, *posture, d) implies !(lifecycle_record_valid(c)
                && lifecycle_record_bytes_ok(c)) by {
                if lifecycle_record_valid(c) {
                    lemma_lifecycle_records_agree(c, record, *posture, d);
                }
            }
        }
        return Err(checked.unwrap_err());
    }
    let raw_bytes = match encode_jcs_lf(&lifecycle_record_json_text(&record)) {
        Some(b) => b,
        None => {
            proof {
                assert forall|c: LifecycleTransitionRecordV11|
                    lifecycle_record_matches(c, *posture, d) implies !(lifecycle_record_valid(c)
                    && lifecycle_record_bytes_ok(c)) by {
                    if lifecycle_record_valid(c) {
                        lemma_lifecycle_records_agree(c, record, *posture, d);
                    }
                }
            }
            return Err(invalid("lifecycle transition 1.1", " cannot be canonicalized"));
        },
    };
    if raw_bytes.len() > MAX_POSTURE_RECORD_BYTES_V1 {
        proof {
            assert forall|c: LifecycleTransitionRecordV11|
                lifecycle_record_matches(c, *posture, d) implies !(lifecycle_record_valid(c)
                && lifecycle_record_bytes_ok(c)) by {
                if lifecycle_record_valid(c) {
                    lemma_lifecycle_records_agree(c, record, *posture, d);
                }
            }
        }
        return Err(invalid("lifecycle transition 1.1", " exceeds its byte bound"));
    }
    Ok(ValidatedLifecycleTransitionV11 { record, raw_bytes })
}

/// The output record by which an intent binds a lifecycle transition.
pub fn lifecycle_transition_output_record_v11(transition: &ValidatedLifecycleTransitionV11) -> (r:
    OutputRecordV1)
    ensures
        r.reference@ == "lifecycle-transitions/"@ + transition.record.transition_id@ + ".json"@,
        r.fingerprint@ == transition.record.transition_fingerprint@,
        r.document_sha256@ == content_fingerprint(transition.raw_bytes@),
        r.byte_length == transition.raw_bytes@.len(),
{
    let mut reference = chars_of("lifecycle-transitions/");
    let mut id = chars_of(transition.record.transition_id.as_str());
    let mut suffix = chars_of(".json");
    reference.append(&mut id);
    reference.append(&mut suffix);
    OutputRecordV1 {
        reference: string_of(&reference),
        fingerprint: transition.record.transition_fingerprint.clone(),
        document_sha256: string_of(&fingerprint_of_bytes(transition.raw_bytes.as_slice())),
        byte_length: transition.raw_bytes.len() as u64,
    }
}

/// The commit marker of lifecycle transition bytes.
pub fn lifecycle_transition_marker_v11(record_bytes: &[u8]) -> (r: Vec<u8>)
    ensures
        r@ == marker_of(record_bytes@),
        r@.len() == 72,
{
    commit_marker(record_bytes)
}

/// A lifecycle transition rebases exactly this posture transition: it is valid, binds both
/// canonical Charters, the posture's pair, reassessment and time, and its state fingerprints
/// are the `current` states over the prior and resulting Charters.
pub open spec fn lifecycle_bindings_valid(
    lifecycle: LifecycleTransitionRecordV11,
    posture: crate::posture_records::PostureTransitionRecordV1,
) -> bool {
    &&& lifecycle_record_valid(lifecycle)
    &&& lifecycle.prior_canonical_fingerprint@ == posture.expected_canonical.fingerprint@
    &&& lifecycle.resulting_canonical_fingerprint@ == posture.resulting_canonical.fingerprint@
    &&& (lifecycle.authority_transition.reference@, lifecycle.authority_transition.fingerprint@)
        == posture_pair_of(posture)
    &&& reassessment_json(lifecycle.reassessment) == reassessment_json(posture.reassessment)
    &&& lifecycle.transitioned_at_utc@ == posture.effective_at_utc@
    &&& current_state_fingerprint_of(posture.expected_canonical.fingerprint@) == Some(
        lifecycle.prior_state_fingerprint@,
    )
    &&& current_state_fingerprint_of(posture.resulting_canonical.fingerprint@) == Some(
        lifecycle.result_state_fingerprint@,
    )
}

pub fn validate_lifecycle_transition_bindings_v11(
    lifecycle: &ValidatedLifecycleTransitionV11,
    posture: &ValidatedPostureTransitionV1,
) -> (r: Result<(), PostureRecordValidationErrorV1>)
    ensures
        r is Ok <==> lifecycle_bindings_valid(lifecycle.record, posture.record),
{
    validate_lifecycle_transition_record_v11(&lifecycle.record)?;
    let pair = posture_transition_pair_v1(posture);
    if !(lifecycle.record.prior_canonical_fingerprint == posture.record.expected_canonical.fingerprint)
        || !(lifecycle.record.resulting_canonical_fingerprint == posture.record.resulting_canonical.fingerprint)
        || !(lifecycle.record.authority_transition.reference == pair.reference)
        || !(lifecycle.record.authority_transition.fingerprint == pair.fingerprint) || !chars_eq(
        &reassessment_json_text(&lifecycle.record.reassessment),
        &reassessment_json_text(&posture.record.reassessment),
    ) || !(lifecycle.record.transitioned_at_utc == posture.record.effective_at_utc) {
        return Err(invalid("lifecycle transition posture-rebase bindings", " are substituted or incomplete"));
    }
    let expected_prior = lifecycle_current_state_fingerprint(posture.record.expected_canonical.fingerprint.as_str())?;
    let expected_result = lifecycle_current_state_fingerprint(posture.record.resulting_canonical.fingerprint.as_str())?;
    if !(lifecycle.record.prior_state_fingerprint == expected_prior) || !(lifecycle.record.result_state_fingerprint
        == expected_result) {
        return Err(invalid("lifecycle transition state fingerprints", " do not bind the exact prior and resulting Charters"));
    }
    Ok(())
}

/// Accepts the bytes of a lifecycle transition together with the record decoded from them:
/// the bytes must be framed, be exactly the canonical encoding of that record, and the record
/// must be valid.
pub fn parse_lifecycle_transition_v11(bytes: &[u8], record: LifecycleTransitionRecordV11) -> (r:
    Result<ValidatedLifecycleTransitionV11, PostureRecordValidationErrorV1>)
    ensures
        r is Ok <==> crate::charter_posture_transaction_intent_v1::jcs_lf_framed(
            bytes@,
            MAX_POSTURE_RECORD_BYTES_V1 as nat,
        ) && jcs_lf_bytes(lifecycle_record_json(record)) == Some(bytes@) && lifecycle_record_valid(
            record,
        ),
        r matches Ok(v) ==> v.record == record && v.raw_bytes@ == bytes@,
{
    crate::charter_posture_transaction_intent_v1::check_jcs_lf_framing(
        bytes,
        MAX_POSTURE_RECORD_BYTES_V1,
        "lifecycle transition 1.1",
    )?;
    crate::charter_posture_transaction_intent_v1::check_exact_encoding(
        bytes,
        &lifecycle_record_json_text(&record),
        "lifecycle transition 1.1",
    )?;
    validate_lifecycle_transition_record_v11(&record)?;
    Ok(ValidatedLifecycleTransitionV11 { record, raw_bytes: crate::json::bytes_to_vec(bytes) })
}

} // verus!
