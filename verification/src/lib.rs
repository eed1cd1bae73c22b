pub mod text;
pub mod digest;
pub mod json;
pub mod utc;
pub mod definition_ref;
pub mod charter_lifecycle;
pub mod charter_lifecycle_store;
pub mod posture_records;
pub mod charter_posture_transaction_intent_v1;
pub mod charter_lifecycle_transition_v11;
pub mod charter_lineage_store;
pub mod charter_lifecycle_validation;
pub mod historical_candidate;
pub mod charter_intake;
pub mod charter_intake_assembly;
pub mod promotion_records;
pub mod charter_promotion_workflow;
pub mod context_resolution;
pub mod charter_observation;
pub mod charter_promotion_intent_v12;
pub mod charter_runtime_vectors;
pub mod authority_capsule;

pub use charter_lifecycle::{
    address_charter_lifecycle, apply_charter_lifecycle_events, CharterLifecycleError,
    CharterLifecycleErrorKind, CharterLifecycleEvent, CharterLifecycleEventKind,
    CharterLifecycleObservation, CharterLifecycleState, CharterLifecycleTransition,
};
pub use charter_lifecycle_store::{
    charter_lifecycle_event_commit_marker, charter_lifecycle_state_fingerprint,
    classify_lifecycle_recovery, CharterLifecycleAuthorityV1, CharterLifecycleEventCommitV1,
    CharterLifecycleEventDispositionV1, CharterLifecycleEventIntentV1,
    CharterLifecycleRecoveryActionV1, CharterLifecycleRecoveryInputsV1,
    CharterLifecycleStoreErrorKindV1, CharterLifecycleStoreErrorV1,
    CHARTER_LIFECYCLE_POLICY_REF, CHARTER_REVIEW_TRIGGER_REF, PRODUCTION_POSTURE_TRIGGER_REF,
    TRUST_BOUNDARY_TRIGGER_REF,
};
