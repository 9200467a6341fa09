//! Error taxonomy of the engine.
//!
//! Primary-operation errors propagate to the caller and abort the operation
//! before any mutation. Side effects that run after a committed mutation never
//! surface an error to the caller of the primary operation.

use vstd::prelude::*;

verus! {

/// Why an engine operation was rejected.
#[derive(Clone, Copy, Debug, PartialEq, Eq, Structural)]
pub enum EngineError {
    /// Bad input shape or range, such as a capacity outside `[2, 10]`.
    ValidationError,
    /// A state-machine precondition was not met.
    InvalidTransition,
    /// The member already holds a membership row for this mission.
    AlreadyJoined,
    /// The crew already has `max_crew` members.
    MissionFull,
    /// A chief may not join their own mission as crew.
    SelfJoinForbidden,
    /// The mission is in a status that does not accept joins.
    NotJoinable,
    /// The member already has a pending invite for this mission.
    AlreadyInvited,
    /// The acting member is not allowed to perform a chief-only action.
    NotAuthorized,
    /// The mission, invite or member does not exist.
    NotFound,
    /// The underlying persistence layer failed.
    StoreFailure,
    /// An achievement, notification or broadcast step failed; never propagated
    /// past the primary operation.
    SideEffectFailure,
}

impl EngineError {
    /// A short, stable label for transport-layer mapping and logs.
    pub fn label(&self) -> (r: String)
        ensures
            *self == EngineError::ValidationError ==> r@ == "validation_error"@,
            *self == EngineError::InvalidTransition ==> r@ == "invalid_transition"@,
            *self == EngineError::AlreadyJoined ==> r@ == "already_joined"@,
            *self == EngineError::MissionFull ==> r@ == "mission_full"@,
            *self == EngineError::SelfJoinForbidden ==> r@ == "self_join_forbidden"@,
            *self == EngineError::NotJoinable ==> r@ == "not_joinable"@,
            *self == EngineError::AlreadyInvited ==> r@ == "already_invited"@,
            *self == EngineError::NotAuthorized ==> r@ == "not_authorized"@,
            *self == EngineError::NotFound ==> r@ == "not_found"@,
            *self == EngineError::StoreFailure ==> r@ == "store_failure"@,
            *self == EngineError::SideEffectFailure ==> r@ == "side_effect_failure"@,
    {
        match self {
            EngineError::ValidationError => "validation_error".to_owned(),
            EngineError::InvalidTransition => "invalid_transition".to_owned(),
            EngineError::AlreadyJoined => "already_joined".to_owned(),
            EngineError::MissionFull => "mission_full".to_owned(),
            EngineError::SelfJoinForbidden => "self_join_forbidden".to_owned(),
            EngineError::NotJoinable => "not_joinable".to_owned(),
            EngineError::AlreadyInvited => "already_invited".to_owned(),
            EngineError::NotAuthorized => "not_authorized".to_owned(),
            EngineError::NotFound => "not_found".to_owned(),
            EngineError::StoreFailure => "store_failure".to_owned(),
            EngineError::SideEffectFailure => "side_effect_failure".to_owned(),
        }
    }
}

} // verus!
