//! The membership store contract consumed by the crew coordinator.
//!
//! The trait captures the durable crew primitives an implementation must
//! provide: an insert whose uniqueness check is authoritative (a duplicate
//! surfaces as `AlreadyJoined` no matter what any pre-check said), an
//! unconditional delete, and an existence check. [`MembershipStore`] is the
//! engine's implementation.

use vstd::prelude::*;

use crate::errors::EngineError;
use crate::model::CrewMembership;
use crate::store::{has_pair, MembershipStore};

verus! {

/// Durable crew-membership primitives.
pub trait CrewOperationRepository: Sized {
    /// The implementation's invariant, preserved by every operation.
    spec fn repo_inv(&self) -> bool;

    /// The membership rows the implementation currently holds.
    spec fn crew_pairs(&self) -> Seq<CrewMembership>;

    /// Inserts a membership row. Uniqueness is enforced here, atomically:
    /// a row that already exists is rejected as `AlreadyJoined`, whatever
    /// any application-level pre-check concluded.
    fn join(&mut self, crew_membership: CrewMembership) -> (r: Result<(), EngineError>)
        requires
            old(self).repo_inv(),
        ensures
            final(self).repo_inv(),
            r is Ok ==> final(self).crew_pairs() == old(self).crew_pairs().push(crew_membership),
            r is Ok ==> !has_pair(
                old(self).crew_pairs(),
                crew_membership.mission_id,
                crew_membership.member_id,
            ),
            r is Err ==> final(self).crew_pairs() == old(self).crew_pairs(),
            has_pair(
                old(self).crew_pairs(),
                crew_membership.mission_id,
                crew_membership.member_id,
            ) ==> r == Err::<(), EngineError>(EngineError::AlreadyJoined),
    ;

    /// Deletes the membership row if present; deleting an absent row is
    /// not an error.
    fn leave(&mut self, crew_membership: CrewMembership) -> (r: Result<(), EngineError>)
        requires
            old(self).repo_inv(),
        ensures
            final(self).repo_inv(),
            r is Ok,
            !has_pair(
                final(self).crew_pairs(),
                crew_membership.mission_id,
                crew_membership.member_id,
            ),
            forall|m2: usize, u2: usize|
                !(m2 == crew_membership.mission_id && u2 == crew_membership.member_id)
                    ==> #[trigger] has_pair(final(self).crew_pairs(), m2, u2) == has_pair(
                    old(self).crew_pairs(),
                    m2,
                    u2,
                ),
    ;

    /// Whether a membership row for (mission, member) is present.
    fn is_member(&self, mission_id: usize, member_id: usize) -> (r: Result<bool, EngineError>)
        requires
            self.repo_inv(),
        ensures
            r matches Ok(b) ==> b == has_pair(self.crew_pairs(), mission_id, member_id),
    ;
}

impl CrewOperationRepository for MembershipStore {
    open spec fn repo_inv(&self) -> bool {
        self.wf()
    }

    open spec fn crew_pairs(&self) -> Seq<CrewMembership> {
        self.memberships@
    }

    fn join(&mut self, crew_membership: CrewMembership) -> (r: Result<(), EngineError>) {
        self.insert_membership(crew_membership.mission_id, crew_membership.member_id)
    }

    fn leave(&mut self, crew_membership: CrewMembership) -> (r: Result<(), EngineError>) {
        self.remove_membership(crew_membership.mission_id, crew_membership.member_id);
        Ok(())
    }

    fn is_member(&self, mission_id: usize, member_id: usize) -> (r: Result<bool, EngineError>) {
        Ok(MembershipStore::is_member(self, mission_id, member_id))
    }
}

} // verus!
