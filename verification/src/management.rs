//! Mission management: creating, editing and soft-deleting missions.
//!
//! A mission's name must be at least three characters after trimming and
//! its capacity must lie in `[2, 10]`. Details may be edited only while the
//! mission is `Open`, only by its chief, and the capacity may never fall
//! below the current crew size. Removal is a soft delete: the record stays.

use vstd::prelude::*;
use vstd::string::StrSliceExecFns;

use crate::clock::now_rfc3339;
use crate::errors::EngineError;
use crate::model::{AddMissionModel, EditMissionModel};
use crate::store::{crew_size, MembershipStore};

verus! {

/// What `str::trim` returns for the given characters.
pub uninterp spec fn trimmed(s: Seq<char>) -> Seq<char>;

/// Relies on `str::trim`: removes leading and trailing whitespace, so the
/// result depends on the characters alone and is never longer than the
/// input.
#[verifier::external_body]
fn trim_str(s: &str) -> (r: String)
    ensures
        r@ == trimmed(s@),
        r@.len() <= s@.len(),
{
    s.trim().to_string()
}

/// The mission management use case.
pub struct MissionManagementUseCase {}

impl MissionManagementUseCase {
    /// A new management handle.
    pub fn new() -> (r: MissionManagementUseCase) {
        MissionManagementUseCase {}
    }

    /// The outcome a creation request is owed: the trimmed name must be at
    /// least three characters, the capacity within `[2, 10]`, and the chief
    /// must exist.
    pub open spec fn add_outcome(
        store: MembershipStore,
        chief_id: usize,
        name: Seq<char>,
        max_crew: u32,
    ) -> Result<usize, EngineError> {
        if trimmed(name).len() < 3 {
            Err(EngineError::ValidationError)
        } else if !(2 <= max_crew <= 10) {
            Err(EngineError::ValidationError)
        } else if chief_id >= store.members@.len() {
            Err(EngineError::NotFound)
        } else {
            Ok(store.missions@.len() as usize)
        }
    }

    /// Creates a mission led by `chief_id` and returns its identity. The
    /// mission starts `Open` with an empty crew.
    pub fn add(
        &self,
        store: &mut MembershipStore,
        chief_id: usize,
        add_mission_model: AddMissionModel,
    ) -> (r: Result<usize, EngineError>)
        requires
            old(store).wf(),
        ensures
            final(store).wf(),
            r == MissionManagementUseCase::add_outcome(
                *old(store),
                chief_id,
                add_mission_model.name@,
                add_mission_model.max_crew,
            ),
            r is Err ==> *final(store) == *old(store),
            r matches Ok(id) ==> ({
                &&& id == old(store).missions@.len()
                &&& final(store).missions@.len() == old(store).missions@.len() + 1
                &&& (forall|j: int|
                    0 <= j < old(store).missions@.len() ==> #[trigger] final(store).missions@[j]
                        == old(store).missions@[j])
                &&& final(store).missions@.last().name == add_mission_model.name
                &&& final(store).missions@.last().description == add_mission_model.description
                &&& final(store).missions@.last().category == add_mission_model.category
                &&& final(store).missions@.last().max_crew == add_mission_model.max_crew
                &&& final(store).missions@.last().status is Open
                &&& final(store).missions@.last().chief_id == chief_id
                &&& !final(store).missions@.last().deleted
                &&& final(store).members@ == old(store).members@
                &&& final(store).memberships@ == old(store).memberships@
                &&& final(store).achievements@ == old(store).achievements@
                &&& final(store).earned@ == old(store).earned@
                &&& final(store).messages@ == old(store).messages@
                &&& final(store).invites@ == old(store).invites@
            }),
    {
        let trimmed_name = trim_str(add_mission_model.name.as_str());
        if trimmed_name.as_str().unicode_len() < 3 {
            return Err(EngineError::ValidationError);
        }
        if add_mission_model.max_crew < 2 || add_mission_model.max_crew > 10 {
            return Err(EngineError::ValidationError);
        }
        let stamp = now_rfc3339();
        match store.create_mission(
            chief_id,
            add_mission_model.name,
            add_mission_model.description,
            add_mission_model.category,
            add_mission_model.max_crew,
            stamp,
        ) {
            Ok(id) => Ok(id),
            Err(e) => {
                proof {
                    assert(e == EngineError::NotFound);
                }
                Err(e)
            },
        }
    }

    /// The outcome an edit request is owed. An empty trimmed name means
    /// "leave the name unchanged"; a non-empty name shorter than three
    /// characters is rejected; then the store's own edit guards apply
    /// (chief only, `Open` only, capacity within `[2, 10]` and at or above
    /// the crew size).
    pub open spec fn edit_outcome(
        store: MembershipStore,
        mission_id: usize,
        chief_id: usize,
        model: EditMissionModel,
    ) -> Result<usize, EngineError> {
        if model.name matches Some(n) && 0 < trimmed(n@).len() < 3 {
            Err(EngineError::ValidationError)
        } else if model.max_crew matches Some(c) && !(2 <= c <= 10) {
            Err(EngineError::ValidationError)
        } else if model.max_crew matches Some(c) && c < crew_size(
            store.memberships@,
            mission_id,
        ) {
            Err(EngineError::ValidationError)
        } else {
            match store.edit_verdict(mission_id, chief_id, model.max_crew) {
                Ok(_) => Ok(mission_id),
                Err(e) => Err(e),
            }
        }
    }

    /// Edits a mission's details: only the chief, only while `Open`. `None`
    /// fields are left unchanged; a name that trims to empty is treated as
    /// absent, and a set name is stored trimmed. Returns the mission's
    /// identity.
    pub fn edit(
        &self,
        store: &mut MembershipStore,
        mission_id: usize,
        chief_id: usize,
        edit_mission_model: EditMissionModel,
    ) -> (r: Result<usize, EngineError>)
        requires
            old(store).wf(),
        ensures
            final(store).wf(),
            r == MissionManagementUseCase::edit_outcome(
                *old(store),
                mission_id,
                chief_id,
                edit_mission_model,
            ),
            r is Err ==> *final(store) == *old(store),
            r matches Ok(id) ==> ({
                let rec = old(store).missions@[mission_id as int];
                let updated = final(store).missions@[mission_id as int];
                &&& id == mission_id
                &&& final(store).missions@ == old(store).missions@.update(
                    mission_id as int,
                    updated,
                )
                &&& updated.name@ == (match edit_mission_model.name {
                    Some(n) => if trimmed(n@).len() > 0 {
                        trimmed(n@)
                    } else {
                        rec.name@
                    },
                    None => rec.name@,
                })
                &&& updated.description == (if edit_mission_model.description is Some {
                    edit_mission_model.description
                } else {
                    rec.description
                })
                &&& updated.category == (if edit_mission_model.category is Some {
                    edit_mission_model.category
                } else {
                    rec.category
                })
                &&& updated.max_crew == (if edit_mission_model.max_crew is Some {
                    edit_mission_model.max_crew->0
                } else {
                    rec.max_crew
                })
                &&& updated.status == rec.status
                &&& updated.chief_id == rec.chief_id
                &&& updated.deleted == rec.deleted
                &&& final(store).members@ == old(store).members@
                &&& final(store).memberships@ == old(store).memberships@
                &&& final(store).achievements@ == old(store).achievements@
                &&& final(store).earned@ == old(store).earned@
                &&& final(store).messages@ == old(store).messages@
                &&& final(store).invites@ == old(store).invites@
            }),
    {
        let name_change: Option<String> = match edit_mission_model.name {
            Some(n) => {
                let t = trim_str(n.as_str());
                if t.as_str().unicode_len() == 0 {
                    None
                } else if t.as_str().unicode_len() < 3 {
                    return Err(EngineError::ValidationError);
                } else {
                    Some(t)
                }
            },
            None => None,
        };
        if let Some(c) = edit_mission_model.max_crew {
            if c < 2 || c > 10 {
                return Err(EngineError::ValidationError);
            }
            let count = store.crew_counting(mission_id);
            if (c as usize) < count {
                return Err(EngineError::ValidationError);
            }
        }
        let changes = EditMissionModel {
            name: name_change,
            description: edit_mission_model.description,
            category: edit_mission_model.category,
            max_crew: edit_mission_model.max_crew,
        };
        let stamp = now_rfc3339();
        store.edit_mission(mission_id, chief_id, changes, stamp)
    }

    /// Soft-deletes a mission: only the chief, only while `Open`. Like the
    /// underlying delete, a miss is not an error.
    pub fn remove(&self, store: &mut MembershipStore, mission_id: usize, chief_id: usize) -> (r:
        Result<(), EngineError>)
        requires
            old(store).wf(),
        ensures
            final(store).wf(),
            r is Ok,
            ({
                let applies = mission_id < old(store).missions@.len() && old(store).missions@[
                    mission_id as int
                ].chief_id == chief_id && !old(store).missions@[mission_id as int].deleted && old(store).missions@[mission_id as int].status is Open;
                &&& (applies ==> final(store).missions@[mission_id as int].deleted && final(store).missions@.len() == old(store).missions@.len() && (forall|j: int|
                    0 <= j < old(store).missions@.len() && j != mission_id ==> #[trigger] final(store).missions@[j] == old(store).missions@[j]))
                &&& (!applies ==> *final(store) == *old(store))
            }),
            final(store).members@ == old(store).members@,
            final(store).memberships@ == old(store).memberships@,
            final(store).achievements@ == old(store).achievements@,
            final(store).earned@ == old(store).earned@,
            final(store).messages@ == old(store).messages@,
            final(store).invites@ == old(store).invites@,
    {
        let stamp = now_rfc3339();
        store.soft_delete(mission_id, chief_id, stamp);
        Ok(())
    }
}

} // verus!
