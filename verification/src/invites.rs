//! The invite subsystem: an alternate entry path into the crew.
//!
//! An invitation is created pending, at most one pending per (mission,
//! member). Accepting re-checks capacity at acceptance time and then
//! performs the same join side effects as a direct join: membership insert,
//! join-counter bump, achievement pass, and a persisted + broadcast system
//! message. Declining is an authorization-checked status update only.

use vstd::prelude::*;

use crate::achievements::award_indexes;
use crate::effects::{broadcast_system, log_and_broadcast_system};
use crate::errors::EngineError;
use crate::model::{
    ConditionType, InviteStatus, MissionInvite, MissionInviteDetails, NewMissionInvite,
};
use crate::realtime::{broadcast_batch, ChatMessage, MissionRealtimeService};
use crate::store::{bump_counter, crew_size, has_pair, pending_invite, MembershipStore};
use crate::texts;

verus! {

/// The transport payload naming the member an invitation targets.
#[derive(Clone, Copy, Debug, PartialEq, Eq, Structural)]
pub struct InviteUserPayload {
    pub user_id: usize,
}

/// The invite subsystem.
pub struct MissionInviteUseCase {}

impl MissionInviteUseCase {
    /// A new invite subsystem handle.
    pub fn new() -> (r: MissionInviteUseCase) {
        MissionInviteUseCase {}
    }

    /// Fans one system message out to the mission's subscribers without
    /// persisting it.
    pub(crate) fn broadcast_system_message(
        &self,
        realtime: &mut MissionRealtimeService,
        mission_id: usize,
        content: String,
    ) -> (m: Ghost<ChatMessage>)
        requires
            old(realtime).wf(),
        ensures
            final(realtime).wf(),
            broadcast_batch(*old(realtime), *final(realtime), mission_id, seq![m@]),
            m@.kind is System && m@.user_id is None && m@.mission_id == mission_id && m@.content
                == content,
    {
        broadcast_system(realtime, mission_id, content)
    }

    /// The outcome an invitation is owed: the mission and target must
    /// exist, and the target must be neither a crew member already nor
    /// already holding a pending invite.
    pub open spec fn invite_outcome(
        store: MembershipStore,
        mission_id: usize,
        user_id: usize,
    ) -> Result<usize, EngineError> {
        if mission_id >= store.missions@.len() || user_id >= store.members@.len() {
            Err(EngineError::NotFound)
        } else if has_pair(store.memberships@, mission_id, user_id) {
            Err(EngineError::AlreadyJoined)
        } else if pending_invite(store.invites@, mission_id, user_id) {
            Err(EngineError::AlreadyInvited)
        } else {
            Ok(store.invites@.len() as usize)
        }
    }

    /// Invites a member into a mission's crew: creates a pending invitation
    /// and broadcasts an announcement to the mission's subscribers. Returns
    /// the invitation's identity.
    pub fn invite(
        &self,
        store: &mut MembershipStore,
        realtime: &mut MissionRealtimeService,
        mission_id: usize,
        inviter_id: usize,
        user_id: usize,
    ) -> (r: Result<usize, EngineError>)
        requires
            old(store).wf(),
            old(realtime).wf(),
        ensures
            final(store).wf(),
            final(realtime).wf(),
            r == MissionInviteUseCase::invite_outcome(*old(store), mission_id, user_id),
            r is Err ==> *final(store) == *old(store) && *final(realtime) == *old(realtime),
            r matches Ok(id) ==> ({
                &&& id == old(store).invites@.len()
                &&& final(store).invites@.len() == old(store).invites@.len() + 1
                &&& (forall|j: int|
                    0 <= j < old(store).invites@.len() ==> #[trigger] final(store).invites@[j]
                        == old(store).invites@[j])
                &&& final(store).invites@.last().mission_id == mission_id
                &&& final(store).invites@.last().user_id == user_id
                &&& final(store).invites@.last().status is Pending
                &&& final(store).missions@ == old(store).missions@
                &&& final(store).members@ == old(store).members@
                &&& final(store).memberships@ == old(store).memberships@
                &&& final(store).achievements@ == old(store).achievements@
                &&& final(store).earned@ == old(store).earned@
                &&& final(store).messages@ == old(store).messages@
                &&& (exists|msgs: Seq<ChatMessage>|
                    {
                        &&& #[trigger] broadcast_batch(
                            *old(realtime),
                            *final(realtime),
                            mission_id,
                            msgs,
                        )
                        &&& msgs.len() == 1
                        &&& msgs[0].kind is System
                        &&& msgs[0].content@ == old(store).members@[user_id as int].display_name@
                            + " was invited to the mission"@
                    })
            }),
    {
        if mission_id >= store.missions.len() || user_id >= store.members.len() {
            return Err(EngineError::NotFound);
        }
        if store.is_member(mission_id, user_id) {
            return Err(EngineError::AlreadyJoined);
        }
        if store.check_exists(mission_id, user_id) {
            return Err(EngineError::AlreadyInvited);
        }
        let stamp = crate::clock::now_rfc3339();
        let id = match store.create_invite(
            NewMissionInvite { mission_id, user_id, status: InviteStatus::Pending },
            stamp,
        ) {
            Ok(id) => id,
            Err(_) => {
                proof {
                    assert(false);
                }
                0
            },
        };
        let content = match store.find_member(user_id) {
            Some(m) => texts::invite_message(m.display_name.as_str()),
            None => {
                proof {
                    assert(false);
                }
                String::new()
            },
        };
        let gm = self.broadcast_system_message(realtime, mission_id, content);
        proof {
            assert(broadcast_batch(*old(realtime), *realtime, mission_id, seq![gm@]));
        }
        Ok(id)
    }

    /// Invite, taking the transport payload that names the target.
    pub fn invite_user(
        &self,
        store: &mut MembershipStore,
        realtime: &mut MissionRealtimeService,
        mission_id: usize,
        inviter_id: usize,
        payload: InviteUserPayload,
    ) -> (r: Result<usize, EngineError>)
        requires
            old(store).wf(),
            old(realtime).wf(),
        ensures
            final(store).wf(),
            final(realtime).wf(),
            r == MissionInviteUseCase::invite_outcome(*old(store), mission_id, payload.user_id),
            r is Err ==> *final(store) == *old(store) && *final(realtime) == *old(realtime),
            r matches Ok(id) ==> ({
                &&& id == old(store).invites@.len()
                &&& final(store).invites@.len() == old(store).invites@.len() + 1
                &&& (forall|j: int|
                    0 <= j < old(store).invites@.len() ==> #[trigger] final(store).invites@[j]
                        == old(store).invites@[j])
                &&& final(store).invites@.last().mission_id == mission_id
                &&& final(store).invites@.last().user_id == payload.user_id
                &&& final(store).invites@.last().status is Pending
                &&& final(store).missions@ == old(store).missions@
                &&& final(store).members@ == old(store).members@
                &&& final(store).memberships@ == old(store).memberships@
                &&& final(store).achievements@ == old(store).achievements@
                &&& final(store).earned@ == old(store).earned@
                &&& final(store).messages@ == old(store).messages@
                &&& (exists|msgs: Seq<ChatMessage>|
                    {
                        &&& #[trigger] broadcast_batch(
                            *old(realtime),
                            *final(realtime),
                            mission_id,
                            msgs,
                        )
                        &&& msgs.len() == 1
                        &&& msgs[0].kind is System
                        &&& msgs[0].content@ == old(store).members@[
                            payload.user_id as int
                        ].display_name@ + " was invited to the mission"@
                    })
            }),
    {
        self.invite(store, realtime, mission_id, inviter_id, payload.user_id)
    }

    /// The outcome an acceptance is owed: the invite must exist, be
    /// addressed to the caller and still pending; the mission must have
    /// room (re-checked at acceptance time); and the membership insert's
    /// own guards apply last.
    pub open spec fn accept_outcome(
        store: MembershipStore,
        invite_id: usize,
        user_id: usize,
    ) -> Result<(), EngineError> {
        if invite_id >= store.invites@.len() {
            Err(EngineError::NotFound)
        } else if store.invites@[invite_id as int].user_id != user_id {
            Err(EngineError::NotAuthorized)
        } else if !(store.invites@[invite_id as int].status is Pending) {
            Err(EngineError::InvalidTransition)
        } else if crew_size(store.memberships@, store.invites@[invite_id as int].mission_id)
            >= store.missions@[store.invites@[invite_id as int].mission_id as int].max_crew {
            Err(EngineError::MissionFull)
        } else {
            store.join_verdict(store.invites@[invite_id as int].mission_id, user_id)
        }
    }

    /// Accepts an invitation: inserts the membership (same authoritative
    /// guards as a direct join), marks the invite accepted, bumps the join
    /// counter, runs the join achievement pass, and persists + broadcasts a
    /// "joined via invite" system message.
    pub fn accept(
        &self,
        store: &mut MembershipStore,
        realtime: &mut MissionRealtimeService,
        invite_id: usize,
        user_id: usize,
    ) -> (r: Result<(), EngineError>)
        requires
            old(store).wf(),
            old(realtime).wf(),
        ensures
            final(store).wf(),
            final(realtime).wf(),
            r == MissionInviteUseCase::accept_outcome(*old(store), invite_id, user_id),
            r is Err ==> *final(store) == *old(store) && *final(realtime) == *old(realtime),
            r is Ok ==> ({
                let mission_id = old(store).invites@[invite_id as int].mission_id;
                let joined_count = bump_counter(
                    old(store).members@[user_id as int].mission_join_count,
                );
                let ids = award_indexes(
                    old(store).achievements@,
                    old(store).earned@,
                    user_id,
                    ConditionType::MissionJoin,
                    joined_count,
                );
                let dn = old(store).members@[user_id as int].display_name;
                &&& final(store).memberships@ == old(store).memberships@.push(
                    crate::model::CrewMembership { mission_id, member_id: user_id },
                )
                &&& final(store).members@.len() == old(store).members@.len()
                &&& final(store).members@[user_id as int].mission_join_count == joined_count
                &&& (forall|j: int|
                    0 <= j < old(store).members@.len() && j != user_id ==> #[trigger] final(store).members@[j] == old(store).members@[j])
                &&& final(store).invites@ == old(store).invites@.update(
                    invite_id as int,
                    MissionInvite {
                        status: InviteStatus::Accepted,
                        ..old(store).invites@[invite_id as int]
                    },
                )
                &&& final(store).missions@ == old(store).missions@
                &&& final(store).achievements@ == old(store).achievements@
                &&& final(store).earned@.len() == old(store).earned@.len() + ids.len()
                &&& (forall|j: int|
                    0 <= j < old(store).earned@.len() ==> #[trigger] final(store).earned@[j]
                        == old(store).earned@[j])
                &&& (forall|t: int|
                    0 <= t < ids.len() ==> (#[trigger] final(store).earned@[old(store).earned@.len() + t]).member_id == user_id && final(store).earned@[old(store).earned@.len() + t].achievement_id == ids[t])
                &&& final(store).messages@.len() == old(store).messages@.len() + 1
                &&& (forall|j: int|
                    0 <= j < old(store).messages@.len() ==> #[trigger] final(store).messages@[j]
                        == old(store).messages@[j])
                &&& final(store).messages@.last().kind is System
                &&& final(store).messages@.last().mission_id == mission_id
                &&& final(store).messages@.last().content@ == dn@
                    + " joined the mission via invite"@
                &&& (exists|msgs: Seq<ChatMessage>|
                    {
                        &&& #[trigger] broadcast_batch(
                            *old(realtime),
                            *final(realtime),
                            mission_id,
                            msgs,
                        )
                        &&& msgs.len() == 1
                        &&& msgs[0].kind is System
                        &&& msgs[0].content@ == dn@ + " joined the mission via invite"@
                    })
            }),
    {
        let invite = match store.find_invite(invite_id) {
            Some(inv) => inv,
            None => {
                return Err(EngineError::NotFound);
            },
        };
        if invite.user_id != user_id {
            return Err(EngineError::NotAuthorized);
        }
        if !matches!(invite.status, InviteStatus::Pending) {
            return Err(EngineError::InvalidTransition);
        }
        let mission_id = invite.mission_id;
        let crew_count = store.crew_counting(mission_id);
        if crew_count >= self_mission_capacity(store, mission_id) {
            return Err(EngineError::MissionFull);
        }
        match store.insert_membership(mission_id, user_id) {
            Ok(()) => {},
            Err(e) => {
                return Err(e);
            },
        }
        match store.update_invite_status(invite_id, InviteStatus::Accepted) {
            Ok(()) => {},
            Err(_) => {
                proof {
                    assert(false);
                }
            },
        }
        let member = match store.find_member(user_id) {
            Some(m) => m,
            None => {
                proof {
                    assert(false);
                }
                return Err(EngineError::NotFound);
            },
        };
        let stamp = crate::clock::now_rfc3339();
        match store.check_and_award(
            user_id,
            ConditionType::MissionJoin,
            member.mission_join_count,
            stamp,
        ) {
            Ok(_) => {},
            Err(_) => {
                proof {
                    assert(false);
                }
            },
        }
        let gm = log_and_broadcast_system(
            store,
            realtime,
            mission_id,
            texts::invite_accept_message(member.display_name.as_str()),
        );
        proof {
            assert(broadcast_batch(*old(realtime), *realtime, mission_id, seq![gm@]));
        }
        Ok(())
    }

    /// Declines an invitation: an authorization-checked status update with
    /// no further side effects.
    pub fn decline(&self, store: &mut MembershipStore, invite_id: usize, user_id: usize) -> (r:
        Result<(), EngineError>)
        requires
            old(store).wf(),
        ensures
            final(store).wf(),
            r == (if invite_id >= old(store).invites@.len() {
                Err::<(), EngineError>(EngineError::NotFound)
            } else if old(store).invites@[invite_id as int].user_id != user_id {
                Err::<(), EngineError>(EngineError::NotAuthorized)
            } else {
                Ok::<(), EngineError>(())
            }),
            r is Err ==> *final(store) == *old(store),
            r is Ok ==> final(store).invites@ == old(store).invites@.update(
                invite_id as int,
                MissionInvite {
                    status: InviteStatus::Rejected,
                    ..old(store).invites@[invite_id as int]
                },
            ),
            final(store).missions@ == old(store).missions@,
            final(store).members@ == old(store).members@,
            final(store).memberships@ == old(store).memberships@,
            final(store).achievements@ == old(store).achievements@,
            final(store).earned@ == old(store).earned@,
            final(store).messages@ == old(store).messages@,
    {
        let invite = match store.find_invite(invite_id) {
            Some(inv) => inv,
            None => {
                return Err(EngineError::NotFound);
            },
        };
        if invite.user_id != user_id {
            return Err(EngineError::NotAuthorized);
        }
        match store.update_invite_status(invite_id, InviteStatus::Rejected) {
            Ok(()) => {},
            Err(_) => {
                proof {
                    assert(false);
                }
            },
        }
        Ok(())
    }

    /// Lists the caller's pending invitations, with mission and chief names
    /// joined in.
    pub fn get_my_pending_invites(&self, store: &MembershipStore, user_id: usize) -> (r: Result<
        Vec<MissionInviteDetails>,
        EngineError,
    >)
        requires
            store.wf(),
        ensures
            r is Ok,
            r matches Ok(v) ==> ({
                let ids = crate::store::pending_ids_for(store.invites@, user_id);
                &&& v@.len() == ids.len()
                &&& (forall|k: int|
                    0 <= k < v@.len() ==> {
                        let inv = store.invites@[ids[k] as int];
                        let mission = store.missions@[inv.mission_id as int];
                        (#[trigger] v@[k]).id == ids[k] && v@[k].mission_id == inv.mission_id
                            && v@[k].mission_name == mission.name && v@[k].chief_name
                            == store.members@[mission.chief_id as int].display_name && v@[k].status
                            is Pending
                    })
            }),
    {
        Ok(store.find_invites_details_by_user(user_id))
    }
}

/// The capacity of one mission, as a count.
fn self_mission_capacity(store: &MembershipStore, mission_id: usize) -> (r: usize)
    requires
        store.wf(),
        mission_id < store.missions@.len(),
    ensures
        r == store.missions@[mission_id as int].max_crew,
{
    store.missions[mission_id].max_crew as usize
}

} // verus!
