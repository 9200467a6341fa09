//! The crew coordinator: join, leave and kick.
//!
//! Joining is guarded four ways — chief exclusion, membership uniqueness,
//! join-eligible status, capacity — and the store's atomic check-then-act
//! insert is the authoritative guard for all but the status check. Leaving
//! and kicking are allowed regardless of mission status and remove exactly
//! one membership row. Every successful change fires best-effort side
//! effects: a chief (or target) notification, an achievement pass for the
//! joiner, and a persisted, broadcast system message.

use vstd::prelude::*;

use crate::achievements::award_indexes;
use crate::effects::{broadcast_system, log_and_broadcast_system};
use crate::errors::EngineError;
use crate::model::ConditionType;
use crate::notify::{
    sent_batch, Notification, NotificationDispatcher, NotificationMetadata, NotificationType,
};
use crate::realtime::{
    broadcast_batch, lemma_broadcast_batch_trans, ChatMessage, MissionRealtimeService,
};
use crate::status::MissionStatus;
use crate::store::{bump_counter, crew_size, has_pair, MembershipStore};
use crate::texts;

verus! {

/// The transport payload naming the crew member a kick targets.
#[derive(Clone, Copy, Debug, PartialEq, Eq, Structural)]
pub struct KickModel {
    pub member_id: usize,
}

/// The crew coordinator. The one configuration point is whether a mission
/// that is already in progress still accepts joins (the permissive policy);
/// switching it off restricts joining to `Open` and `Failed` missions.
pub struct CrewOperationUseCase {
    pub allow_join_in_progress: bool,
}

impl CrewOperationUseCase {
    /// A coordinator with the given join-eligibility policy.
    pub fn new(allow_join_in_progress: bool) -> (r: CrewOperationUseCase)
        ensures
            r.allow_join_in_progress == allow_join_in_progress,
    {
        CrewOperationUseCase { allow_join_in_progress }
    }

    /// The statuses that accept joins under this coordinator's policy.
    pub open spec fn spec_joinable(&self, status: MissionStatus) -> bool {
        status == MissionStatus::Open || status == MissionStatus::Failed
            || (self.allow_join_in_progress && status == MissionStatus::InProgress)
    }

    /// Exec twin of [`Self::spec_joinable`].
    #[verifier::when_used_as_spec(spec_joinable)]
    pub fn joinable(&self, status: MissionStatus) -> (r: bool)
        ensures
            r == self.spec_joinable(status),
    {
        match status {
            MissionStatus::Open => true,
            MissionStatus::Failed => true,
            MissionStatus::InProgress => self.allow_join_in_progress,
            MissionStatus::Completed => false,
        }
    }

    /// The outcome a join attempt is owed, in check order: existence, chief
    /// exclusion, uniqueness, status, capacity, joiner existence.
    pub open spec fn join_outcome(
        self,
        store: MembershipStore,
        mission_id: usize,
        member_id: usize,
    ) -> Result<(), EngineError> {
        if mission_id >= store.missions@.len() {
            Err(EngineError::NotFound)
        } else if store.missions@[mission_id as int].chief_id == member_id {
            Err(EngineError::SelfJoinForbidden)
        } else if has_pair(store.memberships@, mission_id, member_id) {
            Err(EngineError::AlreadyJoined)
        } else if !self.spec_joinable(store.missions@[mission_id as int].status) {
            Err(EngineError::NotJoinable)
        } else if crew_size(store.memberships@, mission_id) >= store.missions@[
            mission_id as int
        ].max_crew {
            Err(EngineError::MissionFull)
        } else if member_id >= store.members@.len() {
            Err(EngineError::NotFound)
        } else {
            Ok(())
        }
    }

    /// Persists and broadcasts one system message for this mission.
    pub(crate) fn log_and_broadcast_system_message(
        &self,
        store: &mut MembershipStore,
        realtime: &mut MissionRealtimeService,
        mission_id: usize,
        content: String,
    ) -> (m: Ghost<ChatMessage>)
        requires
            old(store).wf(),
            old(realtime).wf(),
            mission_id < old(store).missions@.len(),
        ensures
            final(store).wf(),
            final(realtime).wf(),
            final(store).messages@.len() == old(store).messages@.len() + 1,
            forall|j: int|
                0 <= j < old(store).messages@.len() ==> #[trigger] final(store).messages@[j]
                    == old(store).messages@[j],
            final(store).messages@.last().mission_id == mission_id,
            final(store).messages@.last().user_id is None,
            final(store).messages@.last().kind is System,
            final(store).messages@.last().content == content,
            final(store).missions@ == old(store).missions@,
            final(store).members@ == old(store).members@,
            final(store).memberships@ == old(store).memberships@,
            final(store).achievements@ == old(store).achievements@,
            final(store).earned@ == old(store).earned@,
            final(store).invites@ == old(store).invites@,
            broadcast_batch(*old(realtime), *final(realtime), mission_id, seq![m@]),
            m@.kind is System && m@.user_id is None && m@.mission_id == mission_id && m@.content
                == content,
    {
        log_and_broadcast_system(store, realtime, mission_id, content)
    }

    /// A member joins a mission's crew.
    ///
    /// Rejected when the member is the chief (`SelfJoinForbidden`), already
    /// a member (`AlreadyJoined`), the status does not accept joins
    /// (`NotJoinable`), or the crew is full (`MissionFull`); a rejection
    /// changes nothing. On success the membership row is inserted, the
    /// member's join counter is bumped, the chief is notified, a join
    /// achievement pass runs (announcing each new unlock), and a "joined"
    /// system message is persisted and broadcast.
    #[verifier::loop_isolation(false)]
    pub fn join(
        &self,
        store: &mut MembershipStore,
        realtime: &mut MissionRealtimeService,
        notifier: &mut NotificationDispatcher,
        mission_id: usize,
        member_id: usize,
    ) -> (r: Result<(), EngineError>)
        requires
            old(store).wf(),
            old(realtime).wf(),
            old(notifier).wf(),
        ensures
            final(store).wf(),
            final(realtime).wf(),
            final(notifier).wf(),
            r == self.join_outcome(*old(store), mission_id, member_id),
            r is Err ==> *final(store) == *old(store) && *final(realtime) == *old(realtime)
                && *final(notifier) == *old(notifier),
            r is Ok ==> ({
                let joined_count = bump_counter(
                    old(store).members@[member_id as int].mission_join_count,
                );
                let ids = award_indexes(
                    old(store).achievements@,
                    old(store).earned@,
                    member_id,
                    ConditionType::MissionJoin,
                    joined_count,
                );
                let dn = old(store).members@[member_id as int].display_name;
                &&& final(store).memberships@ == old(store).memberships@.push(
                    crate::model::CrewMembership { mission_id, member_id },
                )
                &&& final(store).members@.len() == old(store).members@.len()
                &&& final(store).members@[member_id as int].mission_join_count == joined_count
                &&& final(store).members@[member_id as int].display_name == dn
                &&& (forall|j: int|
                    0 <= j < old(store).members@.len() && j != member_id
                        ==> #[trigger] final(store).members@[j] == old(store).members@[j])
                &&& final(store).missions@ == old(store).missions@
                &&& final(store).achievements@ == old(store).achievements@
                &&& final(store).invites@ == old(store).invites@
                &&& final(store).earned@.len() == old(store).earned@.len() + ids.len()
                &&& (forall|j: int|
                    0 <= j < old(store).earned@.len() ==> #[trigger] final(store).earned@[j]
                        == old(store).earned@[j])
                &&& (forall|t: int|
                    0 <= t < ids.len() ==> (#[trigger] final(store).earned@[old(store).earned@.len() + t]).member_id == member_id && final(store).earned@[old(store).earned@.len() + t].achievement_id == ids[t])
                &&& final(store).messages@.len() == old(store).messages@.len() + ids.len() + 1
                &&& (forall|j: int|
                    0 <= j < old(store).messages@.len() ==> #[trigger] final(store).messages@[j]
                        == old(store).messages@[j])
                &&& (forall|t: int|
                    0 <= t < ids.len() + 1 ==> (#[trigger] final(store).messages@[old(store).messages@.len() + t]).mission_id == mission_id && final(store).messages@[old(store).messages@.len() + t].user_id is None && final(store).messages@[old(store).messages@.len() + t].kind is System)
                &&& (forall|t: int|
                    0 <= t < ids.len() ==> (#[trigger] final(store).messages@[old(store).messages@.len() + t]).content@ == dn@ + " earned achievement: "@ + old(store).achievements@[ids[t] as int].name@)
                &&& final(store).messages@.last().content@ == dn@ + " joined the mission"@
                &&& (exists|msgs: Seq<ChatMessage>|
                    {
                        &&& #[trigger] broadcast_batch(
                            *old(realtime),
                            *final(realtime),
                            mission_id,
                            msgs,
                        )
                        &&& msgs.len() == ids.len() + 1
                        &&& (forall|t: int|
                            0 <= t < msgs.len() ==> (#[trigger] msgs[t]).kind is System
                                && msgs[t].user_id is None)
                        &&& (forall|t: int|
                            0 <= t < ids.len() ==> (#[trigger] msgs[t]).content@ == dn@
                                + " earned achievement: "@ + old(store).achievements@[
                                ids[t] as int
                            ].name@)
                        &&& msgs.last().content@ == dn@ + " joined the mission"@
                    })
                &&& (exists|ns: Seq<Notification>|
                    {
                        &&& #[trigger] sent_batch(*old(notifier), *final(notifier), ns)
                        &&& ns.len() == 1
                        &&& ns[0].recipient_id == Some(
                            old(store).missions@[mission_id as int].chief_id,
                        )
                        &&& ns[0].title@ == "New Crew Member"@
                        &&& ns[0].message@ == "Someone joined your mission: "@ + old(store).missions@[mission_id as int].name@
                        &&& ns[0].notification_type == NotificationType::JoinMission
                        &&& ns[0].metadata == (NotificationMetadata {
                            mission_id,
                            joiner_id: Some(member_id),
                        })
                    })
            }),
    {
        let mission = match store.get_one(mission_id, member_id) {
            Ok(m) => m,
            Err(e) => {
                return Err(e);
            },
        };
        if mission.chief_id == member_id {
            return Err(EngineError::SelfJoinForbidden);
        }
        if store.is_member(mission_id, member_id) {
            return Err(EngineError::AlreadyJoined);
        }
        if !self.joinable(mission.status) {
            return Err(EngineError::NotJoinable);
        }
        let crew_count = store.crew_counting(mission_id);
        if crew_count >= mission.max_crew as usize {
            return Err(EngineError::MissionFull);
        }
        match store.insert_membership(mission_id, member_id) {
            Ok(()) => {},
            Err(e) => {
                proof {
                    assert(e == EngineError::NotFound && member_id >= old(store).members@.len());
                }
                return Err(e);
            },
        }
        // The mutation is committed; everything below is a side effect and
        // cannot undo it.
        let notification = Notification {
            recipient_id: Some(mission.chief_id),
            title: "New Crew Member".to_owned(),
            message: texts::chief_join_notice(mission.name.as_str()),
            notification_type: NotificationType::JoinMission,
            metadata: NotificationMetadata { mission_id, joiner_id: Some(member_id) },
        };
        let ghost gnotice = notification;
        notifier.send(notification);
        let member = match store.find_member(member_id) {
            Some(m) => m,
            None => {
                proof {
                    assert(false);
                }
                return Err(EngineError::NotFound);
            },
        };
        let display_name = member.display_name;
        let joined_count = member.mission_join_count;
        let stamp = crate::clock::now_rfc3339();
        let names = match store.check_and_award(
            member_id,
            ConditionType::MissionJoin,
            joined_count,
            stamp,
        ) {
            Ok(v) => v,
            Err(_) => {
                proof {
                    assert(false);
                }
                Vec::new()
            },
        };
        let ghost ids = award_indexes(
            old(store).achievements@,
            old(store).earned@,
            member_id,
            ConditionType::MissionJoin,
            bump_counter(old(store).members@[member_id as int].mission_join_count),
        );
        let ghost st1 = *store;
        let ghost rt0 = *realtime;
        let ghost mut sent: Seq<ChatMessage> = Seq::empty();
        proof {
            crate::realtime::lemma_broadcast_batch_empty(rt0, mission_id);
        }
        let n_awards = names.len();
        let mut k: usize = 0;
        while k < n_awards
            invariant
                k <= n_awards,
                n_awards == names@.len(),
                names@.len() == ids.len(),
                store.wf(),
                realtime.wf(),
                store.missions@ == st1.missions@,
                store.members@ == st1.members@,
                store.memberships@ == st1.memberships@,
                store.achievements@ == st1.achievements@,
                store.earned@ == st1.earned@,
                store.invites@ == st1.invites@,
                store.messages@.len() == st1.messages@.len() + k,
                forall|j: int|
                    0 <= j < st1.messages@.len() ==> #[trigger] store.messages@[j]
                        == st1.messages@[j],
                forall|t: int|
                    0 <= t < k ==> (#[trigger] store.messages@[st1.messages@.len()
                        + t]).mission_id == mission_id && store.messages@[st1.messages@.len()
                        + t].user_id is None && store.messages@[st1.messages@.len() + t].kind
                        is System && store.messages@[st1.messages@.len() + t].content@
                        == old(store).members@[member_id as int].display_name@
                        + " earned achievement: "@ + old(store).achievements@[ids[t] as int].name@,
                broadcast_batch(rt0, *realtime, mission_id, sent),
                sent.len() == k,
                forall|t: int|
                    0 <= t < k ==> (#[trigger] sent[t]).kind is System && sent[t].user_id is None
                        && sent[t].content@ == old(store).members@[member_id as int].display_name@
                        + " earned achievement: "@ + old(store).achievements@[ids[t] as int].name@,
            decreases n_awards - k,
        {
            let content = texts::award_message(display_name.as_str(), names[k].as_str());
            let ghost rt_pre = *realtime;
            let ghost sent_pre = sent;
            let gm = self.log_and_broadcast_system_message(store, realtime, mission_id, content);
            proof {
                lemma_broadcast_batch_trans(rt0, rt_pre, *realtime, mission_id, sent_pre, seq![
                    gm@,
                ]);
                sent = sent_pre + seq![gm@];
            }
            k = k + 1;
        }
        let ghost rt_pre2 = *realtime;
        let ghost sent_pre2 = sent;
        let gm2 = self.log_and_broadcast_system_message(
            store,
            realtime,
            mission_id,
            texts::join_message(display_name.as_str()),
        );
        proof {
            lemma_broadcast_batch_trans(rt0, rt_pre2, *realtime, mission_id, sent_pre2, seq![gm2@]);
            sent = sent_pre2 + seq![gm2@];
            assert(broadcast_batch(*old(realtime), *realtime, mission_id, sent));
            assert(sent.last() == gm2@);
            assert(sent_batch(*old(notifier), *notifier, seq![gnotice]));
        }
        Ok(())
    }

    /// A member leaves a mission's crew. Leaving is unconditionally allowed
    /// regardless of mission status; if the member held a membership row,
    /// exactly that one row is removed. A "left" system message is
    /// broadcast either way, and persisted when the mission exists.
    pub fn leave(
        &self,
        store: &mut MembershipStore,
        realtime: &mut MissionRealtimeService,
        mission_id: usize,
        member_id: usize,
    ) -> (r: Result<(), EngineError>)
        requires
            old(store).wf(),
            old(realtime).wf(),
        ensures
            final(store).wf(),
            final(realtime).wf(),
            r is Ok,
            !has_pair(final(store).memberships@, mission_id, member_id),
            has_pair(old(store).memberships@, mission_id, member_id) ==> exists|idx: int|
                0 <= idx < old(store).memberships@.len() && old(store).memberships@[idx]
                    == (crate::model::CrewMembership { mission_id, member_id }) && final(store).memberships@ == old(store).memberships@.remove(idx),
            !has_pair(old(store).memberships@, mission_id, member_id) ==> final(store).memberships@ == old(store).memberships@,
            forall|m2: usize, u2: usize|
                !(m2 == mission_id && u2 == member_id) ==> #[trigger] has_pair(
                    final(store).memberships@,
                    m2,
                    u2,
                ) == has_pair(old(store).memberships@, m2, u2),
            final(store).missions@ == old(store).missions@,
            final(store).members@ == old(store).members@,
            final(store).achievements@ == old(store).achievements@,
            final(store).earned@ == old(store).earned@,
            final(store).invites@ == old(store).invites@,
            mission_id < old(store).missions@.len() ==> final(store).messages@.len() == old(store).messages@.len() + 1 && final(store).messages@.last().kind is System && final(store).messages@.last().mission_id == mission_id && final(store).messages@.last().user_id is None && final(store).messages@.last().content@ == (if member_id < old(store).members@.len() {
                old(store).members@[member_id as int].display_name@ + " left the mission"@
            } else {
                "A member left the mission"@
            }) && (forall|j: int|
                0 <= j < old(store).messages@.len() ==> #[trigger] final(store).messages@[j]
                    == old(store).messages@[j]),
            mission_id >= old(store).missions@.len() ==> final(store).messages@ == old(store).messages@,
            exists|msgs: Seq<ChatMessage>|
                {
                    &&& #[trigger] broadcast_batch(
                        *old(realtime),
                        *final(realtime),
                        mission_id,
                        msgs,
                    )
                    &&& msgs.len() == 1
                    &&& msgs[0].kind is System
                    &&& msgs[0].user_id is None
                    &&& msgs[0].content@ == (if member_id < old(store).members@.len() {
                        old(store).members@[member_id as int].display_name@
                            + " left the mission"@
                    } else {
                        "A member left the mission"@
                    })
                },
    {
        store.remove_membership(mission_id, member_id);
        let content = match store.find_member(member_id) {
            Some(m) => texts::leave_message(m.display_name.as_str()),
            None => "A member left the mission".to_owned(),
        };
        if mission_id < store.missions.len() {
            let gm = log_and_broadcast_system(store, realtime, mission_id, content);
            proof {
                assert(broadcast_batch(*old(realtime), *realtime, mission_id, seq![gm@]));
            }
        } else {
            let gm = broadcast_system(realtime, mission_id, content);
            proof {
                assert(broadcast_batch(*old(realtime), *realtime, mission_id, seq![gm@]));
            }
        }
        Ok(())
    }

    /// The chief removes a member from the crew. Only the chief may kick
    /// (`NotAuthorized`); the removal itself is unconditional, exactly like
    /// [`Self::leave`], and additionally notifies the kicked member.
    pub fn kick_crew(
        &self,
        store: &mut MembershipStore,
        realtime: &mut MissionRealtimeService,
        notifier: &mut NotificationDispatcher,
        mission_id: usize,
        chief_id: usize,
        member_id: usize,
    ) -> (r: Result<(), EngineError>)
        requires
            old(store).wf(),
            old(realtime).wf(),
            old(notifier).wf(),
        ensures
            final(store).wf(),
            final(realtime).wf(),
            final(notifier).wf(),
            r == (if mission_id >= old(store).missions@.len() {
                Err::<(), EngineError>(EngineError::NotFound)
            } else if old(store).missions@[mission_id as int].chief_id != chief_id {
                Err::<(), EngineError>(EngineError::NotAuthorized)
            } else {
                Ok::<(), EngineError>(())
            }),
            r is Err ==> *final(store) == *old(store) && *final(realtime) == *old(realtime)
                && *final(notifier) == *old(notifier),
            r is Ok ==> ({
                &&& !has_pair(final(store).memberships@, mission_id, member_id)
                &&& (has_pair(old(store).memberships@, mission_id, member_id) ==> exists|idx: int|
                    0 <= idx < old(store).memberships@.len() && old(store).memberships@[idx]
                        == (crate::model::CrewMembership { mission_id, member_id }) && final(store).memberships@ == old(store).memberships@.remove(idx))
                &&& (!has_pair(old(store).memberships@, mission_id, member_id) ==> final(store).memberships@ == old(store).memberships@)
                &&& final(store).missions@ == old(store).missions@
                &&& final(store).members@ == old(store).members@
                &&& final(store).achievements@ == old(store).achievements@
                &&& final(store).earned@ == old(store).earned@
                &&& final(store).invites@ == old(store).invites@
                &&& final(store).messages@.len() == old(store).messages@.len() + 1
                &&& final(store).messages@.last().kind is System
                &&& final(store).messages@.last().mission_id == mission_id
                &&& final(store).messages@.last().user_id is None
                &&& final(store).messages@.last().content@ == (if member_id < old(store).members@.len() {
                    old(store).members@[member_id as int].display_name@
                        + " was kicked from the mission"@
                } else {
                    "A member was kicked from the mission"@
                })
                &&& (forall|j: int|
                    0 <= j < old(store).messages@.len() ==> #[trigger] final(store).messages@[j]
                        == old(store).messages@[j])
                &&& (exists|ns: Seq<Notification>|
                    {
                        &&& #[trigger] sent_batch(*old(notifier), *final(notifier), ns)
                        &&& ns.len() == 1
                        &&& ns[0].recipient_id == Some(member_id)
                        &&& ns[0].title@ == "You have been kicked"@
                        &&& ns[0].message@ == "You were kicked from mission: "@ + old(store).missions@[mission_id as int].name@
                        &&& ns[0].notification_type == NotificationType::MissionStatusUpdate
                        &&& ns[0].metadata == (NotificationMetadata {
                            mission_id,
                            joiner_id: None,
                        })
                    })
                &&& (exists|msgs: Seq<ChatMessage>|
                    {
                        &&& #[trigger] broadcast_batch(
                            *old(realtime),
                            *final(realtime),
                            mission_id,
                            msgs,
                        )
                        &&& msgs.len() == 1
                        &&& msgs[0].kind is System
                        &&& msgs[0].user_id is None
                        &&& msgs[0].content@ == (if member_id < old(store).members@.len() {
                            old(store).members@[member_id as int].display_name@
                                + " was kicked from the mission"@
                        } else {
                            "A member was kicked from the mission"@
                        })
                    })
            }),
    {
        let mission = match store.get_one(mission_id, chief_id) {
            Ok(m) => m,
            Err(e) => {
                return Err(e);
            },
        };
        if mission.chief_id != chief_id {
            return Err(EngineError::NotAuthorized);
        }
        store.remove_membership(mission_id, member_id);
        let notification = Notification {
            recipient_id: Some(member_id),
            title: "You have been kicked".to_owned(),
            message: texts::kicked_notice(mission.name.as_str()),
            notification_type: NotificationType::MissionStatusUpdate,
            metadata: NotificationMetadata { mission_id, joiner_id: None },
        };
        let ghost gnotice = notification;
        notifier.send(notification);
        let content = match store.find_member(member_id) {
            Some(m) => texts::kick_message(m.display_name.as_str()),
            None => "A member was kicked from the mission".to_owned(),
        };
        let gm = log_and_broadcast_system(store, realtime, mission_id, content);
        proof {
            assert(sent_batch(*old(notifier), *notifier, seq![gnotice]));
            assert(broadcast_batch(*old(realtime), *realtime, mission_id, seq![gm@]));
        }
        Ok(())
    }

    /// Kick, taking the transport payload that names the target.
    pub fn kick(
        &self,
        store: &mut MembershipStore,
        realtime: &mut MissionRealtimeService,
        notifier: &mut NotificationDispatcher,
        mission_id: usize,
        chief_id: usize,
        model: KickModel,
    ) -> (r: Result<(), EngineError>)
        requires
            old(store).wf(),
            old(realtime).wf(),
            old(notifier).wf(),
        ensures
            final(store).wf(),
            final(realtime).wf(),
            final(notifier).wf(),
            r == (if mission_id >= old(store).missions@.len() {
                Err::<(), EngineError>(EngineError::NotFound)
            } else if old(store).missions@[mission_id as int].chief_id != chief_id {
                Err::<(), EngineError>(EngineError::NotAuthorized)
            } else {
                Ok::<(), EngineError>(())
            }),
            r is Err ==> *final(store) == *old(store) && *final(realtime) == *old(realtime)
                && *final(notifier) == *old(notifier),
            r is Ok ==> ({
                &&& !has_pair(final(store).memberships@, mission_id, model.member_id)
                &&& (has_pair(old(store).memberships@, mission_id, model.member_id) ==> exists|
                    idx: int,
                |
                    0 <= idx < old(store).memberships@.len() && old(store).memberships@[idx]
                        == (crate::model::CrewMembership {
                        mission_id,
                        member_id: model.member_id,
                    }) && final(store).memberships@ == old(store).memberships@.remove(idx))
                &&& (!has_pair(old(store).memberships@, mission_id, model.member_id) ==> final(store).memberships@ == old(store).memberships@)
                &&& final(store).missions@ == old(store).missions@
                &&& final(store).members@ == old(store).members@
                &&& final(store).achievements@ == old(store).achievements@
                &&& final(store).earned@ == old(store).earned@
                &&& final(store).invites@ == old(store).invites@
                &&& final(store).messages@.len() == old(store).messages@.len() + 1
                &&& final(store).messages@.last().kind is System
                &&& final(store).messages@.last().mission_id == mission_id
                &&& final(store).messages@.last().user_id is None
                &&& final(store).messages@.last().content@ == (if model.member_id < old(store).members@.len() {
                    old(store).members@[model.member_id as int].display_name@
                        + " was kicked from the mission"@
                } else {
                    "A member was kicked from the mission"@
                })
                &&& (forall|j: int|
                    0 <= j < old(store).messages@.len() ==> #[trigger] final(store).messages@[j]
                        == old(store).messages@[j])
                &&& (exists|ns: Seq<Notification>|
                    {
                        &&& #[trigger] sent_batch(*old(notifier), *final(notifier), ns)
                        &&& ns.len() == 1
                        &&& ns[0].recipient_id == Some(model.member_id)
                        &&& ns[0].title@ == "You have been kicked"@
                        &&& ns[0].message@ == "You were kicked from mission: "@ + old(store).missions@[mission_id as int].name@
                        &&& ns[0].notification_type == NotificationType::MissionStatusUpdate
                        &&& ns[0].metadata == (NotificationMetadata {
                            mission_id,
                            joiner_id: None,
                        })
                    })
                &&& (exists|msgs: Seq<ChatMessage>|
                    {
                        &&& #[trigger] broadcast_batch(
                            *old(realtime),
                            *final(realtime),
                            mission_id,
                            msgs,
                        )
                        &&& msgs.len() == 1
                        &&& msgs[0].kind is System
                        &&& msgs[0].user_id is None
                        &&& msgs[0].content@ == (if model.member_id < old(store).members@.len() {
                            old(store).members@[model.member_id as int].display_name@
                                + " was kicked from the mission"@
                        } else {
                            "A member was kicked from the mission"@
                        })
                    })
            }),
    {
        self.kick_crew(store, realtime, notifier, mission_id, chief_id, model.member_id)
    }
}

} // verus!
