//! The mission lifecycle controller.
//!
//! Status moves along a single forward path with one recovery edge:
//! `Open -> InProgress -> {Completed, Failed}`, and a failed mission can be
//! restarted (`Failed -> InProgress`). The status write is authoritative
//! and happens before any side effect; notification delivery, message
//! logging and achievement evaluation are best-effort and never undo or
//! fail the transition.

use vstd::prelude::*;
use vstd::string::StringExecFns;

use crate::achievements::{award_indexes, lemma_award_indexes_contains, qualifies};
use crate::clock::now_rfc3339;
use crate::effects::log_and_broadcast_system;
use crate::errors::EngineError;
use crate::model::ConditionType;
use crate::notify::{
    lemma_sent_batch_empty, lemma_sent_batch_trans, sent_batch, Notification,
    NotificationDispatcher, NotificationMetadata, NotificationType,
};
use crate::realtime::{
    broadcast_batch, lemma_broadcast_batch_empty, lemma_broadcast_batch_trans, ChatMessage,
    MissionRealtimeService,
};
use crate::status::MissionStatus;
use crate::store::{bump_counter, crew_ids, MembershipStore};
use crate::texts;

verus! {

/// The lifecycle controller.
pub struct MissionOperationUseCase {}

impl MissionOperationUseCase {
    /// A new lifecycle controller.
    pub fn new() -> (r: MissionOperationUseCase) {
        MissionOperationUseCase {}
    }

    /// The outcome a start request is owed: the mission must exist, be
    /// `Open` or `Failed`, have a non-empty crew strictly below the
    /// mission's own capacity, and be started by its chief.
    pub open spec fn start_outcome(
        store: MembershipStore,
        mission_id: usize,
        chief_id: usize,
    ) -> Result<usize, EngineError> {
        if mission_id >= store.missions@.len() {
            Err(EngineError::NotFound)
        } else if store.missions@[mission_id as int].status.spec_startable() && crate::store::crew_size(
            store.memberships@,
            mission_id,
        ) > 0 && crate::store::crew_size(store.memberships@, mission_id)
            < store.missions@[mission_id as int].max_crew && store.missions@[
            mission_id as int
        ].chief_id == chief_id {
            Ok(mission_id)
        } else {
            Err(EngineError::InvalidTransition)
        }
    }

    /// The outcome a complete/fail request is owed: the mission must exist,
    /// be `InProgress`, and be finished by its chief.
    pub open spec fn finish_outcome(
        store: MembershipStore,
        mission_id: usize,
        chief_id: usize,
    ) -> Result<usize, EngineError> {
        if mission_id >= store.missions@.len() {
            Err(EngineError::NotFound)
        } else if store.missions@[mission_id as int].status == MissionStatus::InProgress
            && store.missions@[mission_id as int].chief_id == chief_id {
            Ok(mission_id)
        } else {
            Err(EngineError::InvalidTransition)
        }
    }

    /// Sends one status notification to every current crew member,
    /// individually addressed.
    #[verifier::loop_isolation(false)]
    fn notify_crew(
        &self,
        store: &MembershipStore,
        notifier: &mut NotificationDispatcher,
        mission_id: usize,
        title: &str,
        message: &str,
    ) -> (ns: Ghost<Seq<Notification>>)
        requires
            old(notifier).wf(),
        ensures
            final(notifier).wf(),
            sent_batch(*old(notifier), *final(notifier), ns@),
            ns@.len() == crew_ids(store.memberships@, mission_id).len(),
            forall|idx: int|
                0 <= idx < ns@.len() ==> {
                    &&& (#[trigger] ns@[idx]).recipient_id == Some(
                        crew_ids(store.memberships@, mission_id)[idx],
                    )
                    &&& ns@[idx].title@ == title@
                    &&& ns@[idx].message@ == message@
                    &&& ns@[idx].notification_type == NotificationType::MissionStatusUpdate
                    &&& ns@[idx].metadata == (NotificationMetadata {
                        mission_id,
                        joiner_id: None,
                    })
                },
    {
        let crew = store.get_crew(mission_id);
        let ghost nt0 = *notifier;
        let ghost mut sent: Seq<Notification> = Seq::empty();
        proof {
            lemma_sent_batch_empty(nt0);
        }
        let n = crew.len();
        let mut i: usize = 0;
        while i < n
            invariant
                i <= n,
                n == crew@.len(),
                notifier.wf(),
                sent_batch(nt0, *notifier, sent),
                sent.len() == i,
                forall|idx: int|
                    0 <= idx < i ==> {
                        &&& (#[trigger] sent[idx]).recipient_id == Some(crew@[idx])
                        &&& sent[idx].title@ == title@
                        &&& sent[idx].message@ == message@
                        &&& sent[idx].notification_type == NotificationType::MissionStatusUpdate
                        &&& sent[idx].metadata == (NotificationMetadata {
                            mission_id,
                            joiner_id: None,
                        })
                    },
            decreases n - i,
        {
            let notification = Notification {
                recipient_id: Some(crew[i]),
                title: String::from_str(title),
                message: String::from_str(message),
                notification_type: NotificationType::MissionStatusUpdate,
                metadata: NotificationMetadata { mission_id, joiner_id: None },
            };
            let ghost gn = notification;
            let ghost nt_pre = *notifier;
            let ghost sent_pre = sent;
            notifier.send(notification);
            proof {
                lemma_sent_batch_trans(nt0, nt_pre, *notifier, sent_pre, seq![gn]);
                sent = sent_pre + seq![gn];
            }
            i = i + 1;
        }
        Ghost(sent)
    }

    /// Persists and broadcasts one status-change system message.
    pub(crate) fn log_and_broadcast_status_change(
        &self,
        store: &mut MembershipStore,
        realtime: &mut MissionRealtimeService,
        mission_id: usize,
        content: String,
    ) -> (m: Ghost<ChatMessage>)
        requires
            old(store).wf(),
            old(realtime).wf(),
            mission_id < old(store).missions@.len(),
        ensures
            final(store).wf(),
            final(realtime).wf(),
            final(store).messages@.len() == old(store).messages@.len() + 1,
            forall|j: int|
                0 <= j < old(store).messages@.len() ==> #[trigger] final(store).messages@[j]
                    == old(store).messages@[j],
            final(store).messages@.last().mission_id == mission_id,
            final(store).messages@.last().user_id is None,
            final(store).messages@.last().kind is System,
            final(store).messages@.last().content == content,
            final(store).missions@ == old(store).missions@,
            final(store).members@ == old(store).members@,
            final(store).memberships@ == old(store).memberships@,
            final(store).achievements@ == old(store).achievements@,
            final(store).earned@ == old(store).earned@,
            final(store).invites@ == old(store).invites@,
            broadcast_batch(*old(realtime), *final(realtime), mission_id, seq![m@]),
            m@.kind is System && m@.user_id is None && m@.mission_id == mission_id && m@.content
                == content,
    {
        log_and_broadcast_system(store, realtime, mission_id, content)
    }

    /// One completion award pass for one participant: bumps the success
    /// counter, evaluates "mission complete" achievements against the new
    /// value, and persists + broadcasts one announcement per new unlock.
    #[verifier::loop_isolation(false)]
    fn award_pass_for(
        &self,
        store: &mut MembershipStore,
        realtime: &mut MissionRealtimeService,
        mission_id: usize,
        member_id: usize,
    ) -> (msgs: Ghost<Seq<ChatMessage>>)
        requires
            old(store).wf(),
            old(realtime).wf(),
            mission_id < old(store).missions@.len(),
            member_id < old(store).members@.len(),
        ensures
            final(store).wf(),
            final(realtime).wf(),
            ({
                let bumped = bump_counter(
                    old(store).members@[member_id as int].mission_success_count,
                );
                let ids = award_indexes(
                    old(store).achievements@,
                    old(store).earned@,
                    member_id,
                    ConditionType::MissionComplete,
                    bumped,
                );
                &&& final(store).members@ == old(store).members@.update(
                    member_id as int,
                    crate::model::Member {
                        mission_success_count: bumped,
                        ..old(store).members@[member_id as int]
                    },
                )
                &&& final(store).earned@.len() == old(store).earned@.len() + ids.len()
                &&& (forall|j: int|
                    0 <= j < old(store).earned@.len() ==> #[trigger] final(store).earned@[j]
                        == old(store).earned@[j])
                &&& (forall|t: int|
                    0 <= t < ids.len() ==> (#[trigger] final(store).earned@[old(store).earned@.len() + t]).member_id == member_id && final(store).earned@[old(store).earned@.len() + t].achievement_id == ids[t])
                &&& (forall|a: int|
                    0 <= a < old(store).achievements@.len() && qualifies(
                        #[trigger] old(store).achievements@[a],
                        ConditionType::MissionComplete,
                        bumped,
                    ) ==> crate::store::earned_has(final(store).earned@, member_id, a as usize))
                &&& final(store).messages@.len() == old(store).messages@.len() + ids.len()
                &&& (forall|j: int|
                    0 <= j < old(store).messages@.len() ==> #[trigger] final(store).messages@[j]
                        == old(store).messages@[j])
                &&& (forall|t: int|
                    0 <= t < ids.len() ==> (#[trigger] final(store).messages@[old(store).messages@.len() + t]).mission_id == mission_id && final(store).messages@[old(store).messages@.len() + t].user_id is None && final(store).messages@[old(store).messages@.len() + t].kind is System && final(store).messages@[old(store).messages@.len() + t].content@ == old(store).members@[member_id as int].display_name@ + " earned achievement: "@ + old(store).achievements@[ids[t] as int].name@)
                &&& final(store).missions@ == old(store).missions@
                &&& final(store).memberships@ == old(store).memberships@
                &&& final(store).achievements@ == old(store).achievements@
                &&& final(store).invites@ == old(store).invites@
                &&& broadcast_batch(*old(realtime), *final(realtime), mission_id, msgs@)
                &&& msgs@.len() == ids.len()
                &&& (forall|t: int|
                    0 <= t < msgs@.len() ==> (#[trigger] msgs@[t]).kind is System
                        && msgs@[t].user_id is None && msgs@[t].content@ == old(
                        store,
                    ).members@[member_id as int].display_name@ + " earned achievement: "@ + old(
                        store,
                    ).achievements@[ids[t] as int].name@)
            }),
    {
        store.bump_success_counter(member_id);
        let member = match store.find_member(member_id) {
            Some(m) => m,
            None => {
                proof {
                    assert(false);
                }
                return Ghost(Seq::empty());
            },
        };
        let display_name = member.display_name;
        let success_count = member.mission_success_count;
        let stamp = now_rfc3339();
        let names = match store.check_and_award(
            member_id,
            ConditionType::MissionComplete,
            success_count,
            stamp,
        ) {
            Ok(v) => v,
            Err(_) => {
                proof {
                    assert(false);
                }
                Vec::new()
            },
        };
        let ghost ids = award_indexes(
            old(store).achievements@,
            old(store).earned@,
            member_id,
            ConditionType::MissionComplete,
            bump_counter(old(store).members@[member_id as int].mission_success_count),
        );
        let ghost st1 = *store;
        let ghost rt0 = *realtime;
        let ghost mut sent: Seq<ChatMessage> = Seq::empty();
        proof {
            lemma_broadcast_batch_empty(rt0, mission_id);
        }
        let n_awards = names.len();
        let mut k: usize = 0;
        while k < n_awards
            invariant
                k <= n_awards,
                n_awards == names@.len(),
                names@.len() == ids.len(),
                store.wf(),
                realtime.wf(),
                store.missions@ == st1.missions@,
                store.members@ == st1.members@,
                store.memberships@ == st1.memberships@,
                store.achievements@ == st1.achievements@,
                store.earned@ == st1.earned@,
                store.invites@ == st1.invites@,
                store.messages@.len() == st1.messages@.len() + k,
                forall|j: int|
                    0 <= j < st1.messages@.len() ==> #[trigger] store.messages@[j]
                        == st1.messages@[j],
                forall|t: int|
                    0 <= t < k ==> (#[trigger] store.messages@[st1.messages@.len()
                        + t]).mission_id == mission_id && store.messages@[st1.messages@.len()
                        + t].user_id is None && store.messages@[st1.messages@.len() + t].kind
                        is System && store.messages@[st1.messages@.len() + t].content@ == old(
                        store,
                    ).members@[member_id as int].display_name@ + " earned achievement: "@ + old(
                        store,
                    ).achievements@[ids[t] as int].name@,
                broadcast_batch(rt0, *realtime, mission_id, sent),
                sent.len() == k,
                forall|t: int|
                    0 <= t < k ==> (#[trigger] sent[t]).kind is System && sent[t].user_id is None
                        && sent[t].content@ == old(store).members@[
                        member_id as int
                    ].display_name@ + " earned achievement: "@ + old(store).achievements@[
                        ids[t] as int
                    ].name@,
            decreases n_awards - k,
        {
            let content = texts::award_message(display_name.as_str(), names[k].as_str());
            let ghost rt_pre = *realtime;
            let ghost sent_pre = sent;
            let gm = log_and_broadcast_system(store, realtime, mission_id, content);
            proof {
                lemma_broadcast_batch_trans(rt0, rt_pre, *realtime, mission_id, sent_pre, seq![
                    gm@,
                ]);
                sent = sent_pre + seq![gm@];
            }
            k = k + 1;
        }
        let n_ach = store.achievements.len();
        proof {
            assert(old(store).achievements@.len() == n_ach);
            let bumped = bump_counter(
                old(store).members@[member_id as int].mission_success_count,
            );
            assert forall|a: int|
                0 <= a < old(store).achievements@.len() && qualifies(
                    #[trigger] old(store).achievements@[a],
                    ConditionType::MissionComplete,
                    bumped,
                ) implies crate::store::earned_has(store.earned@, member_id, a as usize) by {
                lemma_award_indexes_contains(
                    old(store).achievements@,
                    old(store).earned@,
                    member_id,
                    ConditionType::MissionComplete,
                    bumped,
                    a,
                );
                if crate::store::earned_has(old(store).earned@, member_id, a as usize) {
                    let w = choose|w: int|
                        0 <= w < old(store).earned@.len() && old(store).earned@[w].member_id
                            == member_id && old(store).earned@[w].achievement_id == a as usize;
                    assert(store.earned@[w] == old(store).earned@[w]);
                } else {
                    let t = choose|t: int| 0 <= t < ids.len() && ids[t] == a as usize;
                    assert((store.earned@[old(store).earned@.len() + t]).member_id == member_id);
                    assert(store.earned@[old(store).earned@.len() + t].achievement_id == ids[t]);
                }
            }
        }
        Ghost(sent)
    }

    /// Starts a mission: moves it from `Open` or `Failed` to `InProgress`.
    ///
    /// Requires the chief as requester and a non-empty crew strictly below
    /// the mission's capacity; anything else is `InvalidTransition` and
    /// leaves every state untouched. On success the crew is notified
    /// individually and a "started" system message is persisted and
    /// broadcast.
    pub fn in_progress(
        &self,
        store: &mut MembershipStore,
        realtime: &mut MissionRealtimeService,
        notifier: &mut NotificationDispatcher,
        mission_id: usize,
        chief_id: usize,
    ) -> (r: Result<usize, EngineError>)
        requires
            old(store).wf(),
            old(realtime).wf(),
            old(notifier).wf(),
        ensures
            final(store).wf(),
            final(realtime).wf(),
            final(notifier).wf(),
            r == MissionOperationUseCase::start_outcome(*old(store), mission_id, chief_id),
            r is Err ==> *final(store) == *old(store) && *final(realtime) == *old(realtime)
                && *final(notifier) == *old(notifier),
            r is Ok ==> ({
                let name = old(store).missions@[mission_id as int].name;
                let crew = crew_ids(old(store).memberships@, mission_id);
                &&& final(store).missions@.len() == old(store).missions@.len()
                &&& (forall|j: int|
                    0 <= j < old(store).missions@.len() && j != mission_id
                        ==> #[trigger] final(store).missions@[j] == old(store).missions@[j])
                &&& final(store).missions@[mission_id as int].status == MissionStatus::InProgress
                &&& final(store).missions@[mission_id as int].name == name
                &&& final(store).missions@[mission_id as int].chief_id == chief_id
                &&& final(store).missions@[mission_id as int].max_crew == old(store).missions@[
                    mission_id as int
                ].max_crew
                &&& final(store).missions@[mission_id as int].deleted == old(store).missions@[
                    mission_id as int
                ].deleted
                &&& final(store).members@ == old(store).members@
                &&& final(store).memberships@ == old(store).memberships@
                &&& final(store).achievements@ == old(store).achievements@
                &&& final(store).earned@ == old(store).earned@
                &&& final(store).invites@ == old(store).invites@
                &&& final(store).messages@.len() == old(store).messages@.len() + 1
                &&& (forall|j: int|
                    0 <= j < old(store).messages@.len() ==> #[trigger] final(store).messages@[j]
                        == old(store).messages@[j])
                &&& final(store).messages@.last().kind is System
                &&& final(store).messages@.last().mission_id == mission_id
                &&& final(store).messages@.last().content@ == "Mission started: "@ + name@
                &&& (exists|msgs: Seq<ChatMessage>|
                    {
                        &&& #[trigger] broadcast_batch(
                            *old(realtime),
                            *final(realtime),
                            mission_id,
                            msgs,
                        )
                        &&& msgs.len() == 1
                        &&& msgs[0].kind is System
                        &&& msgs[0].content@ == "Mission started: "@ + name@
                    })
                &&& (exists|ns: Seq<Notification>|
                    {
                        &&& #[trigger] sent_batch(*old(notifier), *final(notifier), ns)
                        &&& ns.len() == crew.len()
                        &&& (forall|idx: int|
                            0 <= idx < ns.len() ==> (#[trigger] ns[idx]).recipient_id == Some(
                                crew[idx],
                            ) && ns[idx].title@ == "Mission Started"@ && ns[idx].message@
                                == "Mission '"@ + name@ + "' is now In Progress!"@
                                && ns[idx].notification_type
                                == NotificationType::MissionStatusUpdate && ns[idx].metadata
                                == (NotificationMetadata { mission_id, joiner_id: None }))
                    })
            }),
    {
        let mission = match store.get_one(mission_id, chief_id) {
            Ok(m) => m,
            Err(e) => {
                return Err(e);
            },
        };
        let crew_count = store.crew_counting(mission_id);
        let can_start = mission.status.startable() && crew_count > 0 && crew_count < (
        mission.max_crew as usize) && mission.chief_id == chief_id;
        if !can_start {
            return Err(EngineError::InvalidTransition);
        }
        let stamp = now_rfc3339();
        store.set_status(mission_id, MissionStatus::InProgress, stamp);
        let gns = self.notify_crew(
            store,
            notifier,
            mission_id,
            "Mission Started",
            texts::started_notice(mission.name.as_str()).as_str(),
        );
        let gm = self.log_and_broadcast_status_change(
            store,
            realtime,
            mission_id,
            texts::started_message(mission.name.as_str()),
        );
        proof {
            assert(sent_batch(*old(notifier), *notifier, gns@));
            assert(broadcast_batch(*old(realtime), *realtime, mission_id, seq![gm@]));
        }
        Ok(mission_id)
    }

    /// Completes a mission: moves it from `InProgress` to `Completed`.
    ///
    /// Chief-only; anything else is `InvalidTransition` and leaves every
    /// state untouched. On success the crew list is snapshotted before the
    /// write, the crew is notified, a "completed" system message is
    /// persisted and broadcast, and then the chief and every snapshotted
    /// crew member has their success counter bumped and a "mission
    /// complete" achievement pass run, with one announcement per new
    /// unlock. Afterwards every participant holds every achievement whose
    /// threshold their new counter has reached — and, by the store's
    /// uniqueness invariant, holds it exactly once.
    #[verifier::loop_isolation(false)]
    pub fn to_completed(
        &self,
        store: &mut MembershipStore,
        realtime: &mut MissionRealtimeService,
        notifier: &mut NotificationDispatcher,
        mission_id: usize,
        chief_id: usize,
    ) -> (r: Result<usize, EngineError>)
        requires
            old(store).wf(),
            old(realtime).wf(),
            old(notifier).wf(),
        ensures
            final(store).wf(),
            final(realtime).wf(),
            final(notifier).wf(),
            r == MissionOperationUseCase::finish_outcome(*old(store), mission_id, chief_id),
            r is Err ==> *final(store) == *old(store) && *final(realtime) == *old(realtime)
                && *final(notifier) == *old(notifier),
            r is Ok ==> ({
                let name = old(store).missions@[mission_id as int].name;
                let crew = crew_ids(old(store).memberships@, mission_id);
                &&& final(store).missions@.len() == old(store).missions@.len()
                &&& (forall|j: int|
                    0 <= j < old(store).missions@.len() && j != mission_id
                        ==> #[trigger] final(store).missions@[j] == old(store).missions@[j])
                &&& final(store).missions@[mission_id as int].status == MissionStatus::Completed
                &&& final(store).missions@[mission_id as int].name == name
                &&& final(store).missions@[mission_id as int].chief_id == chief_id
                &&& final(store).memberships@ == old(store).memberships@
                &&& final(store).achievements@ == old(store).achievements@
                &&& final(store).invites@ == old(store).invites@
                &&& final(store).members@.len() == old(store).members@.len()
                &&& (forall|j: int|
                    0 <= j < old(store).members@.len() ==> (#[trigger] final(store).members@[j]).display_name == old(store).members@[j].display_name && final(store).members@[j].avatar_url == old(store).members@[j].avatar_url && final(store).members@[j].mission_join_count == old(store).members@[j].mission_join_count)
                &&& final(store).members@[chief_id as int].mission_success_count == bump_counter(
                    old(store).members@[chief_id as int].mission_success_count,
                )
                &&& (forall|u: usize|
                    #[trigger] crew.contains(u) ==> final(store).members@[u as int].mission_success_count == bump_counter(
                        old(store).members@[u as int].mission_success_count,
                    ))
                &&& (forall|j: int|
                    0 <= j < old(store).members@.len() && j != chief_id && !crew.contains(
                        j as usize,
                    ) ==> #[trigger] final(store).members@[j] == old(store).members@[j])
                &&& final(store).earned@.len() >= old(store).earned@.len()
                &&& (forall|t: int|
                    0 <= t < old(store).earned@.len() ==> #[trigger] final(store).earned@[t]
                        == old(store).earned@[t])
                &&& (forall|t: int|
                    old(store).earned@.len() <= t < final(store).earned@.len() ==> (
                    #[trigger] final(store).earned@[t]).member_id == chief_id || crew.contains(
                        final(store).earned@[t].member_id,
                    ))
                &&& (forall|a: int|
                    0 <= a < old(store).achievements@.len() && qualifies(
                        #[trigger] old(store).achievements@[a],
                        ConditionType::MissionComplete,
                        final(store).members@[chief_id as int].mission_success_count,
                    ) ==> crate::store::earned_has(final(store).earned@, chief_id, a as usize))
                &&& (forall|u: usize, a: int|
                    #![trigger crew.contains(u), old(store).achievements@[a]]
                    crew.contains(u) && 0 <= a < old(store).achievements@.len() && qualifies(
                        old(store).achievements@[a],
                        ConditionType::MissionComplete,
                        final(store).members@[u as int].mission_success_count,
                    ) ==> crate::store::earned_has(final(store).earned@, u, a as usize))
                &&& final(store).messages@.len() == old(store).messages@.len() + 1 + (final(store).earned@.len() - old(store).earned@.len())
                &&& (forall|j: int|
                    0 <= j < old(store).messages@.len() ==> #[trigger] final(store).messages@[j]
                        == old(store).messages@[j])
                &&& (forall|t: int|
                    old(store).messages@.len() <= t < final(store).messages@.len() ==> (
                    #[trigger] final(store).messages@[t]).kind is System && final(store).messages@[t].mission_id == mission_id)
                &&& final(store).messages@[old(store).messages@.len() as int].content@
                    == "Mission completed: "@ + name@
                &&& (forall|t: int|
                    0 <= t < final(store).earned@.len() - old(store).earned@.len() ==> (
                    #[trigger] final(store).messages@[old(store).messages@.len() + 1 + t]).content@
                        == old(store).members@[final(store).earned@[old(store).earned@.len()
                        + t].member_id as int].display_name@ + " earned achievement: "@ + old(
                        store,
                    ).achievements@[final(store).earned@[old(store).earned@.len()
                        + t].achievement_id as int].name@)
                &&& (exists|msgs: Seq<ChatMessage>|
                    {
                        &&& #[trigger] broadcast_batch(
                            *old(realtime),
                            *final(realtime),
                            mission_id,
                            msgs,
                        )
                        &&& msgs.len() == 1 + (final(store).earned@.len() - old(store).earned@.len())
                        &&& (forall|t: int|
                            0 <= t < msgs.len() ==> (#[trigger] msgs[t]).kind is System)
                        &&& msgs[0].content@ == "Mission completed: "@ + name@
                        &&& (forall|t: int|
                            0 <= t < msgs.len() - 1 ==> (#[trigger] msgs[1 + t]).content@ == old(
                                store,
                            ).members@[final(store).earned@[old(store).earned@.len()
                                + t].member_id as int].display_name@ + " earned achievement: "@
                                + old(store).achievements@[final(store).earned@[old(
                                store,
                            ).earned@.len() + t].achievement_id as int].name@)
                    })
                &&& (exists|ns: Seq<Notification>|
                    {
                        &&& #[trigger] sent_batch(*old(notifier), *final(notifier), ns)
                        &&& ns.len() == crew.len()
                        &&& (forall|idx: int|
                            0 <= idx < ns.len() ==> (#[trigger] ns[idx]).recipient_id == Some(
                                crew[idx],
                            ) && ns[idx].title@ == "Mission Completed"@ && ns[idx].message@
                                == "Mission '"@ + name@ + "' has been completed!"@
                                && ns[idx].notification_type
                                == NotificationType::MissionStatusUpdate && ns[idx].metadata
                                == (NotificationMetadata { mission_id, joiner_id: None }))
                    })
            }),
    {
        let mission = match store.get_one(mission_id, chief_id) {
            Ok(m) => m,
            Err(e) => {
                return Err(e);
            },
        };
        let can_finish = matches!(mission.status, MissionStatus::InProgress) && mission.chief_id
            == chief_id;
        if !can_finish {
            return Err(EngineError::InvalidTransition);
        }
        // Snapshot the crew before mutating, so the award passes cover
        // exactly the members who saw the mission through.
        let crew = store.get_crew(mission_id);
        proof {
            crate::store::lemma_crew_ids_distinct(old(store).memberships@, mission_id);
        }
        let stamp = now_rfc3339();
        store.set_status(mission_id, MissionStatus::Completed, stamp);
        let gns = self.notify_crew(
            store,
            notifier,
            mission_id,
            "Mission Completed",
            texts::completed_notice(mission.name.as_str()).as_str(),
        );
        let gm0 = self.log_and_broadcast_status_change(
            store,
            realtime,
            mission_id,
            texts::completed_message(mission.name.as_str()),
        );
        let ghost rt0 = *old(realtime);
        let ghost mut sent: Seq<ChatMessage> = seq![gm0@];
        proof {
            assert(broadcast_batch(rt0, *realtime, mission_id, sent));
        }
        let ghost rt_pre_chief = *realtime;
        let ghost sent_pre_chief = sent;
        let ghost st_pre_chief = *store;
        let chief_msgs = self.award_pass_for(store, realtime, mission_id, chief_id);
        proof {
            lemma_broadcast_batch_trans(
                rt0,
                rt_pre_chief,
                *realtime,
                mission_id,
                sent_pre_chief,
                chief_msgs@,
            );
            sent = sent_pre_chief + chief_msgs@;
            assert(sent[0] == gm0@);
            assert forall|t: int|
                old(store).earned@.len() <= t < store.earned@.len() implies (
            #[trigger] store.earned@[t]).member_id == chief_id || crew@.contains(
                store.earned@[t].member_id,
            ) by {
                let t2 = t - st_pre_chief.earned@.len();
                assert(st_pre_chief.earned@.len() + t2 == t);
                assert((store.earned@[st_pre_chief.earned@.len() + t2]).member_id == chief_id);
            }
            assert forall|t: int|
                old(store).messages@.len() <= t < store.messages@.len() implies (
            #[trigger] store.messages@[t]).kind is System && store.messages@[t].mission_id
                == mission_id by {
                if t < st_pre_chief.messages@.len() {
                    assert(store.messages@[t] == st_pre_chief.messages@[t]);
                    assert(st_pre_chief.messages@.last() == st_pre_chief.messages@[t]);
                } else {
                    let t2 = t - st_pre_chief.messages@.len();
                    assert(st_pre_chief.messages@.len() + t2 == t);
                    assert((store.messages@[st_pre_chief.messages@.len() + t2]).kind is System);
                    assert((store.messages@[st_pre_chief.messages@.len() + t2]).mission_id
                        == mission_id);
                }
            }
            assert(store.messages@[old(store).messages@.len() as int]
                == st_pre_chief.messages@[old(store).messages@.len() as int]);
            assert(st_pre_chief.messages@.last() == st_pre_chief.messages@[old(
                store,
            ).messages@.len() as int]);
            let chief_ids = award_indexes(
                st_pre_chief.achievements@,
                st_pre_chief.earned@,
                chief_id,
                ConditionType::MissionComplete,
                bump_counter(st_pre_chief.members@[chief_id as int].mission_success_count),
            );
            assert forall|t: int|
                0 <= t < store.earned@.len() - old(store).earned@.len() implies (
            #[trigger] store.messages@[old(store).messages@.len() + 1 + t]).content@ == old(
                store,
            ).members@[store.earned@[old(store).earned@.len() + t].member_id as int].display_name@
                + " earned achievement: "@ + old(store).achievements@[store.earned@[old(
                store,
            ).earned@.len() + t].achievement_id as int].name@ by {
                assert(st_pre_chief.messages@.len() + t == old(store).messages@.len() + 1 + t);
                assert(st_pre_chief.earned@.len() + t == old(store).earned@.len() + t);
                assert((store.messages@[st_pre_chief.messages@.len() + t]).content@
                    == st_pre_chief.members@[chief_id as int].display_name@
                    + " earned achievement: "@ + st_pre_chief.achievements@[
                    chief_ids[t] as int
                ].name@);
                assert((store.earned@[st_pre_chief.earned@.len() + t]).member_id == chief_id);
                assert((store.earned@[st_pre_chief.earned@.len() + t]).achievement_id
                    == chief_ids[t]);
            }
            assert forall|t: int|
                0 <= t < sent.len() - 1 implies (#[trigger] sent[1 + t]).content@ == old(
                store,
            ).members@[store.earned@[old(store).earned@.len() + t].member_id as int].display_name@
                + " earned achievement: "@ + old(store).achievements@[store.earned@[old(
                store,
            ).earned@.len() + t].achievement_id as int].name@ by {
                assert(sent[1 + t] == chief_msgs@[t]);
                assert((store.earned@[st_pre_chief.earned@.len() + t]).member_id == chief_id);
                assert((store.earned@[st_pre_chief.earned@.len() + t]).achievement_id
                    == chief_ids[t]);
                assert(st_pre_chief.earned@.len() + t == old(store).earned@.len() + t);
            }
        }
        let n_crew = crew.len();
        let mut i: usize = 0;
        while i < n_crew
            invariant
                i <= n_crew,
                n_crew == crew@.len(),
                crew@ == crew_ids(old(store).memberships@, mission_id),
                store.wf(),
                realtime.wf(),
                store.missions@.len() == old(store).missions@.len(),
                forall|j: int|
                    0 <= j < old(store).missions@.len() && j != mission_id
                        ==> #[trigger] store.missions@[j] == old(store).missions@[j],
                store.missions@[mission_id as int].status == MissionStatus::Completed,
                store.missions@[mission_id as int].name == old(store).missions@[
                    mission_id as int
                ].name,
                store.missions@[mission_id as int].chief_id == chief_id,
                store.memberships@ == old(store).memberships@,
                store.achievements@ == old(store).achievements@,
                store.invites@ == old(store).invites@,
                store.members@.len() == old(store).members@.len(),
                chief_id < store.members@.len(),
                forall|j: int|
                    0 <= j < old(store).members@.len() ==> (#[trigger] store.members@[
                        j
                    ]).display_name == old(store).members@[j].display_name && store.members@[
                        j
                    ].avatar_url == old(store).members@[j].avatar_url && store.members@[
                        j
                    ].mission_join_count == old(store).members@[j].mission_join_count,
                store.members@[chief_id as int].mission_success_count == bump_counter(
                    old(store).members@[chief_id as int].mission_success_count,
                ),
                forall|u: usize|
                    #[trigger] crew@.take(i as int).contains(u) ==> store.members@[
                        u as int
                    ].mission_success_count == bump_counter(
                        old(store).members@[u as int].mission_success_count,
                    ),
                forall|j: int|
                    0 <= j < old(store).members@.len() && j != chief_id && !crew@.take(
                        i as int,
                    ).contains(j as usize) ==> #[trigger] store.members@[j] == old(store).members@[j],
                store.earned@.len() >= old(store).earned@.len(),
                forall|t: int|
                    0 <= t < old(store).earned@.len() ==> #[trigger] store.earned@[t] == old(store).earned@[t],
                forall|t: int|
                    old(store).earned@.len() <= t < store.earned@.len() ==> (
                    #[trigger] store.earned@[t]).member_id == chief_id || crew@.contains(
                        store.earned@[t].member_id,
                    ),
                forall|a: int|
                    0 <= a < old(store).achievements@.len() && qualifies(
                        #[trigger] old(store).achievements@[a],
                        ConditionType::MissionComplete,
                        store.members@[chief_id as int].mission_success_count,
                    ) ==> crate::store::earned_has(store.earned@, chief_id, a as usize),
                forall|u: usize, a: int|
                    #![trigger crew@.take(i as int).contains(u), old(store).achievements@[a]]
                    crew@.take(i as int).contains(u) && 0 <= a < old(store).achievements@.len()
                        && qualifies(
                        old(store).achievements@[a],
                        ConditionType::MissionComplete,
                        store.members@[u as int].mission_success_count,
                    ) ==> crate::store::earned_has(store.earned@, u, a as usize),
                store.messages@.len() == old(store).messages@.len() + 1 + (store.earned@.len()
                    - old(store).earned@.len()),
                forall|j: int|
                    0 <= j < old(store).messages@.len() ==> #[trigger] store.messages@[j] == old(store).messages@[j],
                forall|t: int|
                    old(store).messages@.len() <= t < store.messages@.len() ==> (
                    #[trigger] store.messages@[t]).kind is System && store.messages@[t].mission_id
                        == mission_id,
                store.messages@[old(store).messages@.len() as int].content@
                    == "Mission completed: "@ + old(store).missions@[mission_id as int].name@,
                forall|t: int|
                    0 <= t < store.earned@.len() - old(store).earned@.len() ==> (
                    #[trigger] store.messages@[old(store).messages@.len() + 1 + t]).content@
                        == old(store).members@[store.earned@[old(store).earned@.len()
                        + t].member_id as int].display_name@ + " earned achievement: "@ + old(
                        store,
                    ).achievements@[store.earned@[old(store).earned@.len()
                        + t].achievement_id as int].name@,
                broadcast_batch(rt0, *realtime, mission_id, sent),
                sent.len() == 1 + (store.earned@.len() - old(store).earned@.len()),
                forall|t: int| 0 <= t < sent.len() ==> (#[trigger] sent[t]).kind is System,
                sent[0].content@ == "Mission completed: "@ + old(store).missions@[
                    mission_id as int
                ].name@,
                forall|t: int|
                    0 <= t < sent.len() - 1 ==> (#[trigger] sent[1 + t]).content@ == old(
                        store,
                    ).members@[store.earned@[old(store).earned@.len()
                        + t].member_id as int].display_name@ + " earned achievement: "@ + old(
                        store,
                    ).achievements@[store.earned@[old(store).earned@.len()
                        + t].achievement_id as int].name@,
            decreases n_crew - i,
        {
            let member_id = crew[i];
            proof {
                crate::store::lemma_crew_ids_contains(
                    old(store).memberships@,
                    mission_id,
                    member_id,
                );
                let w = choose|w: int|
                    0 <= w < old(store).memberships@.len() && old(store).memberships@[w].mission_id == mission_id && old(store).memberships@[w].member_id == member_id;
                assert(member_id < old(store).members@.len());
                assert(member_id != chief_id) by {
                    assert(old(store).missions@[old(store).memberships@[w].mission_id as int].chief_id != old(store).memberships@[w].member_id);
                }
                assert(!crew@.take(i as int).contains(member_id)) by {
                    if crew@.take(i as int).contains(member_id) {
                        let k = choose|k: int|
                            0 <= k < i && crew@.take(i as int)[k] == member_id;
                        assert(crew@[k] == member_id);
                        assert(crew@[k] != crew@[i as int]);
                    }
                }
            }
            let ghost rt_pre = *realtime;
            let ghost sent_pre = sent;
            let ghost st_pre = *store;
            let member_msgs = self.award_pass_for(store, realtime, mission_id, member_id);
            proof {
                lemma_broadcast_batch_trans(
                    rt0,
                    rt_pre,
                    *realtime,
                    mission_id,
                    sent_pre,
                    member_msgs@,
                );
                sent = sent_pre + member_msgs@;
                assert(crew@.take(i as int + 1).drop_last() =~= crew@.take(i as int));
                assert(crew@.take(i as int + 1).last() == crew@[i as int]);
                let new_rows = award_indexes(
                    st_pre.achievements@,
                    st_pre.earned@,
                    member_id,
                    ConditionType::MissionComplete,
                    bump_counter(st_pre.members@[member_id as int].mission_success_count),
                );
                assert forall|t: int|
                    old(store).earned@.len() <= t < store.earned@.len() implies (
                #[trigger] store.earned@[t]).member_id == chief_id || crew@.contains(
                    store.earned@[t].member_id,
                ) by {
                    if t >= st_pre.earned@.len() {
                        let t2 = t - st_pre.earned@.len();
                        assert(st_pre.earned@.len() + t2 == t);
                        assert((store.earned@[st_pre.earned@.len() + t2]).member_id == member_id);
                        assert(crew@[i as int] == member_id);
                    } else {
                        assert(store.earned@[t] == st_pre.earned@[t]);
                    }
                }
                assert forall|u: usize|
                    #[trigger] crew@.take(i as int + 1).contains(u) implies store.members@[
                    u as int
                ].mission_success_count == bump_counter(
                    old(store).members@[u as int].mission_success_count,
                ) by {
                    if u == member_id {
                        assert(st_pre.members@[member_id as int].mission_success_count == old(
                            store,
                        ).members@[member_id as int].mission_success_count);
                        assert(store.members@[member_id as int].mission_success_count
                            == bump_counter(
                            st_pre.members@[member_id as int].mission_success_count,
                        ));
                    } else {
                        let k = choose|k: int|
                            0 <= k < i + 1 && #[trigger] crew@.take(i as int + 1)[k] == u;
                        assert(crew@[k] == u);
                        assert(k < i);
                        assert(crew@.take(i as int)[k] == u);
                        assert(crew@.take(i as int).contains(u));
                        crate::store::lemma_crew_ids_contains(
                            old(store).memberships@,
                            mission_id,
                            u,
                        );
                        let ww = choose|ww: int|
                            0 <= ww < old(store).memberships@.len() && old(
                                store,
                            ).memberships@[ww].mission_id == mission_id && old(
                                store,
                            ).memberships@[ww].member_id == u;
                        assert(u < old(store).members@.len());
                        assert(store.members@[u as int] == st_pre.members@[u as int]);
                    }
                }
                assert forall|t: int|
                    old(store).messages@.len() <= t < store.messages@.len() implies (
                #[trigger] store.messages@[t]).kind is System && store.messages@[t].mission_id
                    == mission_id by {
                    if t < st_pre.messages@.len() {
                        assert(store.messages@[t] == st_pre.messages@[t]);
                    } else {
                        let t2 = t - st_pre.messages@.len();
                        assert(st_pre.messages@.len() + t2 == t);
                        assert((store.messages@[st_pre.messages@.len() + t2]).kind is System);
                        assert((store.messages@[st_pre.messages@.len() + t2]).mission_id
                            == mission_id);
                    }
                }
                assert(store.messages@[old(store).messages@.len() as int] == st_pre.messages@[old(
                    store,
                ).messages@.len() as int]);
                assert forall|a: int|
                    0 <= a < old(store).achievements@.len() && qualifies(
                        #[trigger] old(store).achievements@[a],
                        ConditionType::MissionComplete,
                        store.members@[chief_id as int].mission_success_count,
                    ) implies crate::store::earned_has(store.earned@, chief_id, a as usize) by {
                    assert(store.members@[chief_id as int] == st_pre.members@[chief_id as int]);
                    assert(crate::store::earned_has(st_pre.earned@, chief_id, a as usize));
                    let w3 = choose|w3: int|
                        0 <= w3 < st_pre.earned@.len() && st_pre.earned@[w3].member_id == chief_id
                            && st_pre.earned@[w3].achievement_id == a as usize;
                    assert(store.earned@[w3] == st_pre.earned@[w3]);
                }
                assert forall|u: usize, a: int|
                    #![trigger crew@.take(i as int + 1).contains(u), old(store).achievements@[a]]
                    crew@.take(i as int + 1).contains(u) && 0 <= a < old(store).achievements@.len() && qualifies(
                        old(store).achievements@[a],
                        ConditionType::MissionComplete,
                        store.members@[u as int].mission_success_count,
                    ) implies crate::store::earned_has(store.earned@, u, a as usize) by {
                    assert(u < store.members@.len()) by {
                        let kk = choose|kk: int|
                            0 <= kk < i + 1 && #[trigger] crew@.take(i as int + 1)[kk] == u;
                        assert(crew@[kk] == u);
                        crate::store::lemma_crew_ids_contains(
                            old(store).memberships@,
                            mission_id,
                            u,
                        );
                        let ww = choose|ww: int|
                            0 <= ww < old(store).memberships@.len() && old(
                                store,
                            ).memberships@[ww].mission_id == mission_id && old(
                                store,
                            ).memberships@[ww].member_id == u;
                        assert(u < old(store).members@.len());
                    }
                    if u == member_id {
                        assert(crate::store::earned_has(store.earned@, u, a as usize));
                    } else {
                        let k = choose|k: int|
                            0 <= k < i + 1 && #[trigger] crew@.take(i as int + 1)[k] == u;
                        assert(crew@[k] == u);
                        assert(k < i);
                        assert(crew@.take(i as int)[k] == u);
                        assert(crew@.take(i as int).contains(u));
                        assert(store.members@[u as int] == st_pre.members@[u as int]);
                        assert(crate::store::earned_has(st_pre.earned@, u, a as usize));
                        let w2 = choose|w2: int|
                            0 <= w2 < st_pre.earned@.len() && st_pre.earned@[w2].member_id == u
                                && st_pre.earned@[w2].achievement_id == a as usize;
                        assert(store.earned@[w2] == st_pre.earned@[w2]);
                    }
                }
                let pass_ids = award_indexes(
                    st_pre.achievements@,
                    st_pre.earned@,
                    member_id,
                    ConditionType::MissionComplete,
                    bump_counter(st_pre.members@[member_id as int].mission_success_count),
                );
                let growth_pre = st_pre.earned@.len() - old(store).earned@.len();
                assert forall|t: int|
                    0 <= t < store.earned@.len() - old(store).earned@.len() implies (
                #[trigger] store.messages@[old(store).messages@.len() + 1 + t]).content@ == old(
                    store,
                ).members@[store.earned@[old(store).earned@.len()
                    + t].member_id as int].display_name@ + " earned achievement: "@ + old(
                    store,
                ).achievements@[store.earned@[old(store).earned@.len()
                    + t].achievement_id as int].name@ by {
                    if t < growth_pre {
                        assert(old(store).messages@.len() + 1 + t < st_pre.messages@.len());
                        assert(store.messages@[old(store).messages@.len() + 1 + t]
                            == st_pre.messages@[old(store).messages@.len() + 1 + t]);
                        assert(store.earned@[old(store).earned@.len() + t] == st_pre.earned@[old(
                            store,
                        ).earned@.len() + t]);
                    } else {
                        let t2 = t - growth_pre;
                        assert(old(store).messages@.len() + 1 + t == st_pre.messages@.len() + t2);
                        assert(old(store).earned@.len() + t == st_pre.earned@.len() + t2);
                        assert((store.messages@[st_pre.messages@.len() + t2]).content@
                            == st_pre.members@[member_id as int].display_name@
                            + " earned achievement: "@ + st_pre.achievements@[
                            pass_ids[t2] as int
                        ].name@);
                        assert((store.earned@[st_pre.earned@.len() + t2]).member_id == member_id);
                        assert((store.earned@[st_pre.earned@.len() + t2]).achievement_id
                            == pass_ids[t2]);
                        assert(st_pre.members@[member_id as int].display_name == old(
                            store,
                        ).members@[member_id as int].display_name);
                    }
                }
                assert forall|t: int|
                    0 <= t < sent.len() - 1 implies (#[trigger] sent[1 + t]).content@ == old(
                    store,
                ).members@[store.earned@[old(store).earned@.len()
                    + t].member_id as int].display_name@ + " earned achievement: "@ + old(
                    store,
                ).achievements@[store.earned@[old(store).earned@.len()
                    + t].achievement_id as int].name@ by {
                    if t < growth_pre {
                        assert(sent[1 + t] == sent_pre[1 + t]);
                        assert(store.earned@[old(store).earned@.len() + t] == st_pre.earned@[old(
                            store,
                        ).earned@.len() + t]);
                    } else {
                        let t2 = t - growth_pre;
                        assert(sent[1 + t] == member_msgs@[t2]);
                        assert((member_msgs@[t2]).content@ == st_pre.members@[
                            member_id as int
                        ].display_name@ + " earned achievement: "@ + st_pre.achievements@[
                            pass_ids[t2] as int
                        ].name@);
                        assert(old(store).earned@.len() + t == st_pre.earned@.len() + t2);
                        assert((store.earned@[st_pre.earned@.len() + t2]).member_id == member_id);
                        assert((store.earned@[st_pre.earned@.len() + t2]).achievement_id
                            == pass_ids[t2]);
                        assert(st_pre.members@[member_id as int].display_name == old(
                            store,
                        ).members@[member_id as int].display_name);
                    }
                }
            }
            i = i + 1;
        }
        proof {
            assert(crew@.take(n_crew as int) =~= crew@);
        }
        Ok(mission_id)
    }

    /// Fails a mission: moves it from `InProgress` to `Failed`. Chief-only;
    /// anything else is `InvalidTransition` and leaves every state
    /// untouched. The crew is notified and a "failed" system message is
    /// persisted and broadcast; no achievement pass runs.
    pub fn to_failed(
        &self,
        store: &mut MembershipStore,
        realtime: &mut MissionRealtimeService,
        notifier: &mut NotificationDispatcher,
        mission_id: usize,
        chief_id: usize,
    ) -> (r: Result<usize, EngineError>)
        requires
            old(store).wf(),
            old(realtime).wf(),
            old(notifier).wf(),
        ensures
            final(store).wf(),
            final(realtime).wf(),
            final(notifier).wf(),
            r == MissionOperationUseCase::finish_outcome(*old(store), mission_id, chief_id),
            r is Err ==> *final(store) == *old(store) && *final(realtime) == *old(realtime)
                && *final(notifier) == *old(notifier),
            r is Ok ==> ({
                let name = old(store).missions@[mission_id as int].name;
                let crew = crew_ids(old(store).memberships@, mission_id);
                &&& final(store).missions@.len() == old(store).missions@.len()
                &&& (forall|j: int|
                    0 <= j < old(store).missions@.len() && j != mission_id
                        ==> #[trigger] final(store).missions@[j] == old(store).missions@[j])
                &&& final(store).missions@[mission_id as int].status == MissionStatus::Failed
                &&& final(store).missions@[mission_id as int].name == name
                &&& final(store).missions@[mission_id as int].chief_id == chief_id
                &&& final(store).members@ == old(store).members@
                &&& final(store).memberships@ == old(store).memberships@
                &&& final(store).achievements@ == old(store).achievements@
                &&& final(store).earned@ == old(store).earned@
                &&& final(store).invites@ == old(store).invites@
                &&& final(store).messages@.len() == old(store).messages@.len() + 1
                &&& (forall|j: int|
                    0 <= j < old(store).messages@.len() ==> #[trigger] final(store).messages@[j]
                        == old(store).messages@[j])
                &&& final(store).messages@.last().kind is System
                &&& final(store).messages@.last().mission_id == mission_id
                &&& final(store).messages@.last().content@ == "Mission failed: "@ + name@
                &&& (exists|msgs: Seq<ChatMessage>|
                    {
                        &&& #[trigger] broadcast_batch(
                            *old(realtime),
                            *final(realtime),
                            mission_id,
                            msgs,
                        )
                        &&& msgs.len() == 1
                        &&& msgs[0].kind is System
                        &&& msgs[0].content@ == "Mission failed: "@ + name@
                    })
                &&& (exists|ns: Seq<Notification>|
                    {
                        &&& #[trigger] sent_batch(*old(notifier), *final(notifier), ns)
                        &&& ns.len() == crew.len()
                        &&& (forall|idx: int|
                            0 <= idx < ns.len() ==> (#[trigger] ns[idx]).recipient_id == Some(
                                crew[idx],
                            ) && ns[idx].title@ == "Mission Failed"@ && ns[idx].message@
                                == "Mission '"@ + name@ + "' has failed."@
                                && ns[idx].notification_type
                                == NotificationType::MissionStatusUpdate && ns[idx].metadata
                                == (NotificationMetadata { mission_id, joiner_id: None }))
                    })
            }),
    {
        let mission = match store.get_one(mission_id, chief_id) {
            Ok(m) => m,
            Err(e) => {
                return Err(e);
            },
        };
        let can_finish = matches!(mission.status, MissionStatus::InProgress) && mission.chief_id
            == chief_id;
        if !can_finish {
            return Err(EngineError::InvalidTransition);
        }
        let stamp = now_rfc3339();
        store.set_status(mission_id, MissionStatus::Failed, stamp);
        let gns = self.notify_crew(
            store,
            notifier,
            mission_id,
            "Mission Failed",
            texts::failed_notice(mission.name.as_str()).as_str(),
        );
        let gm = self.log_and_broadcast_status_change(
            store,
            realtime,
            mission_id,
            texts::failed_message(mission.name.as_str()),
        );
        proof {
            assert(sent_batch(*old(notifier), *notifier, gns@));
            assert(broadcast_batch(*old(realtime), *realtime, mission_id, seq![gm@]));
        }
        Ok(mission_id)
    }
}

} // verus!
