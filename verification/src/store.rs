//! The membership store: the durable state the engine coordinates.
//!
//! All tables are append-only (missions are soft-deleted, invites change
//! status in place, crew memberships are the one table whose rows are
//! removed), so a record's identity is its index in its table.
//!
//! The store exposes the atomic check-then-act primitives the engine relies
//! on: membership insertion enforces uniqueness, chief exclusion and capacity
//! in one step, and achievement awarding is an insert-if-absent. Application
//! pre-checks reduce contention but the primitives are the final arbiter.

use vstd::prelude::*;

use crate::errors::EngineError;
use crate::model::{
    Achievement, CrewMembership, EditMissionModel, InviteStatus, Member, MemberAchievement,
    Mission, MissionInvite, MissionInviteDetails, MissionMessage, MissionMessageView,
    MissionModel, MissionSummaryModel, NewMissionInvite, NewMissionMessageEntity,
};
use crate::status::MissionStatus;

verus! {

/// The member ids of the crew of `mission_id`, in join order.
pub open spec fn crew_ids(s: Seq<CrewMembership>, mission_id: usize) -> Seq<usize>
    decreases s.len(),
{
    if s.len() == 0 {
        Seq::empty()
    } else if s.last().mission_id == mission_id {
        crew_ids(s.drop_last(), mission_id).push(s.last().member_id)
    } else {
        crew_ids(s.drop_last(), mission_id)
    }
}

/// How many members the crew of `mission_id` has.
pub open spec fn crew_size(s: Seq<CrewMembership>, mission_id: usize) -> nat {
    crew_ids(s, mission_id).len()
}

/// Whether a membership row for (mission, member) is present.
pub open spec fn has_pair(s: Seq<CrewMembership>, mission_id: usize, member_id: usize) -> bool {
    exists|i: int|
        0 <= i < s.len() && s[i].mission_id == mission_id && s[i].member_id == member_id
}

/// Membership rows are unique per (mission, member).
pub open spec fn pairs_unique(s: Seq<CrewMembership>) -> bool {
    forall|i: int, j: int|
        0 <= i < j < s.len() ==> !(#[trigger] s[i].mission_id == #[trigger] s[j].mission_id
            && s[i].member_id == s[j].member_id)
}

/// Whether (member, achievement) already has an award row.
pub open spec fn earned_has(s: Seq<MemberAchievement>, member_id: usize, achievement_id: usize) -> bool {
    exists|i: int|
        0 <= i < s.len() && s[i].member_id == member_id && s[i].achievement_id == achievement_id
}

/// Award rows are unique per (member, achievement): awarding is idempotent.
pub open spec fn earned_unique(s: Seq<MemberAchievement>) -> bool {
    forall|i: int, j: int|
        0 <= i < j < s.len() ==> !(#[trigger] s[i].member_id == #[trigger] s[j].member_id
            && s[i].achievement_id == s[j].achievement_id)
}

/// Whether a pending invite for (mission, member) is present.
pub open spec fn pending_invite(s: Seq<MissionInvite>, mission_id: usize, user_id: usize) -> bool {
    exists|i: int|
        0 <= i < s.len() && s[i].mission_id == mission_id && s[i].user_id == user_id
            && s[i].status is Pending
}

/// At most one pending invite per (mission, member).
pub open spec fn pending_unique(s: Seq<MissionInvite>) -> bool {
    forall|i: int, j: int|
        0 <= i < j < s.len() ==> !(#[trigger] s[i].mission_id == #[trigger] s[j].mission_id
            && s[i].user_id == s[j].user_id && s[i].status is Pending && s[j].status is Pending)
}

/// The durable state: missions, members, crew memberships, achievement
/// reference data, awarded achievements, the message log and invitations.
pub struct MembershipStore {
    pub missions: Vec<Mission>,
    pub members: Vec<Member>,
    pub memberships: Vec<CrewMembership>,
    pub achievements: Vec<Achievement>,
    pub earned: Vec<MemberAchievement>,
    pub messages: Vec<MissionMessage>,
    pub invites: Vec<MissionInvite>,
}

impl MembershipStore {
    /// Every mission has a capacity in `[2, 10]` and an existing chief.
    pub open spec fn missions_ok(self) -> bool {
        forall|i: int|
            0 <= i < self.missions@.len() ==> {
                &&& 2 <= (#[trigger] self.missions@[i]).max_crew <= 10
                &&& self.missions@[i].chief_id < self.members@.len()
            }
    }

    /// Membership rows are unique, reference existing records, and never
    /// name a mission's chief as crew.
    pub open spec fn memberships_ok(self) -> bool {
        &&& pairs_unique(self.memberships@)
        &&& forall|i: int|
            0 <= i < self.memberships@.len() ==> {
                &&& (#[trigger] self.memberships@[i]).mission_id < self.missions@.len()
                &&& self.memberships@[i].member_id < self.members@.len()
                &&& self.missions@[self.memberships@[i].mission_id as int].chief_id
                    != self.memberships@[i].member_id
            }
    }

    /// No crew ever exceeds its mission's capacity.
    pub open spec fn capacity_ok(self) -> bool {
        forall|mission_id: usize|
            mission_id < self.missions@.len() ==> #[trigger] crew_size(
                self.memberships@,
                mission_id,
            ) <= self.missions@[mission_id as int].max_crew
    }

    /// Award rows are unique per pair and reference existing records.
    pub open spec fn earned_ok(self) -> bool {
        &&& earned_unique(self.earned@)
        &&& forall|i: int|
            0 <= i < self.earned@.len() ==> {
                &&& (#[trigger] self.earned@[i]).member_id < self.members@.len()
                &&& self.earned@[i].achievement_id < self.achievements@.len()
            }
    }

    /// Messages reference existing missions and authors.
    pub open spec fn messages_ok(self) -> bool {
        forall|i: int|
            0 <= i < self.messages@.len() ==> {
                &&& (#[trigger] self.messages@[i]).mission_id < self.missions@.len()
                &&& (self.messages@[i].user_id matches Some(u) ==> u < self.members@.len())
            }
    }

    /// Invites reference existing records, with at most one pending invite
    /// per (mission, member).
    pub open spec fn invites_ok(self) -> bool {
        &&& pending_unique(self.invites@)
        &&& forall|i: int|
            0 <= i < self.invites@.len() ==> {
                &&& (#[trigger] self.invites@[i]).mission_id < self.missions@.len()
                &&& self.invites@[i].user_id < self.members@.len()
            }
    }

    /// The store's well-formedness invariant. Established by [`Self::new`]
    /// and preserved by every operation.
    pub open spec fn wf(self) -> bool {
        &&& self.missions_ok()
        &&& self.memberships_ok()
        &&& self.capacity_ok()
        &&& self.earned_ok()
        &&& self.messages_ok()
        &&& self.invites_ok()
    }

    /// An empty store.
    pub fn new() -> (r: MembershipStore)
        ensures
            r.wf(),
            r.missions@.len() == 0,
            r.members@.len() == 0,
            r.memberships@.len() == 0,
            r.achievements@.len() == 0,
            r.earned@.len() == 0,
            r.messages@.len() == 0,
            r.invites@.len() == 0,
    {
        MembershipStore {
            missions: Vec::new(),
            members: Vec::new(),
            memberships: Vec::new(),
            achievements: Vec::new(),
            earned: Vec::new(),
            messages: Vec::new(),
            invites: Vec::new(),
        }
    }

    /// Registers a member and returns their identity.
    pub fn add_member(&mut self, display_name: String, avatar_url: Option<String>) -> (r: usize)
        requires
            old(self).wf(),
        ensures
            final(self).wf(),
            r == old(self).members@.len(),
            final(self).members@ == old(self).members@.push(
                Member {
                    display_name,
                    avatar_url,
                    mission_success_count: 0,
                    mission_join_count: 0,
                },
            ),
            final(self).missions@ == old(self).missions@,
            final(self).memberships@ == old(self).memberships@,
            final(self).achievements@ == old(self).achievements@,
            final(self).earned@ == old(self).earned@,
            final(self).messages@ == old(self).messages@,
            final(self).invites@ == old(self).invites@,
    {
        let id = self.members.len();
        self.members.push(
            Member { display_name, avatar_url, mission_success_count: 0, mission_join_count: 0 },
        );
        id
    }

    /// Adds an achievement to the static reference data and returns its
    /// identity.
    pub fn add_achievement(&mut self, achievement: Achievement) -> (r: usize)
        requires
            old(self).wf(),
        ensures
            final(self).wf(),
            r == old(self).achievements@.len(),
            final(self).achievements@ == old(self).achievements@.push(achievement),
            final(self).missions@ == old(self).missions@,
            final(self).members@ == old(self).members@,
            final(self).memberships@ == old(self).memberships@,
            final(self).earned@ == old(self).earned@,
            final(self).messages@ == old(self).messages@,
            final(self).invites@ == old(self).invites@,
    {
        let id = self.achievements.len();
        self.achievements.push(achievement);
        id
    }

    /// How many crew members `mission_id` currently has.
    pub fn crew_counting(&self, mission_id: usize) -> (r: usize)
        ensures
            r == crew_size(self.memberships@, mission_id),
    {
        let n = self.memberships.len();
        let mut count: usize = 0;
        let mut i: usize = 0;
        while i < n
            invariant
                i <= n,
                n == self.memberships@.len(),
                count == crew_size(self.memberships@.take(i as int), mission_id),
                count <= i,
            decreases n - i,
        {
            proof {
                lemma_crew_ids_take_step(self.memberships@, i as int, mission_id);
            }
            if self.memberships[i].mission_id == mission_id {
                count = count + 1;
            }
            i = i + 1;
        }
        proof {
            assert(self.memberships@.take(n as int) =~= self.memberships@);
        }
        count
    }

    /// Whether (mission, member) currently holds a membership row.
    pub fn is_member(&self, mission_id: usize, member_id: usize) -> (r: bool)
        ensures
            r == has_pair(self.memberships@, mission_id, member_id),
    {
        let n = self.memberships.len();
        let mut i: usize = 0;
        while i < n
            invariant
                i <= n,
                n == self.memberships@.len(),
                forall|j: int|
                    0 <= j < i ==> !((#[trigger] self.memberships@[j]).mission_id == mission_id
                        && self.memberships@[j].member_id == member_id),
            decreases n - i,
        {
            if self.memberships[i].mission_id == mission_id
                && self.memberships[i].member_id == member_id {
                return true;
            }
            i = i + 1;
        }
        false
    }

    /// The member ids of the crew of `mission_id`, in join order.
    pub fn get_crew(&self, mission_id: usize) -> (r: Vec<usize>)
        ensures
            r@ == crew_ids(self.memberships@, mission_id),
    {
        let n = self.memberships.len();
        let mut out: Vec<usize> = Vec::new();
        let mut i: usize = 0;
        while i < n
            invariant
                i <= n,
                n == self.memberships@.len(),
                out@ == crew_ids(self.memberships@.take(i as int), mission_id),
            decreases n - i,
        {
            proof {
                lemma_crew_ids_take_step(self.memberships@, i as int, mission_id);
            }
            if self.memberships[i].mission_id == mission_id {
                out.push(self.memberships[i].member_id);
            }
            i = i + 1;
        }
        proof {
            assert(self.memberships@.take(n as int) =~= self.memberships@);
        }
        out
    }
}

/// A monotonic bump of a member counter; the counter pins at the type's
/// maximum rather than wrapping.
pub open spec fn bump_counter(c: u32) -> u32 {
    if c < u32::MAX {
        (c + 1) as u32
    } else {
        c
    }
}

impl MembershipStore {
    /// The outcome the store decides for a join attempt, in check order:
    /// existence, chief exclusion, uniqueness, capacity.
    pub open spec fn join_verdict(self, mission_id: usize, member_id: usize) -> Result<
        (),
        EngineError,
    > {
        if mission_id >= self.missions@.len() || member_id >= self.members@.len() {
            Err(EngineError::NotFound)
        } else if self.missions@[mission_id as int].chief_id == member_id {
            Err(EngineError::SelfJoinForbidden)
        } else if has_pair(self.memberships@, mission_id, member_id) {
            Err(EngineError::AlreadyJoined)
        } else if crew_size(self.memberships@, mission_id) >= self.missions@[
            mission_id as int
        ].max_crew {
            Err(EngineError::MissionFull)
        } else {
            Ok(())
        }
    }

    /// The atomic check-then-act join primitive: inserts the membership row
    /// and bumps the member's join counter in one step, or rejects without
    /// any change. The uniqueness, chief-exclusion and capacity checks here
    /// are the authoritative guards; application-level pre-checks are an
    /// optimization.
    pub fn insert_membership(&mut self, mission_id: usize, member_id: usize) -> (r: Result<
        (),
        EngineError,
    >)
        requires
            old(self).wf(),
        ensures
            final(self).wf(),
            r == old(self).join_verdict(mission_id, member_id),
            r is Ok ==> final(self).memberships@ == old(self).memberships@.push(
                CrewMembership { mission_id, member_id },
            ),
            r is Ok ==> final(self).members@ == old(self).members@.update(
                member_id as int,
                Member {
                    mission_join_count: bump_counter(
                        old(self).members@[member_id as int].mission_join_count,
                    ),
                    ..old(self).members@[member_id as int]
                },
            ),
            r is Err ==> *final(self) == *old(self),
            final(self).missions@ == old(self).missions@,
            final(self).achievements@ == old(self).achievements@,
            final(self).earned@ == old(self).earned@,
            final(self).messages@ == old(self).messages@,
            final(self).invites@ == old(self).invites@,
    {
        if mission_id >= self.missions.len() || member_id >= self.members.len() {
            return Err(EngineError::NotFound);
        }
        if self.missions[mission_id].chief_id == member_id {
            return Err(EngineError::SelfJoinForbidden);
        }
        if self.is_member(mission_id, member_id) {
            return Err(EngineError::AlreadyJoined);
        }
        let count = self.crew_counting(mission_id);
        if count >= self.missions[mission_id].max_crew as usize {
            return Err(EngineError::MissionFull);
        }
        let row = CrewMembership { mission_id, member_id };
        self.memberships.push(row);
        let current = self.members[member_id].mission_join_count;
        let bumped = if current < u32::MAX {
            current + 1
        } else {
            current
        };
        self.members[member_id].mission_join_count = bumped;
        proof {
            let olds = old(self).memberships@;
            assert forall|m2: usize| m2 < self.missions@.len() implies #[trigger] crew_size(
                self.memberships@,
                m2,
            ) <= self.missions@[m2 as int].max_crew by {
                lemma_crew_ids_push(olds, row, m2);
                assert(crew_size(olds, m2) <= old(self).missions@[m2 as int].max_crew);
                assert(count == crew_size(olds, mission_id));
            }
        }
        Ok(())
    }

    /// Deletes the membership row for (mission, member) if it is present and
    /// reports whether a row was removed. Removal is allowed regardless of
    /// mission status, and removes exactly one row.
    #[verifier::loop_isolation(false)]
    pub fn remove_membership(&mut self, mission_id: usize, member_id: usize) -> (r: bool)
        requires
            old(self).wf(),
        ensures
            final(self).wf(),
            r == has_pair(old(self).memberships@, mission_id, member_id),
            !r ==> *final(self) == *old(self),
            r ==> exists|k: int|
                0 <= k < old(self).memberships@.len() && old(self).memberships@[k]
                    == (CrewMembership { mission_id, member_id }) && final(self).memberships@
                    == old(self).memberships@.remove(k),
            !has_pair(final(self).memberships@, mission_id, member_id),
            r ==> crew_size(final(self).memberships@, mission_id) + 1 == crew_size(
                old(self).memberships@,
                mission_id,
            ),
            forall|m2: usize|
                m2 != mission_id ==> #[trigger] crew_size(final(self).memberships@, m2)
                    == crew_size(old(self).memberships@, m2),
            forall|m2: usize, u2: usize|
                !(m2 == mission_id && u2 == member_id) ==> #[trigger] has_pair(
                    final(self).memberships@,
                    m2,
                    u2,
                ) == has_pair(old(self).memberships@, m2, u2),
            final(self).missions@ == old(self).missions@,
            final(self).members@ == old(self).members@,
            final(self).achievements@ == old(self).achievements@,
            final(self).earned@ == old(self).earned@,
            final(self).messages@ == old(self).messages@,
            final(self).invites@ == old(self).invites@,
    {
        let n = self.memberships.len();
        let mut i: usize = 0;
        while i < n
            invariant
                i <= n,
                *self == *old(self),
                n == self.memberships@.len(),
                forall|j: int|
                    0 <= j < i ==> !((#[trigger] self.memberships@[j]).mission_id == mission_id
                        && self.memberships@[j].member_id == member_id),
            decreases n - i,
        {
            if self.memberships[i].mission_id == mission_id
                && self.memberships[i].member_id == member_id {
                self.memberships.remove(i);
                proof {
                    let olds = old(self).memberships@;
                    let news = self.memberships@;
                    let k = i as int;
                    lemma_remove_index_map(olds, k);
                    assert forall|m2: usize| m2 < self.missions@.len() implies #[trigger] crew_size(
                        news,
                        m2,
                    ) <= self.missions@[m2 as int].max_crew by {
                        lemma_crew_size_remove(olds, k, m2);
                    }
                    assert(crew_size(news, mission_id) + 1 == crew_size(olds, mission_id)) by {
                        lemma_crew_size_remove(olds, k, mission_id);
                    }
                    assert forall|m2: usize| m2 != mission_id implies #[trigger] crew_size(
                        news,
                        m2,
                    ) == crew_size(olds, m2) by {
                        lemma_crew_size_remove(olds, k, m2);
                    }
                    assert forall|m2: usize, u2: usize|
                        !(m2 == mission_id && u2 == member_id) && #[trigger] has_pair(
                            olds,
                            m2,
                            u2,
                        ) implies has_pair(news, m2, u2) by {
                        let w = choose|w: int|
                            0 <= w < olds.len() && olds[w].mission_id == m2 && olds[w].member_id
                                == u2;
                        if w < k {
                            assert(news[w] == olds[w]);
                        } else {
                            assert(news[w - 1] == olds[w]);
                        }
                    }
                    assert(!has_pair(news, mission_id, member_id)) by {
                        if has_pair(news, mission_id, member_id) {
                            let w = choose|w: int|
                                0 <= w < news.len() && news[w].mission_id == mission_id
                                    && news[w].member_id == member_id;
                            if w < k {
                                assert(olds[w].mission_id == mission_id && olds[w].member_id
                                    == member_id);
                            } else {
                                assert(olds[w + 1].mission_id == mission_id && olds[w
                                    + 1].member_id == member_id);
                            }
                        }
                    }
                }
                return true;
            }
            i = i + 1;
        }
        false
    }
}

impl MembershipStore {
    /// Creates a mission with the given chief and capacity; the mission
    /// starts `Open`, undeleted, with an empty crew. Returns the new
    /// mission's identity.
    pub fn create_mission(
        &mut self,
        chief_id: usize,
        name: String,
        description: Option<String>,
        category: Option<String>,
        max_crew: u32,
        now: String,
    ) -> (r: Result<usize, EngineError>)
        requires
            old(self).wf(),
        ensures
            final(self).wf(),
            r matches Err(e) ==> (*final(self) == *old(self) && ((e == EngineError::NotFound
                && chief_id >= old(self).members@.len()) || (e == EngineError::ValidationError
                && chief_id < old(self).members@.len() && !(2 <= max_crew <= 10)))),
            r is Ok <==> (chief_id < old(self).members@.len() && 2 <= max_crew <= 10),
            r matches Ok(id) ==> id == old(self).missions@.len() && final(self).missions@ == old(
                self,
            ).missions@.push(
                Mission {
                    name,
                    description,
                    category,
                    max_crew,
                    status: MissionStatus::Open,
                    chief_id,
                    deleted: false,
                    created_at: now,
                    updated_at: now,
                },
            ),
            final(self).members@ == old(self).members@,
            final(self).memberships@ == old(self).memberships@,
            final(self).achievements@ == old(self).achievements@,
            final(self).earned@ == old(self).earned@,
            final(self).messages@ == old(self).messages@,
            final(self).invites@ == old(self).invites@,
    {
        if chief_id >= self.members.len() {
            return Err(EngineError::NotFound);
        }
        if max_crew < 2 || max_crew > 10 {
            return Err(EngineError::ValidationError);
        }
        let id = self.missions.len();
        let stamp = now.clone();
        self.missions.push(
            Mission {
                name,
                description,
                category,
                max_crew,
                status: MissionStatus::Open,
                chief_id,
                deleted: false,
                created_at: now,
                updated_at: stamp,
            },
        );
        proof {
            assert forall|m2: usize| m2 < self.missions@.len() implies #[trigger] crew_size(
                self.memberships@,
                m2,
            ) <= self.missions@[m2 as int].max_crew by {
                if m2 == id {
                    lemma_crew_ids_absent(self.memberships@, m2);
                }
            }
        }
        Ok(id)
    }

    /// Reads one mission together with its crew count and whether `reader_id`
    /// is part of the crew. Soft-deleted missions are still readable.
    pub fn get_one(&self, mission_id: usize, reader_id: usize) -> (r: Result<
        MissionModel,
        EngineError,
    >)
        requires
            self.wf(),
        ensures
            r is Ok <==> mission_id < self.missions@.len(),
            r matches Err(e) ==> e == EngineError::NotFound,
            r matches Ok(m) ==> {
                let rec = self.missions@[mission_id as int];
                &&& m.id == mission_id
                &&& m.name == rec.name
                &&& m.description == rec.description
                &&& m.category == rec.category
                &&& m.max_crew == rec.max_crew
                &&& m.status == rec.status
                &&& m.chief_id == rec.chief_id
                &&& m.chief_display_name == self.members@[rec.chief_id as int].display_name
                &&& m.crew_count == crew_size(self.memberships@, mission_id)
                &&& m.is_member == has_pair(self.memberships@, mission_id, reader_id)
                &&& m.created_at == rec.created_at
                &&& m.updated_at == rec.updated_at
            },
    {
        if mission_id >= self.missions.len() {
            return Err(EngineError::NotFound);
        }
        let crew_count = self.crew_counting(mission_id);
        let is_member = self.is_member(mission_id, reader_id);
        let rec = &self.missions[mission_id];
        let chief_display_name = self.members[rec.chief_id].display_name.clone();
        Ok(
            MissionModel {
                id: mission_id,
                name: rec.name.clone(),
                description: crate::model::clone_opt_string(&rec.description),
                category: crate::model::clone_opt_string(&rec.category),
                max_crew: rec.max_crew,
                status: rec.status,
                chief_id: rec.chief_id,
                chief_display_name,
                crew_count,
                is_member,
                created_at: rec.created_at.clone(),
                updated_at: rec.updated_at.clone(),
            },
        )
    }

    /// Whether an edit by `chief_id` is accepted: the mission must exist,
    /// be owned by the caller, be undeleted and still `Open`; a new capacity
    /// must lie in `[2, 10]` and not fall below the current crew size.
    pub open spec fn edit_verdict(
        self,
        mission_id: usize,
        chief_id: usize,
        new_max_crew: Option<u32>,
    ) -> Result<(), EngineError> {
        if mission_id >= self.missions@.len() {
            Err(EngineError::NotFound)
        } else if self.missions@[mission_id as int].chief_id != chief_id || self.missions@[
            mission_id as int
        ].deleted || self.missions@[mission_id as int].status != MissionStatus::Open {
            Err(EngineError::NotFound)
        } else if new_max_crew matches Some(c) && !(2 <= c <= 10) {
            Err(EngineError::ValidationError)
        } else if new_max_crew matches Some(c) && c < crew_size(self.memberships@, mission_id) {
            Err(EngineError::ValidationError)
        } else {
            Ok(())
        }
    }

    /// Edits a mission's details. Only the chief may edit, only while the
    /// mission is `Open` and undeleted; `None` fields stay unchanged, and the
    /// capacity may not fall below the current crew size. Returns the
    /// mission's identity.
    pub fn edit_mission(
        &mut self,
        mission_id: usize,
        chief_id: usize,
        changes: EditMissionModel,
        now: String,
    ) -> (r: Result<usize, EngineError>)
        requires
            old(self).wf(),
        ensures
            final(self).wf(),
            r is Ok <==> old(self).edit_verdict(mission_id, chief_id, changes.max_crew) is Ok,
            r matches Err(e) ==> (*final(self) == *old(self) && Err::<(), EngineError>(e) == old(
                self,
            ).edit_verdict(mission_id, chief_id, changes.max_crew)),
            r matches Ok(id) ==> {
                let rec = old(self).missions@[mission_id as int];
                let updated = final(self).missions@[mission_id as int];
                &&& id == mission_id
                &&& final(self).missions@ == old(self).missions@.update(
                    mission_id as int,
                    updated,
                )
                &&& updated.name == (if changes.name is Some {
                    changes.name->0
                } else {
                    rec.name
                })
                &&& updated.description == (if changes.description is Some {
                    changes.description
                } else {
                    rec.description
                })
                &&& updated.category == (if changes.category is Some {
                    changes.category
                } else {
                    rec.category
                })
                &&& updated.max_crew == (if changes.max_crew is Some {
                    changes.max_crew->0
                } else {
                    rec.max_crew
                })
                &&& updated.status == rec.status
                &&& updated.chief_id == rec.chief_id
                &&& updated.deleted == rec.deleted
                &&& updated.created_at == rec.created_at
                &&& updated.updated_at == now
            },
            final(self).members@ == old(self).members@,
            final(self).memberships@ == old(self).memberships@,
            final(self).achievements@ == old(self).achievements@,
            final(self).earned@ == old(self).earned@,
            final(self).messages@ == old(self).messages@,
            final(self).invites@ == old(self).invites@,
    {
        if mission_id >= self.missions.len() {
            return Err(EngineError::NotFound);
        }
        if self.missions[mission_id].chief_id != chief_id || self.missions[mission_id].deleted {
            return Err(EngineError::NotFound);
        }
        if !matches!(self.missions[mission_id].status, MissionStatus::Open) {
            return Err(EngineError::NotFound);
        }
        if let Some(c) = changes.max_crew {
            if c < 2 || c > 10 {
                return Err(EngineError::ValidationError);
            }
            let count = self.crew_counting(mission_id);
            if (c as usize) < count {
                return Err(EngineError::ValidationError);
            }
        }
        if let Some(n) = changes.name {
            self.missions[mission_id].name = n;
        }
        if let Some(d) = changes.description {
            self.missions[mission_id].description = Some(d);
        }
        if let Some(cat) = changes.category {
            self.missions[mission_id].category = Some(cat);
        }
        if let Some(c) = changes.max_crew {
            self.missions[mission_id].max_crew = c;
        }
        self.missions[mission_id].updated_at = now;
        proof {
            assert(self.missions@ =~= old(self).missions@.update(
                mission_id as int,
                self.missions@[mission_id as int],
            ));
            assert forall|i: int| 0 <= i < self.missions@.len() implies (2
                <= #[trigger] self.missions@[i].max_crew <= 10 && self.missions@[i].chief_id
                < self.members@.len()) by {
                if i != mission_id {
                    assert(self.missions@[i] == old(self).missions@[i]);
                    assert(2 <= old(self).missions@[i].max_crew <= 10);
                    assert(old(self).missions@[i].chief_id < old(self).members@.len());
                }
            }
            assert(self.missions_ok());
        }
        Ok(mission_id)
    }

    /// Soft-deletes a mission: only the chief, only while `Open` and not
    /// already deleted. A miss (wrong chief, wrong status, unknown id) leaves
    /// the store unchanged; like the underlying delete, it is not an error.
    pub fn soft_delete(&mut self, mission_id: usize, chief_id: usize, now: String)
        requires
            old(self).wf(),
        ensures
            final(self).wf(),
            ({
                let applies = mission_id < old(self).missions@.len() && old(self).missions@[
                    mission_id as int
                ].chief_id == chief_id && !old(self).missions@[mission_id as int].deleted && old(
                    self,
                ).missions@[mission_id as int].status == MissionStatus::Open;
                if applies {
                    final(self).missions@ == old(self).missions@.update(
                        mission_id as int,
                        Mission {
                            deleted: true,
                            updated_at: now,
                            ..old(self).missions@[mission_id as int]
                        },
                    )
                } else {
                    *final(self) == *old(self)
                }
            }),
            final(self).members@ == old(self).members@,
            final(self).memberships@ == old(self).memberships@,
            final(self).achievements@ == old(self).achievements@,
            final(self).earned@ == old(self).earned@,
            final(self).messages@ == old(self).messages@,
            final(self).invites@ == old(self).invites@,
    {
        if mission_id >= self.missions.len() {
            return ;
        }
        if self.missions[mission_id].chief_id != chief_id || self.missions[mission_id].deleted {
            return ;
        }
        if !matches!(self.missions[mission_id].status, MissionStatus::Open) {
            return ;
        }
        self.missions[mission_id].deleted = true;
        self.missions[mission_id].updated_at = now;
        proof {
            assert(self.missions@ =~= old(self).missions@.update(
                mission_id as int,
                Mission {
                    deleted: true,
                    updated_at: now,
                    ..old(self).missions@[mission_id as int]
                },
            ));
        }
    }

    /// Writes a mission's status; the lifecycle controller guards which
    /// transitions are allowed before calling this.
    pub(crate) fn set_status(&mut self, mission_id: usize, status: MissionStatus, now: String)
        requires
            old(self).wf(),
            mission_id < old(self).missions@.len(),
        ensures
            final(self).wf(),
            final(self).missions@ == old(self).missions@.update(
                mission_id as int,
                Mission { status, updated_at: now, ..old(self).missions@[mission_id as int] },
            ),
            final(self).members@ == old(self).members@,
            final(self).memberships@ == old(self).memberships@,
            final(self).achievements@ == old(self).achievements@,
            final(self).earned@ == old(self).earned@,
            final(self).messages@ == old(self).messages@,
            final(self).invites@ == old(self).invites@,
    {
        self.missions[mission_id].status = status;
        self.missions[mission_id].updated_at = now;
        proof {
            assert(self.missions@ =~= old(self).missions@.update(
                mission_id as int,
                Mission { status, updated_at: now, ..old(self).missions@[mission_id as int] },
            ));
        }
    }

    /// Bumps a member's success counter; counters only ever increase.
    pub(crate) fn bump_success_counter(&mut self, member_id: usize)
        requires
            old(self).wf(),
            member_id < old(self).members@.len(),
        ensures
            final(self).wf(),
            final(self).members@ == old(self).members@.update(
                member_id as int,
                Member {
                    mission_success_count: bump_counter(
                        old(self).members@[member_id as int].mission_success_count,
                    ),
                    ..old(self).members@[member_id as int]
                },
            ),
            final(self).missions@ == old(self).missions@,
            final(self).memberships@ == old(self).memberships@,
            final(self).achievements@ == old(self).achievements@,
            final(self).earned@ == old(self).earned@,
            final(self).messages@ == old(self).messages@,
            final(self).invites@ == old(self).invites@,
    {
        let current = self.members[member_id].mission_success_count;
        let bumped = if current < u32::MAX {
            current + 1
        } else {
            current
        };
        self.members[member_id].mission_success_count = bumped;
    }

    /// Reads one member's profile record, if it exists.
    pub fn find_member(&self, member_id: usize) -> (r: Option<Member>)
        ensures
            r is Some <==> member_id < self.members@.len(),
            r matches Some(m) ==> m == self.members@[member_id as int],
    {
        if member_id >= self.members.len() {
            return None;
        }
        Some(self.members[member_id].clone())
    }
}

/// The page size of a message listing.
pub const MESSAGE_PAGE_SIZE: usize = 100;

/// The indexes (identities), in ascending order, of the messages that belong
/// to `mission_id`.
pub open spec fn message_ids(s: Seq<MissionMessage>, mission_id: usize) -> Seq<usize>
    decreases s.len(),
{
    if s.len() == 0 {
        Seq::empty()
    } else if s.last().mission_id == mission_id {
        message_ids(s.drop_last(), mission_id).push((s.len() - 1) as usize)
    } else {
        message_ids(s.drop_last(), mission_id)
    }
}

/// One step of a prefix scan over the message log.
pub proof fn lemma_message_ids_take_step(s: Seq<MissionMessage>, i: int, mission_id: usize)
    requires
        0 <= i < s.len(),
    ensures
        message_ids(s.take(i + 1), mission_id) == if s[i].mission_id == mission_id {
            message_ids(s.take(i), mission_id).push(i as usize)
        } else {
            message_ids(s.take(i), mission_id)
        },
{
    assert(s.take(i + 1).drop_last() =~= s.take(i));
    assert(s.take(i + 1).last() == s[i]);
}

/// The indexes (identities), in ascending order, of the pending invites
/// addressed to `user_id`.
pub open spec fn pending_ids_for(s: Seq<MissionInvite>, user_id: usize) -> Seq<usize>
    decreases s.len(),
{
    if s.len() == 0 {
        Seq::empty()
    } else if s.last().user_id == user_id && s.last().status is Pending {
        pending_ids_for(s.drop_last(), user_id).push((s.len() - 1) as usize)
    } else {
        pending_ids_for(s.drop_last(), user_id)
    }
}

/// One step of a prefix scan over the invite table.
pub proof fn lemma_pending_ids_take_step(s: Seq<MissionInvite>, i: int, user_id: usize)
    requires
        0 <= i < s.len(),
    ensures
        pending_ids_for(s.take(i + 1), user_id) == if s[i].user_id == user_id
            && s[i].status is Pending {
            pending_ids_for(s.take(i), user_id).push(i as usize)
        } else {
            pending_ids_for(s.take(i), user_id)
        },
{
    assert(s.take(i + 1).drop_last() =~= s.take(i));
    assert(s.take(i + 1).last() == s[i]);
}

impl MembershipStore {
    /// One message as listed to a client, with the author's profile joined in.
    pub open spec fn message_view_at(self, id: usize) -> MissionMessageView {
        let msg = self.messages@[id as int];
        MissionMessageView {
            id,
            mission_id: msg.mission_id,
            user_id: msg.user_id,
            user_display_name: match msg.user_id {
                Some(u) => Some(self.members@[u as int].display_name),
                None => None,
            },
            user_avatar_url: match msg.user_id {
                Some(u) => self.members@[u as int].avatar_url,
                None => None,
            },
            content: msg.content,
            kind: msg.kind,
            created_at: msg.created_at,
        }
    }

    /// Appends a message to the log and returns its identity. The log is
    /// append-only, so identities ascend in creation order.
    pub fn append_message(&mut self, entity: NewMissionMessageEntity, now: String) -> (r: Result<
        usize,
        EngineError,
    >)
        requires
            old(self).wf(),
        ensures
            final(self).wf(),
            r is Ok <==> (entity.mission_id < old(self).missions@.len() && (entity.user_id
                matches Some(u) ==> u < old(self).members@.len())),
            r matches Err(e) ==> (e == EngineError::NotFound && *final(self) == *old(self)),
            r matches Ok(id) ==> id == old(self).messages@.len() && final(self).messages@ == old(
                self,
            ).messages@.push(
                MissionMessage {
                    mission_id: entity.mission_id,
                    user_id: entity.user_id,
                    content: entity.content,
                    kind: entity.kind,
                    created_at: now,
                },
            ),
            final(self).missions@ == old(self).missions@,
            final(self).members@ == old(self).members@,
            final(self).memberships@ == old(self).memberships@,
            final(self).achievements@ == old(self).achievements@,
            final(self).earned@ == old(self).earned@,
            final(self).invites@ == old(self).invites@,
    {
        if entity.mission_id >= self.missions.len() {
            return Err(EngineError::NotFound);
        }
        if let Some(u) = entity.user_id {
            if u >= self.members.len() {
                return Err(EngineError::NotFound);
            }
        }
        let id = self.messages.len();
        self.messages.push(
            MissionMessage {
                mission_id: entity.mission_id,
                user_id: entity.user_id,
                content: entity.content,
                kind: entity.kind,
                created_at: now,
            },
        );
        Ok(id)
    }

    /// Lists a mission's messages in creation order (ascending identity),
    /// capped at [`MESSAGE_PAGE_SIZE`].
    #[verifier::loop_isolation(false)]
    pub fn get_by_mission_id(&self, mission_id: usize) -> (r: Vec<MissionMessageView>)
        requires
            self.wf(),
        ensures
            ({
                let ids = message_ids(self.messages@, mission_id);
                &&& r@.len() == (if ids.len() <= MESSAGE_PAGE_SIZE {
                    ids.len()
                } else {
                    MESSAGE_PAGE_SIZE as nat
                })
                &&& forall|k: int|
                    0 <= k < r@.len() ==> #[trigger] r@[k] == self.message_view_at(ids[k])
            }),
    {
        let n = self.messages.len();
        let mut out: Vec<MissionMessageView> = Vec::new();
        let mut i: usize = 0;
        while i < n
            invariant
                i <= n,
                ({
                    let ids = message_ids(self.messages@.take(i as int), mission_id);
                    &&& out@.len() == (if ids.len() <= MESSAGE_PAGE_SIZE {
                        ids.len()
                    } else {
                        MESSAGE_PAGE_SIZE as nat
                    })
                    &&& forall|k: int|
                        0 <= k < out@.len() ==> #[trigger] out@[k] == self.message_view_at(ids[k])
                }),
            decreases n - i,
        {
            proof {
                lemma_message_ids_take_step(self.messages@, i as int, mission_id);
            }
            if self.messages[i].mission_id == mission_id && out.len() < MESSAGE_PAGE_SIZE {
                let msg = &self.messages[i];
                let user_display_name = match msg.user_id {
                    Some(u) => Some(self.members[u].display_name.clone()),
                    None => None,
                };
                let user_avatar_url = match msg.user_id {
                    Some(u) => crate::model::clone_opt_string(&self.members[u].avatar_url),
                    None => None,
                };
                out.push(
                    MissionMessageView {
                        id: i,
                        mission_id: msg.mission_id,
                        user_id: msg.user_id,
                        user_display_name,
                        user_avatar_url,
                        content: msg.content.clone(),
                        kind: msg.kind,
                        created_at: msg.created_at.clone(),
                    },
                );
            }
            i = i + 1;
        }
        proof {
            assert(self.messages@.take(n as int) =~= self.messages@);
        }
        out
    }

    /// Creates an invitation and returns its identity. The store refuses a
    /// second pending invite for the same (mission, member).
    pub fn create_invite(&mut self, invite: NewMissionInvite, now: String) -> (r: Result<
        usize,
        EngineError,
    >)
        requires
            old(self).wf(),
        ensures
            final(self).wf(),
            r is Ok <==> (invite.mission_id < old(self).missions@.len() && invite.user_id < old(
                self,
            ).members@.len() && !(invite.status is Pending && pending_invite(
                old(self).invites@,
                invite.mission_id,
                invite.user_id,
            ))),
            r matches Err(e) ==> *final(self) == *old(self) && ((e == EngineError::NotFound
                && (invite.mission_id >= old(self).missions@.len() || invite.user_id >= old(
                self,
            ).members@.len())) || (e == EngineError::AlreadyInvited && invite.mission_id < old(
                self,
            ).missions@.len() && invite.user_id < old(self).members@.len())),
            r matches Ok(id) ==> id == old(self).invites@.len() && final(self).invites@ == old(
                self,
            ).invites@.push(
                MissionInvite {
                    mission_id: invite.mission_id,
                    user_id: invite.user_id,
                    status: invite.status,
                    created_at: now,
                },
            ),
            final(self).missions@ == old(self).missions@,
            final(self).members@ == old(self).members@,
            final(self).memberships@ == old(self).memberships@,
            final(self).achievements@ == old(self).achievements@,
            final(self).earned@ == old(self).earned@,
            final(self).messages@ == old(self).messages@,
    {
        if invite.mission_id >= self.missions.len() || invite.user_id >= self.members.len() {
            return Err(EngineError::NotFound);
        }
        if matches!(invite.status, InviteStatus::Pending) && self.check_exists(
            invite.mission_id,
            invite.user_id,
        ) {
            return Err(EngineError::AlreadyInvited);
        }
        let id = self.invites.len();
        self.invites.push(
            MissionInvite {
                mission_id: invite.mission_id,
                user_id: invite.user_id,
                status: invite.status,
                created_at: now,
            },
        );
        Ok(id)
    }

    /// Reads one invitation, if it exists.
    pub fn find_invite(&self, invite_id: usize) -> (r: Option<MissionInvite>)
        ensures
            r is Some <==> invite_id < self.invites@.len(),
            r matches Some(inv) ==> inv == self.invites@[invite_id as int],
    {
        if invite_id >= self.invites.len() {
            return None;
        }
        Some(self.invites[invite_id].clone())
    }

    /// Writes an invitation's status. Only the non-pending states can be
    /// written, so a pending invite can never be duplicated.
    pub fn update_invite_status(&mut self, invite_id: usize, status: InviteStatus) -> (r: Result<
        (),
        EngineError,
    >)
        requires
            old(self).wf(),
        ensures
            final(self).wf(),
            r is Ok <==> (invite_id < old(self).invites@.len() && !(status is Pending)),
            r matches Err(e) ==> *final(self) == *old(self) && ((e == EngineError::NotFound
                && invite_id >= old(self).invites@.len()) || (e == EngineError::ValidationError
                && invite_id < old(self).invites@.len() && status is Pending)),
            r is Ok ==> final(self).invites@ == old(self).invites@.update(
                invite_id as int,
                MissionInvite { status, ..old(self).invites@[invite_id as int] },
            ),
            final(self).missions@ == old(self).missions@,
            final(self).members@ == old(self).members@,
            final(self).memberships@ == old(self).memberships@,
            final(self).achievements@ == old(self).achievements@,
            final(self).earned@ == old(self).earned@,
            final(self).messages@ == old(self).messages@,
    {
        if invite_id >= self.invites.len() {
            return Err(EngineError::NotFound);
        }
        if matches!(status, InviteStatus::Pending) {
            return Err(EngineError::ValidationError);
        }
        self.invites[invite_id].status = status;
        proof {
            assert(self.invites@ =~= old(self).invites@.update(
                invite_id as int,
                MissionInvite { status, ..old(self).invites@[invite_id as int] },
            ));
        }
        Ok(())
    }

    /// Whether (mission, member) already has a pending invite.
    pub fn check_exists(&self, mission_id: usize, user_id: usize) -> (r: bool)
        ensures
            r == pending_invite(self.invites@, mission_id, user_id),
    {
        let n = self.invites.len();
        let mut i: usize = 0;
        while i < n
            invariant
                i <= n,
                n == self.invites@.len(),
                forall|j: int|
                    0 <= j < i ==> !((#[trigger] self.invites@[j]).mission_id == mission_id
                        && self.invites@[j].user_id == user_id && self.invites@[j].status
                        is Pending),
            decreases n - i,
        {
            if self.invites[i].mission_id == mission_id && self.invites[i].user_id == user_id
                && matches!(self.invites[i].status, InviteStatus::Pending) {
                return true;
            }
            i = i + 1;
        }
        false
    }

    /// Lists the pending invites addressed to `user_id`, each with the
    /// mission's and chief's names joined in.
    #[verifier::loop_isolation(false)]
    pub fn find_invites_details_by_user(&self, user_id: usize) -> (r: Vec<MissionInviteDetails>)
        requires
            self.wf(),
        ensures
            ({
                let ids = pending_ids_for(self.invites@, user_id);
                &&& r@.len() == ids.len()
                &&& forall|k: int|
                    0 <= k < r@.len() ==> {
                        let inv = self.invites@[ids[k] as int];
                        let mission = self.missions@[inv.mission_id as int];
                        (#[trigger] r@[k]).id == ids[k] && r@[k].mission_id == inv.mission_id
                            && r@[k].mission_name == mission.name && r@[k].chief_name
                            == self.members@[mission.chief_id as int].display_name && r@[k].status
                            is Pending
                    }
            }),
    {
        let n = self.invites.len();
        let mut out: Vec<MissionInviteDetails> = Vec::new();
        let mut i: usize = 0;
        while i < n
            invariant
                i <= n,
                ({
                    let ids = pending_ids_for(self.invites@.take(i as int), user_id);
                    &&& out@.len() == ids.len()
                    &&& forall|k: int|
                        0 <= k < out@.len() ==> {
                            let inv = self.invites@[ids[k] as int];
                            let mission = self.missions@[inv.mission_id as int];
                            (#[trigger] out@[k]).id == ids[k] && out@[k].mission_id
                                == inv.mission_id && out@[k].mission_name == mission.name
                                && out@[k].chief_name == self.members@[
                                mission.chief_id as int
                            ].display_name && out@[k].status is Pending
                        }
                }),
            decreases n - i,
        {
            proof {
                lemma_pending_ids_take_step(self.invites@, i as int, user_id);
            }
            if self.invites[i].user_id == user_id && matches!(
                self.invites[i].status,
                InviteStatus::Pending,
            ) {
                let mission_id = self.invites[i].mission_id;
                let mission_name = self.missions[mission_id].name.clone();
                let chief_name = self.members[self.missions[mission_id].chief_id]
                    .display_name
                    .clone();
                out.push(
                    MissionInviteDetails {
                        id: i,
                        mission_id,
                        mission_name,
                        chief_name,
                        status: InviteStatus::Pending,
                    },
                );
            }
            i = i + 1;
        }
        proof {
            assert(self.invites@.take(n as int) =~= self.invites@);
        }
        out
    }

    /// The idempotent award insert: records (member, achievement) unless the
    /// pair is already recorded, and reports whether a row was inserted. This
    /// is the sole concurrency guard for awarding.
    #[verifier::loop_isolation(false)]
    pub fn award_achievement(
        &mut self,
        member_id: usize,
        achievement_id: usize,
        now: String,
    ) -> (r: Result<bool, EngineError>)
        requires
            old(self).wf(),
        ensures
            final(self).wf(),
            r is Ok <==> (member_id < old(self).members@.len() && achievement_id < old(
                self,
            ).achievements@.len()),
            r matches Err(e) ==> (e == EngineError::NotFound && *final(self) == *old(self)),
            r matches Ok(inserted) ==> inserted == !earned_has(
                old(self).earned@,
                member_id,
                achievement_id,
            ),
            r == Ok::<bool, EngineError>(true) ==> final(self).earned@ == old(self).earned@.push(
                MemberAchievement { member_id, achievement_id, earned_at: now },
            ),
            r == Ok::<bool, EngineError>(false) ==> *final(self) == *old(self),
            final(self).missions@ == old(self).missions@,
            final(self).members@ == old(self).members@,
            final(self).memberships@ == old(self).memberships@,
            final(self).achievements@ == old(self).achievements@,
            final(self).messages@ == old(self).messages@,
            final(self).invites@ == old(self).invites@,
    {
        if member_id >= self.members.len() || achievement_id >= self.achievements.len() {
            return Err(EngineError::NotFound);
        }
        let n = self.earned.len();
        let mut i: usize = 0;
        while i < n
            invariant
                i <= n,
                *self == *old(self),
                n == self.earned@.len(),
                forall|j: int|
                    0 <= j < i ==> !((#[trigger] self.earned@[j]).member_id == member_id
                        && self.earned@[j].achievement_id == achievement_id),
            decreases n - i,
        {
            if self.earned[i].member_id == member_id && self.earned[i].achievement_id
                == achievement_id {
                return Ok(false);
            }
            i = i + 1;
        }
        self.earned.push(MemberAchievement { member_id, achievement_id, earned_at: now });
        Ok(true)
    }
}

/// How many non-deleted missions `member_id` created (is chief of).
pub open spec fn count_created(s: Seq<Mission>, member_id: usize) -> nat
    decreases s.len(),
{
    if s.len() == 0 {
        0
    } else {
        count_created(s.drop_last(), member_id) + if s.last().chief_id == member_id
            && !s.last().deleted {
            1nat
        } else {
            0nat
        }
    }
}

/// How many missions with the given status `member_id` is chief of.
pub open spec fn count_chief_status(s: Seq<Mission>, member_id: usize, status: MissionStatus) -> nat
    decreases s.len(),
{
    if s.len() == 0 {
        0
    } else {
        count_chief_status(s.drop_last(), member_id, status) + if s.last().chief_id == member_id
            && s.last().status == status {
            1nat
        } else {
            0nat
        }
    }
}

/// How many crew memberships `member_id` holds.
pub open spec fn count_joined(s: Seq<CrewMembership>, member_id: usize) -> nat
    decreases s.len(),
{
    if s.len() == 0 {
        0
    } else {
        count_joined(s.drop_last(), member_id) + if s.last().member_id == member_id {
            1nat
        } else {
            0nat
        }
    }
}

/// How many of `member_id`'s crew memberships belong to a mission with the
/// given status.
pub open spec fn count_crew_status(
    s: Seq<CrewMembership>,
    missions: Seq<Mission>,
    member_id: usize,
    status: MissionStatus,
) -> nat
    decreases s.len(),
{
    if s.len() == 0 {
        0
    } else {
        count_crew_status(s.drop_last(), missions, member_id, status) + if s.last().member_id
            == member_id && missions[s.last().mission_id as int].status == status {
            1nat
        } else {
            0nat
        }
    }
}

/// An integer sum pinned at `usize::MAX`.
pub open spec fn clamp_to_usize(x: int) -> int {
    if x <= usize::MAX {
        x
    } else {
        usize::MAX as int
    }
}

/// A usize addition that pins at `usize::MAX` instead of overflowing.
pub fn add_capped(a: usize, b: usize) -> (r: usize)
    ensures
        r == clamp_to_usize(a + b),
{
    if a <= usize::MAX - b {
        a + b
    } else {
        usize::MAX
    }
}

impl MembershipStore {
    /// Per-member mission statistics: created, joined, and how many missions
    /// the member took part in (as chief or crew) that completed or failed.
    #[verifier::loop_isolation(false)]
    pub fn get_mission_summary(&self, member_id: usize) -> (r: MissionSummaryModel)
        requires
            self.wf(),
        ensures
            r.created_count == count_created(self.missions@, member_id),
            r.joined_count == count_joined(self.memberships@, member_id),
            r.completed_count == clamp_to_usize(
                count_chief_status(self.missions@, member_id, MissionStatus::Completed) as int
                    + count_crew_status(
                    self.memberships@,
                    self.missions@,
                    member_id,
                    MissionStatus::Completed,
                ) as int,
            ),
            r.failed_count == clamp_to_usize(
                count_chief_status(self.missions@, member_id, MissionStatus::Failed) as int
                    + count_crew_status(
                    self.memberships@,
                    self.missions@,
                    member_id,
                    MissionStatus::Failed,
                ) as int,
            ),
    {
        let n = self.missions.len();
        let mut created: usize = 0;
        let mut chief_completed: usize = 0;
        let mut chief_failed: usize = 0;
        let mut i: usize = 0;
        while i < n
            invariant
                i <= n,
                created == count_created(self.missions@.take(i as int), member_id),
                chief_completed == count_chief_status(
                    self.missions@.take(i as int),
                    member_id,
                    MissionStatus::Completed,
                ),
                chief_failed == count_chief_status(
                    self.missions@.take(i as int),
                    member_id,
                    MissionStatus::Failed,
                ),
                created <= i,
                chief_completed <= i,
                chief_failed <= i,
            decreases n - i,
        {
            proof {
                assert(self.missions@.take(i + 1).drop_last() =~= self.missions@.take(i as int));
                assert(self.missions@.take(i + 1).last() == self.missions@[i as int]);
            }
            if self.missions[i].chief_id == member_id {
                if !self.missions[i].deleted {
                    created = created + 1;
                }
                if matches!(self.missions[i].status, MissionStatus::Completed) {
                    chief_completed = chief_completed + 1;
                }
                if matches!(self.missions[i].status, MissionStatus::Failed) {
                    chief_failed = chief_failed + 1;
                }
            }
            i = i + 1;
        }
        let m = self.memberships.len();
        let mut joined: usize = 0;
        let mut crew_completed: usize = 0;
        let mut crew_failed: usize = 0;
        let mut j: usize = 0;
        while j < m
            invariant
                j <= m,
                joined == count_joined(self.memberships@.take(j as int), member_id),
                crew_completed == count_crew_status(
                    self.memberships@.take(j as int),
                    self.missions@,
                    member_id,
                    MissionStatus::Completed,
                ),
                crew_failed == count_crew_status(
                    self.memberships@.take(j as int),
                    self.missions@,
                    member_id,
                    MissionStatus::Failed,
                ),
                joined <= j,
                crew_completed <= j,
                crew_failed <= j,
            decreases m - j,
        {
            proof {
                assert(self.memberships@.take(j + 1).drop_last() =~= self.memberships@.take(
                    j as int,
                ));
                assert(self.memberships@.take(j + 1).last() == self.memberships@[j as int]);
            }
            if self.memberships[j].member_id == member_id {
                joined = joined + 1;
                let mission_id = self.memberships[j].mission_id;
                if matches!(self.missions[mission_id].status, MissionStatus::Completed) {
                    crew_completed = crew_completed + 1;
                }
                if matches!(self.missions[mission_id].status, MissionStatus::Failed) {
                    crew_failed = crew_failed + 1;
                }
            }
            j = j + 1;
        }
        proof {
            assert(self.missions@.take(n as int) =~= self.missions@);
            assert(self.memberships@.take(m as int) =~= self.memberships@);
        }
        MissionSummaryModel {
            created_count: created,
            joined_count: joined,
            completed_count: add_capped(chief_completed, crew_completed),
            failed_count: add_capped(chief_failed, crew_failed),
        }
    }
}

/// In every well-formed store, no mission's crew ever exceeds the
/// mission's capacity: the store's atomic insert is the final arbiter, so
/// the bound holds whatever order join attempts arrive in.
pub proof fn lemma_crew_never_exceeds_capacity(store: MembershipStore, mission_id: usize)
    requires
        store.wf(),
        mission_id < store.missions@.len(),
    ensures
        crew_size(store.memberships@, mission_id) <= store.missions@[mission_id as int].max_crew,
{
}

/// In every well-formed store, a mission's chief holds no crew membership
/// row: a chief can never appear as crew, regardless of mission status.
pub proof fn lemma_chief_never_crew(store: MembershipStore, mission_id: usize)
    requires
        store.wf(),
        mission_id < store.missions@.len(),
    ensures
        !has_pair(
            store.memberships@,
            mission_id,
            store.missions@[mission_id as int].chief_id,
        ),
{
    let chief = store.missions@[mission_id as int].chief_id;
    if has_pair(store.memberships@, mission_id, chief) {
        let w = choose|w: int|
            0 <= w < store.memberships@.len() && store.memberships@[w].mission_id == mission_id
                && store.memberships@[w].member_id == chief;
        assert(store.missions@[store.memberships@[w].mission_id as int].chief_id
            != store.memberships@[w].member_id);
    }
}

/// A member is in the crew listing exactly when they hold a membership row.
pub proof fn lemma_crew_ids_contains(s: Seq<CrewMembership>, mission_id: usize, member_id: usize)
    ensures
        crew_ids(s, mission_id).contains(member_id) <==> has_pair(s, mission_id, member_id),
    decreases s.len(),
{
    let ids = crew_ids(s, mission_id);
    if s.len() > 0 {
        lemma_crew_ids_contains(s.drop_last(), mission_id, member_id);
        let rest = crew_ids(s.drop_last(), mission_id);
        if has_pair(s, mission_id, member_id) {
            let w = choose|w: int|
                0 <= w < s.len() && s[w].mission_id == mission_id && s[w].member_id == member_id;
            if w < s.len() - 1 {
                assert(s.drop_last()[w] == s[w]);
                assert(has_pair(s.drop_last(), mission_id, member_id));
                let k = choose|k: int| 0 <= k < rest.len() && rest[k] == member_id;
                assert(ids[k] == member_id);
            } else {
                if s.last().mission_id == mission_id {
                    assert(ids.last() == member_id);
                }
            }
        }
        if ids.contains(member_id) {
            let k = choose|k: int| 0 <= k < ids.len() && ids[k] == member_id;
            if s.last().mission_id == mission_id && k == ids.len() - 1 {
                assert(s[s.len() - 1].mission_id == mission_id && s[s.len() - 1].member_id
                    == member_id);
            } else {
                assert(rest[k] == member_id);
                let w = choose|w: int|
                    0 <= w < s.drop_last().len() && s.drop_last()[w].mission_id == mission_id
                        && s.drop_last()[w].member_id == member_id;
                assert(s[w] == s.drop_last()[w]);
            }
        }
    }
}

/// With unique membership rows, the crew listing names no member twice.
pub proof fn lemma_crew_ids_distinct(s: Seq<CrewMembership>, mission_id: usize)
    requires
        pairs_unique(s),
    ensures
        forall|i: int, j: int|
            0 <= i < j < crew_ids(s, mission_id).len() ==> #[trigger] crew_ids(s, mission_id)[i]
                != #[trigger] crew_ids(s, mission_id)[j],
    decreases s.len(),
{
    if s.len() > 0 {
        assert forall|i: int, j: int|
            0 <= i < j < s.drop_last().len() implies !(#[trigger] s.drop_last()[i].mission_id == (
        #[trigger] s.drop_last()[j]).mission_id && s.drop_last()[i].member_id
            == s.drop_last()[j].member_id) by {
            assert(s.drop_last()[i] == s[i]);
            assert(s.drop_last()[j] == s[j]);
        }
        lemma_crew_ids_distinct(s.drop_last(), mission_id);
        let ids = crew_ids(s, mission_id);
        let rest = crew_ids(s.drop_last(), mission_id);
        if s.last().mission_id == mission_id {
            assert(!rest.contains(s.last().member_id)) by {
                lemma_crew_ids_contains(s.drop_last(), mission_id, s.last().member_id);
                if has_pair(s.drop_last(), mission_id, s.last().member_id) {
                    let w = choose|w: int|
                        0 <= w < s.drop_last().len() && s.drop_last()[w].mission_id == mission_id
                            && s.drop_last()[w].member_id == s.last().member_id;
                    assert(s[w] == s.drop_last()[w]);
                    assert(s[w].mission_id == s[s.len() - 1].mission_id && s[w].member_id == s[
                        s.len() - 1
                    ].member_id);
                }
            }
            assert forall|i: int, j: int|
                0 <= i < j < ids.len() implies #[trigger] ids[i] != #[trigger] ids[j] by {
                if j == ids.len() - 1 {
                    assert(ids[i] == rest[i]);
                    if ids[i] == s.last().member_id {
                        assert(rest.contains(s.last().member_id));
                    }
                } else {
                    assert(ids[i] == rest[i] && ids[j] == rest[j]);
                }
            }
        }
    }
}

/// A mission nobody's membership row names has an empty crew.
pub proof fn lemma_crew_ids_absent(s: Seq<CrewMembership>, mission_id: usize)
    requires
        forall|i: int| 0 <= i < s.len() ==> (#[trigger] s[i]).mission_id != mission_id,
    ensures
        crew_ids(s, mission_id) == Seq::<usize>::empty(),
    decreases s.len(),
{
    if s.len() > 0 {
        lemma_crew_ids_absent(s.drop_last(), mission_id);
    }
}

/// How the indexes of a sequence shift when one element is removed.
pub proof fn lemma_remove_index_map<A>(s: Seq<A>, k: int)
    requires
        0 <= k < s.len(),
    ensures
        s.remove(k).len() == s.len() - 1,
        forall|i: int| 0 <= i < k ==> #[trigger] s.remove(k)[i] == s[i],
        forall|i: int| k <= i < s.len() - 1 ==> #[trigger] s.remove(k)[i] == s[i + 1],
{
}

/// One step of a prefix scan over the membership table: extending the prefix
/// by one row extends the crew exactly when the row names the mission.
pub proof fn lemma_crew_ids_take_step(s: Seq<CrewMembership>, i: int, mission_id: usize)
    requires
        0 <= i < s.len(),
    ensures
        crew_ids(s.take(i + 1), mission_id) == if s[i].mission_id == mission_id {
            crew_ids(s.take(i), mission_id).push(s[i].member_id)
        } else {
            crew_ids(s.take(i), mission_id)
        },
{
    assert(s.take(i + 1).drop_last() =~= s.take(i));
    assert(s.take(i + 1).last() == s[i]);
}

/// Appending a membership row extends exactly the crew of its mission.
pub proof fn lemma_crew_ids_push(s: Seq<CrewMembership>, m: CrewMembership, mission_id: usize)
    ensures
        crew_ids(s.push(m), mission_id) == if m.mission_id == mission_id {
            crew_ids(s, mission_id).push(m.member_id)
        } else {
            crew_ids(s, mission_id)
        },
{
    assert(s.push(m).drop_last() =~= s);
    assert(s.push(m).last() == m);
}

/// Removing one membership row shrinks exactly the crew of its mission.
pub proof fn lemma_crew_size_remove(s: Seq<CrewMembership>, k: int, mission_id: usize)
    requires
        0 <= k < s.len(),
    ensures
        crew_size(s.remove(k), mission_id) + (if s[k].mission_id == mission_id {
            1nat
        } else {
            0nat
        }) == crew_size(s, mission_id),
    decreases s.len(),
{
    if k == s.len() - 1 {
        assert(s.remove(k) =~= s.drop_last());
    } else {
        assert(s.remove(k).drop_last() =~= s.drop_last().remove(k));
        assert(s.remove(k).last() == s.last());
        lemma_crew_size_remove(s.drop_last(), k, mission_id);
    }
}

} // verus!
