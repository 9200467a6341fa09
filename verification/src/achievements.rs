//! The achievement evaluator: a stateless rule check over the store.
//!
//! Given a condition type and a member's current counter value, the
//! evaluator finds every achievement of that condition whose threshold the
//! counter has reached, awards each one through the store's idempotent
//! insert, and reports the names of the achievements that were actually
//! newly awarded — so callers announce only new unlocks, never duplicates.

use vstd::prelude::*;

use crate::errors::EngineError;
use crate::model::{Achievement, AchievementViewModel, ConditionType, MemberAchievement};
use crate::store::{earned_has, MembershipStore};

verus! {

/// Whether an achievement's rule is met by a counter value.
pub open spec fn qualifies(a: Achievement, condition: ConditionType, value: u32) -> bool {
    a.condition_type == condition && a.condition_value <= value
}

/// The achievement identities an award pass newly awards, in ascending
/// order: those whose rule is met and which the member has not earned yet.
pub open spec fn award_indexes(
    achievements: Seq<Achievement>,
    earned: Seq<MemberAchievement>,
    member_id: usize,
    condition: ConditionType,
    value: u32,
) -> Seq<usize>
    decreases achievements.len(),
{
    if achievements.len() == 0 {
        Seq::empty()
    } else {
        let rest = award_indexes(achievements.drop_last(), earned, member_id, condition, value);
        let last_id = (achievements.len() - 1) as usize;
        if qualifies(achievements.last(), condition, value) && !earned_has(
            earned,
            member_id,
            last_id,
        ) {
            rest.push(last_id)
        } else {
            rest
        }
    }
}

/// One step of a prefix scan over the achievement table.
pub proof fn lemma_award_indexes_take_step(
    achievements: Seq<Achievement>,
    earned: Seq<MemberAchievement>,
    member_id: usize,
    condition: ConditionType,
    value: u32,
    i: int,
)
    requires
        0 <= i < achievements.len(),
    ensures
        award_indexes(achievements.take(i + 1), earned, member_id, condition, value) == if
            qualifies(achievements[i], condition, value) && !earned_has(
            earned,
            member_id,
            i as usize,
        ) {
            award_indexes(achievements.take(i), earned, member_id, condition, value).push(
                i as usize,
            )
        } else {
            award_indexes(achievements.take(i), earned, member_id, condition, value)
        },
{
    assert(achievements.take(i + 1).drop_last() =~= achievements.take(i));
    assert(achievements.take(i + 1).last() == achievements[i]);
}

/// Every identity an award pass picks lies inside the achievement table.
pub proof fn lemma_award_indexes_bounds(
    achievements: Seq<Achievement>,
    earned: Seq<MemberAchievement>,
    member_id: usize,
    condition: ConditionType,
    value: u32,
)
    ensures
        forall|k: int|
            0 <= k < award_indexes(achievements, earned, member_id, condition, value).len()
                ==> #[trigger] award_indexes(achievements, earned, member_id, condition, value)[k]
                < achievements.len(),
    decreases achievements.len(),
{
    if achievements.len() > 0 {
        lemma_award_indexes_bounds(achievements.drop_last(), earned, member_id, condition, value);
        let ids = award_indexes(achievements, earned, member_id, condition, value);
        let rest = award_indexes(achievements.drop_last(), earned, member_id, condition, value);
        assert forall|k: int| 0 <= k < ids.len() implies #[trigger] ids[k]
            < achievements.len() by {
            if k < rest.len() {
                assert(rest[k] < achievements.drop_last().len());
                assert(ids[k] == rest[k]);
            }
        }
    }
}

/// An award pass picks exactly the indexes whose rule is met and which the
/// member has not earned yet.
pub proof fn lemma_award_indexes_contains(
    achievements: Seq<Achievement>,
    earned: Seq<MemberAchievement>,
    member_id: usize,
    condition: ConditionType,
    value: u32,
    i: int,
)
    requires
        achievements.len() <= usize::MAX,
        0 <= i < achievements.len(),
    ensures
        award_indexes(achievements, earned, member_id, condition, value).contains(i as usize)
            <==> (qualifies(achievements[i], condition, value) && !earned_has(
            earned,
            member_id,
            i as usize,
        )),
    decreases achievements.len(),
{
    let ids = award_indexes(achievements, earned, member_id, condition, value);
    let rest = award_indexes(achievements.drop_last(), earned, member_id, condition, value);
    lemma_award_indexes_bounds(achievements.drop_last(), earned, member_id, condition, value);
    if i < achievements.len() - 1 {
        lemma_award_indexes_contains(
            achievements.drop_last(),
            earned,
            member_id,
            condition,
            value,
            i,
        );
        assert(achievements.drop_last()[i] == achievements[i]);
        if rest.contains(i as usize) {
            let k = choose|k: int| 0 <= k < rest.len() && rest[k] == i as usize;
            assert(ids[k] == i as usize);
        }
        if ids.contains(i as usize) {
            let k = choose|k: int| 0 <= k < ids.len() && ids[k] == i as usize;
            if k < rest.len() {
                assert(rest[k] == i as usize);
            }
        }
    } else {
        let last_id = (achievements.len() - 1) as usize;
        if qualifies(achievements.last(), condition, value) && !earned_has(
            earned,
            member_id,
            last_id,
        ) {
            assert(ids.last() == i as usize);
        } else {
            if ids.contains(i as usize) {
                let k = choose|k: int| 0 <= k < ids.len() && ids[k] == i as usize;
                assert(rest[k] == i as usize);
            }
        }
    }
}

/// If every qualifying achievement is already earned, an award pass picks
/// nothing.
pub proof fn lemma_award_indexes_empty(
    achievements: Seq<Achievement>,
    earned: Seq<MemberAchievement>,
    member_id: usize,
    condition: ConditionType,
    value: u32,
)
    requires
        achievements.len() <= usize::MAX,
        forall|i: int|
            0 <= i < achievements.len() && qualifies(#[trigger] achievements[i], condition, value)
                ==> earned_has(earned, member_id, i as usize),
    ensures
        award_indexes(achievements, earned, member_id, condition, value) == Seq::<usize>::empty(),
    decreases achievements.len(),
{
    if achievements.len() > 0 {
        assert forall|i: int|
            0 <= i < achievements.drop_last().len() && qualifies(
                #[trigger] achievements.drop_last()[i],
                condition,
                value,
            ) implies earned_has(earned, member_id, i as usize) by {
            assert(achievements.drop_last()[i] == achievements[i]);
        }
        lemma_award_indexes_empty(achievements.drop_last(), earned, member_id, condition, value);
    }
}

/// Awarding is idempotent. If `post` is `pre` extended with exactly the
/// rows of one award pass for (member, condition, value) — which is how
/// [`MembershipStore::check_and_award`] leaves the award table — then a
/// second pass for the same member, condition and value awards nothing:
/// no achievement is ever recorded twice, and no unlock is announced twice.
pub proof fn lemma_award_pass_idempotent(
    achievements: Seq<Achievement>,
    pre: Seq<MemberAchievement>,
    post: Seq<MemberAchievement>,
    member_id: usize,
    condition: ConditionType,
    value: u32,
)
    requires
        achievements.len() <= usize::MAX,
        post.len() == pre.len() + award_indexes(
            achievements,
            pre,
            member_id,
            condition,
            value,
        ).len(),
        forall|j: int| 0 <= j < pre.len() ==> #[trigger] post[j] == pre[j],
        forall|k: int|
            0 <= k < award_indexes(achievements, pre, member_id, condition, value).len() ==> (
            #[trigger] post[pre.len() + k]).member_id == member_id && post[pre.len()
                + k].achievement_id == award_indexes(
                achievements,
                pre,
                member_id,
                condition,
                value,
            )[k],
    ensures
        award_indexes(achievements, post, member_id, condition, value) == Seq::<usize>::empty(),
{
    let ids = award_indexes(achievements, pre, member_id, condition, value);
    assert forall|i: int|
        0 <= i < achievements.len() && qualifies(
            #[trigger] achievements[i],
            condition,
            value,
        ) implies earned_has(post, member_id, i as usize) by {
        lemma_award_indexes_contains(achievements, pre, member_id, condition, value, i);
        if earned_has(pre, member_id, i as usize) {
            let w = choose|w: int|
                0 <= w < pre.len() && pre[w].member_id == member_id && pre[w].achievement_id == i
                    as usize;
            assert(post[w] == pre[w]);
        } else {
            let k = choose|k: int| 0 <= k < ids.len() && ids[k] == i as usize;
            assert(post[pre.len() + k].member_id == member_id);
            assert(post[pre.len() + k].achievement_id == i as usize);
        }
    }
    lemma_award_indexes_empty(achievements, post, member_id, condition, value);
}

impl MembershipStore {
    /// Finds the award row for (member, achievement), if one exists.
    fn find_earned(&self, member_id: usize, achievement_id: usize) -> (r: Option<usize>)
        ensures
            r is Some <==> earned_has(self.earned@, member_id, achievement_id),
            r matches Some(w) ==> w < self.earned@.len() && self.earned@[w as int].member_id
                == member_id && self.earned@[w as int].achievement_id == achievement_id,
    {
        let n = self.earned.len();
        let mut i: usize = 0;
        while i < n
            invariant
                i <= n,
                n == self.earned@.len(),
                forall|j: int|
                    0 <= j < i ==> !((#[trigger] self.earned@[j]).member_id == member_id
                        && self.earned@[j].achievement_id == achievement_id),
            decreases n - i,
        {
            if self.earned[i].member_id == member_id && self.earned[i].achievement_id
                == achievement_id {
                return Some(i);
            }
            i = i + 1;
        }
        None
    }

    /// The award pass: finds every achievement of `condition_type` whose
    /// threshold is at or below `current_value`, awards each through the
    /// idempotent insert, and returns the names of those actually newly
    /// awarded. Safe to run twice: the second pass awards nothing.
    #[verifier::loop_isolation(false)]
    pub fn check_and_award(
        &mut self,
        member_id: usize,
        condition_type: ConditionType,
        current_value: u32,
        now: String,
    ) -> (r: Result<Vec<String>, EngineError>)
        requires
            old(self).wf(),
        ensures
            final(self).wf(),
            r is Ok <==> member_id < old(self).members@.len(),
            r matches Err(e) ==> (e == EngineError::NotFound && *final(self) == *old(self)),
            r matches Ok(names) ==> ({
                let ids = award_indexes(
                    old(self).achievements@,
                    old(self).earned@,
                    member_id,
                    condition_type,
                    current_value,
                );
                &&& names@.len() == ids.len()
                &&& forall|k: int|
                    0 <= k < ids.len() ==> #[trigger] names@[k] == old(self).achievements@[
                        ids[k] as int
                    ].name
                &&& final(self).earned@.len() == old(self).earned@.len() + ids.len()
                &&& forall|j: int|
                    0 <= j < old(self).earned@.len() ==> #[trigger] final(self).earned@[j] == old(
                        self,
                    ).earned@[j]
                &&& forall|k: int|
                    0 <= k < ids.len() ==> (#[trigger] final(self).earned@[old(self).earned@.len()
                        + k]).member_id == member_id && final(self).earned@[old(self).earned@.len()
                        + k].achievement_id == ids[k] && final(self).earned@[old(
                        self,
                    ).earned@.len() + k].earned_at == now
            }),
            final(self).missions@ == old(self).missions@,
            final(self).members@ == old(self).members@,
            final(self).memberships@ == old(self).memberships@,
            final(self).achievements@ == old(self).achievements@,
            final(self).messages@ == old(self).messages@,
            final(self).invites@ == old(self).invites@,
    {
        if member_id >= self.members.len() {
            return Err(EngineError::NotFound);
        }
        let n = self.achievements.len();
        let mut names: Vec<String> = Vec::new();
        let mut i: usize = 0;
        while i < n
            invariant
                i <= n,
                self.wf(),
                ({
                    let ids = award_indexes(
                        old(self).achievements@.take(i as int),
                        old(self).earned@,
                        member_id,
                        condition_type,
                        current_value,
                    );
                    &&& names@.len() == ids.len()
                    &&& forall|k: int|
                        0 <= k < ids.len() ==> #[trigger] names@[k] == old(self).achievements@[
                            ids[k] as int
                        ].name
                    &&& self.earned@.len() == old(self).earned@.len() + ids.len()
                    &&& forall|j: int|
                        0 <= j < old(self).earned@.len() ==> #[trigger] self.earned@[j] == old(
                            self,
                        ).earned@[j]
                    &&& forall|k: int|
                        0 <= k < ids.len() ==> (#[trigger] self.earned@[old(self).earned@.len()
                            + k]).member_id == member_id && self.earned@[old(self).earned@.len()
                            + k].achievement_id == ids[k] && self.earned@[old(self).earned@.len()
                            + k].earned_at == now && ids[k] < i
                }),
                self.missions@ == old(self).missions@,
                self.members@ == old(self).members@,
                self.memberships@ == old(self).memberships@,
                self.achievements@ == old(self).achievements@,
                self.messages@ == old(self).messages@,
                self.invites@ == old(self).invites@,
            decreases n - i,
        {
            proof {
                lemma_award_indexes_take_step(
                    old(self).achievements@,
                    old(self).earned@,
                    member_id,
                    condition_type,
                    current_value,
                    i as int,
                );
            }
            if self.achievements[i].condition_type == condition_type
                && self.achievements[i].condition_value <= current_value {
                proof {
                    let ids = award_indexes(
                        old(self).achievements@.take(i as int),
                        old(self).earned@,
                        member_id,
                        condition_type,
                        current_value,
                    );
                    assert(earned_has(self.earned@, member_id, i) == earned_has(
                        old(self).earned@,
                        member_id,
                        i,
                    )) by {
                        if earned_has(old(self).earned@, member_id, i) {
                            let w = choose|w: int|
                                0 <= w < old(self).earned@.len() && old(
                                    self,
                                ).earned@[w].member_id == member_id && old(
                                    self,
                                ).earned@[w].achievement_id == i;
                            assert(self.earned@[w] == old(self).earned@[w]);
                        }
                        if earned_has(self.earned@, member_id, i) {
                            let w = choose|w: int|
                                0 <= w < self.earned@.len() && self.earned@[w].member_id
                                    == member_id && self.earned@[w].achievement_id == i;
                            if w >= old(self).earned@.len() {
                                let k = w - old(self).earned@.len();
                                assert(old(self).earned@.len() + k == w);
                                assert((self.earned@[old(self).earned@.len()
                                    + k]).achievement_id == ids[k] && ids[k] < i);
                            } else {
                                assert(self.earned@[w] == old(self).earned@[w]);
                            }
                        }
                    }
                }
                let inserted = match self.award_achievement(member_id, i, now.clone()) {
                    Ok(b) => b,
                    Err(_) => {
                        proof {
                            assert(false);
                        }
                        false
                    },
                };
                if inserted {
                    names.push(self.achievements[i].name.clone());
                }
            }
            proof {
                let ids_old = award_indexes(
                    old(self).achievements@.take(i as int),
                    old(self).earned@,
                    member_id,
                    condition_type,
                    current_value,
                );
                let ids_new = award_indexes(
                    old(self).achievements@.take(i as int + 1),
                    old(self).earned@,
                    member_id,
                    condition_type,
                    current_value,
                );
                assert forall|k: int| 0 <= k < ids_new.len() implies #[trigger] names@[k] == old(
                    self,
                ).achievements@[ids_new[k] as int].name by {
                    if k < ids_old.len() {
                        assert(ids_new[k] == ids_old[k]);
                        assert(names@[k] == old(self).achievements@[ids_old[k] as int].name);
                    } else {
                        assert(ids_new[k] == i as usize);
                    }
                }
            }
            i = i + 1;
        }
        proof {
            assert(old(self).achievements@.take(n as int) =~= old(self).achievements@);
        }
        Ok(names)
    }

    /// Lists every achievement with, for `member_id`, whether it has been
    /// earned and when.
    #[verifier::loop_isolation(false)]
    pub fn get_my_achievements(&self, member_id: usize) -> (r: Vec<AchievementViewModel>)
        requires
            self.wf(),
        ensures
            r@.len() == self.achievements@.len(),
            forall|i: int|
                0 <= i < r@.len() ==> {
                    &&& (#[trigger] r@[i]).id == i
                    &&& r@[i].name == self.achievements@[i].name
                    &&& r@[i].description == self.achievements@[i].description
                    &&& r@[i].icon_url == self.achievements@[i].icon_url
                    &&& r@[i].is_earned == earned_has(self.earned@, member_id, i as usize)
                    &&& (r@[i].is_earned ==> (exists|w: int|
                        0 <= w < self.earned@.len() && (#[trigger] self.earned@[w]).member_id
                            == member_id && self.earned@[w].achievement_id == i as usize
                            && r@[i].earned_at == Some(self.earned@[w].earned_at)))
                    &&& (!r@[i].is_earned ==> r@[i].earned_at is None)
                },
    {
        let n = self.achievements.len();
        let mut out: Vec<AchievementViewModel> = Vec::new();
        let mut i: usize = 0;
        while i < n
            invariant
                i <= n,
                out@.len() == i,
                forall|j: int|
                    0 <= j < i ==> {
                        &&& (#[trigger] out@[j]).id == j
                        &&& out@[j].name == self.achievements@[j].name
                        &&& out@[j].description == self.achievements@[j].description
                        &&& out@[j].icon_url == self.achievements@[j].icon_url
                        &&& out@[j].is_earned == earned_has(self.earned@, member_id, j as usize)
                        &&& (out@[j].is_earned ==> (exists|w: int|
                            0 <= w < self.earned@.len() && (#[trigger] self.earned@[w]).member_id
                                == member_id && self.earned@[w].achievement_id == j as usize
                                && out@[j].earned_at == Some(self.earned@[w].earned_at)))
                        &&& (!out@[j].is_earned ==> out@[j].earned_at is None)
                    },
            decreases n - i,
        {
            let earned_row = self.find_earned(member_id, i);
            let earned_at: Option<String> = match earned_row {
                Some(w) => Some(self.earned[w].earned_at.clone()),
                None => None,
            };
            let a = &self.achievements[i];
            out.push(
                AchievementViewModel {
                    id: i,
                    name: a.name.clone(),
                    description: crate::model::clone_opt_string(&a.description),
                    icon_url: crate::model::clone_opt_string(&a.icon_url),
                    is_earned: matches!(earned_row, Some(_)),
                    earned_at,
                },
            );
            i = i + 1;
        }
        out
    }
}

} // verus!
