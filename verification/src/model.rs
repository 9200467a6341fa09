//! The engine's records, as plain values.
//!
//! Identities are indexes into the store's append-only tables: missions,
//! members, achievements, messages and invites are never hard-deleted, so an
//! index identifies a record for the lifetime of the store.

use vstd::prelude::*;

use crate::status::MissionStatus;

verus! {

/// A cooperative mission with a bounded crew, led by a chief.
pub struct Mission {
    pub name: String,
    pub description: Option<String>,
    pub category: Option<String>,
    /// Crew capacity, always within `[2, 10]`.
    pub max_crew: u32,
    pub status: MissionStatus,
    /// The owning member; never counted as crew.
    pub chief_id: usize,
    /// Soft-delete marker; a deleted mission stays in the table.
    pub deleted: bool,
    pub created_at: String,
    pub updated_at: String,
}

/// A member, with the running counters read by the achievement evaluator.
/// The counters only ever increase.
pub struct Member {
    pub display_name: String,
    pub avatar_url: Option<String>,
    pub mission_success_count: u32,
    pub mission_join_count: u32,
}

/// One crew-membership row: the composite key (mission, member).
#[derive(Clone, Copy, Debug, PartialEq, Eq, Structural)]
pub struct CrewMembership {
    pub mission_id: usize,
    pub member_id: usize,
}

/// What a member must have done for an achievement to qualify.
#[derive(Clone, Copy, Debug, PartialEq, Eq, Structural)]
pub enum ConditionType {
    MissionJoin,
    MissionComplete,
    MissionCreate,
}

/// Static reference data: a named milestone with a counter threshold.
pub struct Achievement {
    pub name: String,
    pub description: Option<String>,
    pub icon_url: Option<String>,
    pub condition_type: ConditionType,
    pub condition_value: u32,
}

/// One awarded achievement: at most one row per (member, achievement) pair.
pub struct MemberAchievement {
    pub member_id: usize,
    pub achievement_id: usize,
    pub earned_at: String,
}

/// Whether a mission message is user chat or a system announcement.
#[derive(Clone, Copy, Debug, PartialEq, Eq, Structural)]
pub enum MessageKind {
    Chat,
    System,
}

/// A persisted mission message. The log is append-only; a message's identity
/// is its index in the log, so log order is creation order.
pub struct MissionMessage {
    pub mission_id: usize,
    /// `None` marks a system-generated message.
    pub user_id: Option<usize>,
    pub content: String,
    pub kind: MessageKind,
    pub created_at: String,
}

/// The payload for appending a mission message.
pub struct NewMissionMessageEntity {
    pub mission_id: usize,
    /// `None` marks a system-generated message.
    pub user_id: Option<usize>,
    pub content: String,
    pub kind: MessageKind,
}

/// One mission message as listed back to a client, with the author's profile
/// fields joined in.
pub struct MissionMessageView {
    pub id: usize,
    pub mission_id: usize,
    pub user_id: Option<usize>,
    pub user_display_name: Option<String>,
    pub user_avatar_url: Option<String>,
    pub content: String,
    pub kind: MessageKind,
    pub created_at: String,
}

/// The state of an invitation.
#[derive(Clone, Copy, Debug, PartialEq, Eq, Structural)]
pub enum InviteStatus {
    Pending,
    Accepted,
    Rejected,
}

/// A stored invitation of a member into a mission's crew.
pub struct MissionInvite {
    pub mission_id: usize,
    pub user_id: usize,
    pub status: InviteStatus,
    pub created_at: String,
}

/// The payload for creating an invitation.
pub struct NewMissionInvite {
    pub mission_id: usize,
    pub user_id: usize,
    pub status: InviteStatus,
}

/// A pending invitation as listed to its recipient, with the mission and
/// chief names joined in.
pub struct MissionInviteDetails {
    pub id: usize,
    pub mission_id: usize,
    pub mission_name: String,
    pub chief_name: String,
    pub status: InviteStatus,
}

/// One mission as read back to a client: the record plus its crew count and
/// whether the reading member is part of the crew.
pub struct MissionModel {
    pub id: usize,
    pub name: String,
    pub description: Option<String>,
    pub category: Option<String>,
    pub max_crew: u32,
    pub status: MissionStatus,
    pub chief_id: usize,
    pub chief_display_name: String,
    pub crew_count: usize,
    pub is_member: bool,
    pub created_at: String,
    pub updated_at: String,
}

/// Per-member mission statistics.
#[derive(Clone, Copy, Debug, PartialEq, Eq, Structural)]
pub struct MissionSummaryModel {
    pub created_count: usize,
    pub joined_count: usize,
    pub completed_count: usize,
    pub failed_count: usize,
}

/// One achievement as listed to a member, with the earned flag joined in.
pub struct AchievementViewModel {
    pub id: usize,
    pub name: String,
    pub description: Option<String>,
    pub icon_url: Option<String>,
    pub is_earned: bool,
    pub earned_at: Option<String>,
}

/// Copies an optional string; the copy equals its source.
pub fn clone_opt_string(x: &Option<String>) -> (r: Option<String>)
    ensures
        r == *x,
{
    match x {
        Option::Some(s) => Option::Some(s.clone()),
        Option::None => Option::None,
    }
}

impl Clone for Member {
    fn clone(&self) -> (res: Self)
        ensures
            res == *self,
    {
        Member {
            display_name: self.display_name.clone(),
            avatar_url: clone_opt_string(&self.avatar_url),
            mission_success_count: self.mission_success_count,
            mission_join_count: self.mission_join_count,
        }
    }
}

impl Clone for MissionInvite {
    fn clone(&self) -> (res: Self)
        ensures
            res == *self,
    {
        MissionInvite {
            mission_id: self.mission_id,
            user_id: self.user_id,
            status: self.status,
            created_at: self.created_at.clone(),
        }
    }
}

/// The payload for creating a mission.
pub struct AddMissionModel {
    pub name: String,
    pub description: Option<String>,
    pub category: Option<String>,
    pub max_crew: u32,
}

/// The payload for editing a mission; `None` fields are left unchanged.
pub struct EditMissionModel {
    pub name: Option<String>,
    pub description: Option<String>,
    pub category: Option<String>,
    pub max_crew: Option<u32>,
}

} // verus!
