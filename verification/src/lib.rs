//! Mission lifecycle and crew coordination engine.
//!
//! A mission is created by a chief, joined by a bounded crew, and advances
//! through a small state machine (`Open`, `InProgress`, `Completed`,
//! `Failed`). Every transition and crew change fires best-effort side
//! effects: durable message logging, achievement evaluation, user-targeted
//! notifications and a per-mission real-time broadcast. The authoritative
//! state change always commits first; no side-effect failure ever rolls it
//! back or reaches the caller.
//!
//! The pieces, leaves first:
//!
//! - [`MembershipStore`]: the durable state with its atomic check-then-act
//!   primitives, under a well-formedness invariant (unique memberships,
//!   chief exclusion, crews within capacity, idempotent awards, at most one
//!   pending invite per pair).
//! - The achievement evaluator ([`MembershipStore::check_and_award`]): a
//!   stateless threshold check whose award insert is idempotent.
//! - [`MissionRealtimeService`]: per-mission fan-out; a subscription sees
//!   exactly the events published after it was opened.
//! - [`NotificationDispatcher`]: one global channel, filtered at the
//!   delivery edge with [`should_render`].
//! - [`CrewOperationUseCase`], [`MissionOperationUseCase`],
//!   [`MissionInviteUseCase`], [`MissionManagementUseCase`] and
//!   [`MissionChatUseCase`]: the operations the transport layer exposes,
//!   each with its exact acceptance condition and effect.

use vstd::prelude::*;

mod achievements;
mod chat;
mod clock;
mod crew;
mod effects;
mod errors;
mod imgdata;
mod invites;
mod lifecycle;
mod management;
mod model;
mod notify;
mod realtime;
mod repository;
mod status;
mod store;
mod texts;

pub use achievements::{award_indexes, lemma_award_pass_idempotent, qualifies};
pub use chat::{MissionChatUseCase, SendMessageDto};
pub use crew::{CrewOperationUseCase, KickModel};
pub use errors::EngineError;
pub use imgdata::{
    base64_standard, base64_standard_no_pad, decoded_bytes, sniffed_mime, spec_accepts_image,
    without_whitespace, Base64Img,
};
pub use invites::{InviteUserPayload, MissionInviteUseCase};
pub use lifecycle::MissionOperationUseCase;
pub use management::{trimmed, MissionManagementUseCase};
pub use model::{
    Achievement, AchievementViewModel, AddMissionModel, ConditionType, CrewMembership,
    EditMissionModel, InviteStatus, Member, MemberAchievement, MessageKind, Mission,
    MissionInvite, MissionInviteDetails, MissionMessage, MissionMessageView, MissionModel,
    MissionSummaryModel, NewMissionInvite, NewMissionMessageEntity,
};
pub use notify::{
    sent_batch, should_render, Notification, NotificationDispatcher, NotificationMetadata,
    NotificationSubscriber, NotificationType, NOTIFICATION_CAPACITY,
};
pub use realtime::{
    broadcast_batch, ChatMessage, MissionChannel, MissionRealtimeService, MissionSubscription,
    CHANNEL_CAPACITY,
};
pub use repository::CrewOperationRepository;
pub use status::MissionStatus;
pub use store::MembershipStore;

verus! {

} // verus!
