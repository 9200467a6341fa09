//! The shared side-effect steps that run after a committed mutation:
//! persisting a system message and fanning it out to mission subscribers.
//!
//! These run only after the authoritative write succeeded; in this store
//! they cannot fail, so the caller's primary result never depends on them.

use vstd::prelude::*;

use crate::clock::now_rfc3339;
use crate::model::{MessageKind, NewMissionMessageEntity};
use crate::realtime::{broadcast_batch, ChatMessage, MissionRealtimeService};
use crate::store::MembershipStore;

verus! {

/// Persists a system message to the mission's log, then fans the same text
/// out to every current subscriber of the mission. Returns (as ghost data)
/// the event that was broadcast.
pub(crate) fn log_and_broadcast_system(
    store: &mut MembershipStore,
    realtime: &mut MissionRealtimeService,
    mission_id: usize,
    content: String,
) -> (m: Ghost<ChatMessage>)
    requires
        old(store).wf(),
        old(realtime).wf(),
        mission_id < old(store).missions@.len(),
    ensures
        final(store).wf(),
        final(realtime).wf(),
        final(store).messages@.len() == old(store).messages@.len() + 1,
        forall|j: int|
            0 <= j < old(store).messages@.len() ==> #[trigger] final(store).messages@[j] == old(
                store,
            ).messages@[j],
        final(store).messages@.last().mission_id == mission_id,
        final(store).messages@.last().user_id is None,
        final(store).messages@.last().kind is System,
        final(store).messages@.last().content == content,
        final(store).missions@ == old(store).missions@,
        final(store).members@ == old(store).members@,
        final(store).memberships@ == old(store).memberships@,
        final(store).achievements@ == old(store).achievements@,
        final(store).earned@ == old(store).earned@,
        final(store).invites@ == old(store).invites@,
        broadcast_batch(*old(realtime), *final(realtime), mission_id, seq![m@]),
        m@.mission_id == mission_id,
        m@.user_id is None,
        m@.user_display_name is None,
        m@.user_avatar_url is None,
        m@.kind is System,
        m@.content == content,
{
    let stamp = now_rfc3339();
    let entity = NewMissionMessageEntity {
        mission_id,
        user_id: None,
        content: content.clone(),
        kind: MessageKind::System,
    };
    match store.append_message(entity, stamp.clone()) {
        Ok(_) => {},
        Err(_) => {
            proof {
                assert(false);
            }
        },
    }
    let msg = ChatMessage {
        mission_id,
        user_id: None,
        user_display_name: None,
        user_avatar_url: None,
        content,
        kind: MessageKind::System,
        created_at: stamp,
    };
    let ghost gm = msg;
    realtime.broadcast(mission_id, msg);
    Ghost(gm)
}

/// Fans a system message out to the mission's current subscribers without
/// persisting it. Returns (as ghost data) the event that was broadcast.
pub(crate) fn broadcast_system(
    realtime: &mut MissionRealtimeService,
    mission_id: usize,
    content: String,
) -> (m: Ghost<ChatMessage>)
    requires
        old(realtime).wf(),
    ensures
        final(realtime).wf(),
        broadcast_batch(*old(realtime), *final(realtime), mission_id, seq![m@]),
        m@.mission_id == mission_id,
        m@.user_id is None,
        m@.user_display_name is None,
        m@.user_avatar_url is None,
        m@.kind is System,
        m@.content == content,
{
    let stamp = now_rfc3339();
    let msg = ChatMessage {
        mission_id,
        user_id: None,
        user_display_name: None,
        user_avatar_url: None,
        content,
        kind: MessageKind::System,
        created_at: stamp,
    };
    let ghost gm = msg;
    realtime.broadcast(mission_id, msg);
    Ghost(gm)
}

} // verus!
