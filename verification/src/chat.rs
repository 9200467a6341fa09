//! Mission chat: sending and listing messages.
//!
//! A chat message is persisted to the append-only log first (the
//! authoritative write) and then fanned out to the mission's current
//! subscribers. Listing returns the log in creation order, one page at a
//! time.

use vstd::prelude::*;

use crate::clock::now_rfc3339;
use crate::errors::EngineError;
use crate::model::{MessageKind, MissionMessageView, NewMissionMessageEntity};
use crate::realtime::{broadcast_batch, ChatMessage, MissionRealtimeService};
use crate::store::{message_ids, MembershipStore, MESSAGE_PAGE_SIZE};

verus! {

/// The transport payload carrying one chat line.
pub struct SendMessageDto {
    pub content: String,
}

/// The chat use case.
pub struct MissionChatUseCase {}

impl MissionChatUseCase {
    /// A new chat handle.
    pub fn new() -> (r: MissionChatUseCase) {
        MissionChatUseCase {}
    }

    /// Lists a mission's messages in creation order, capped at the page
    /// size, with the author's profile joined in.
    pub fn get_messages(&self, store: &MembershipStore, mission_id: usize) -> (r: Result<
        Vec<MissionMessageView>,
        EngineError,
    >)
        requires
            store.wf(),
        ensures
            r is Ok,
            r matches Ok(v) ==> ({
                let ids = message_ids(store.messages@, mission_id);
                &&& v@.len() == (if ids.len() <= MESSAGE_PAGE_SIZE {
                    ids.len()
                } else {
                    MESSAGE_PAGE_SIZE as nat
                })
                &&& (forall|k: int|
                    0 <= k < v@.len() ==> #[trigger] v@[k] == store.message_view_at(ids[k]))
            }),
    {
        Ok(store.get_by_mission_id(mission_id))
    }

    /// Sends one chat message: persists it, then broadcasts it to the
    /// mission's current subscribers. Rejected with `NotFound` when the
    /// mission or the author does not exist.
    pub fn send_message(
        &self,
        store: &mut MembershipStore,
        realtime: &mut MissionRealtimeService,
        mission_id: usize,
        user_id: usize,
        content: String,
    ) -> (r: Result<(), EngineError>)
        requires
            old(store).wf(),
            old(realtime).wf(),
        ensures
            final(store).wf(),
            final(realtime).wf(),
            r is Ok <==> (mission_id < old(store).missions@.len() && user_id < old(
                store,
            ).members@.len()),
            r matches Err(e) ==> (e == EngineError::NotFound && *final(store) == *old(store)
                && *final(realtime) == *old(realtime)),
            r is Ok ==> ({
                &&& final(store).messages@.len() == old(store).messages@.len() + 1
                &&& (forall|j: int|
                    0 <= j < old(store).messages@.len() ==> #[trigger] final(store).messages@[j]
                        == old(store).messages@[j])
                &&& final(store).messages@.last().mission_id == mission_id
                &&& final(store).messages@.last().user_id == Some(user_id)
                &&& final(store).messages@.last().kind is Chat
                &&& final(store).messages@.last().content == content
                &&& final(store).missions@ == old(store).missions@
                &&& final(store).members@ == old(store).members@
                &&& final(store).memberships@ == old(store).memberships@
                &&& final(store).achievements@ == old(store).achievements@
                &&& final(store).earned@ == old(store).earned@
                &&& final(store).invites@ == old(store).invites@
                &&& (exists|msgs: Seq<ChatMessage>|
                    {
                        &&& #[trigger] broadcast_batch(
                            *old(realtime),
                            *final(realtime),
                            mission_id,
                            msgs,
                        )
                        &&& msgs.len() == 1
                        &&& msgs[0].kind is Chat
                        &&& msgs[0].user_id == Some(user_id)
                        &&& msgs[0].content == content
                    })
            }),
    {
        if mission_id >= store.missions.len() || user_id >= store.members.len() {
            return Err(EngineError::NotFound);
        }
        let stamp = now_rfc3339();
        let entity = NewMissionMessageEntity {
            mission_id,
            user_id: Some(user_id),
            content: content.clone(),
            kind: MessageKind::Chat,
        };
        match store.append_message(entity, stamp.clone()) {
            Ok(_) => {},
            Err(_) => {
                proof {
                    assert(false);
                }
            },
        }
        let msg = ChatMessage {
            mission_id,
            user_id: Some(user_id),
            user_display_name: None,
            user_avatar_url: None,
            content,
            kind: MessageKind::Chat,
            created_at: stamp,
        };
        let ghost gm = msg;
        realtime.broadcast(mission_id, msg);
        proof {
            assert(broadcast_batch(*old(realtime), *realtime, mission_id, seq![gm]));
        }
        Ok(())
    }
}

} // verus!
