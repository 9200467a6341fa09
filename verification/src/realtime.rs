//! The per-mission real-time fan-out.
//!
//! The service keeps a registry from mission to channel, created lazily on
//! first access and never torn down. Publishing delivers to every current
//! subscriber of that mission only; a mission with no subscribers silently
//! drops the event (chat durability is the store's job, not the
//! broadcaster's). A subscription only sees events published after it was
//! created.
//!
//! Publishing never blocks on consumption: a full subscriber queue drops its
//! oldest entry, so a slow reader lags rather than stalling the publisher.

use vstd::prelude::*;

use crate::model::MessageKind;

verus! {

/// One event as fanned out to mission subscribers.
pub struct ChatMessage {
    pub mission_id: usize,
    /// `None` marks a system-generated event.
    pub user_id: Option<usize>,
    pub user_display_name: Option<String>,
    pub user_avatar_url: Option<String>,
    pub content: String,
    pub kind: MessageKind,
    pub created_at: String,
}

impl Clone for ChatMessage {
    fn clone(&self) -> (res: Self)
        ensures
            res == *self,
    {
        ChatMessage {
            mission_id: self.mission_id,
            user_id: self.user_id,
            user_display_name: crate::model::clone_opt_string(&self.user_display_name),
            user_avatar_url: crate::model::clone_opt_string(&self.user_avatar_url),
            content: self.content.clone(),
            kind: self.kind,
            created_at: self.created_at.clone(),
        }
    }
}

/// How many undelivered events one subscriber may hold.
pub const CHANNEL_CAPACITY: usize = 100;

/// One mission's channel: the undelivered queue of each subscriber.
pub struct MissionChannel {
    pub mission_id: usize,
    pub subscribers: Vec<Vec<ChatMessage>>,
}

/// A handle to one subscription of one mission's channel.
#[derive(Clone, Copy, Debug, PartialEq, Eq, Structural)]
pub struct MissionSubscription {
    pub mission_id: usize,
    pub slot: usize,
}

/// The per-mission channel registry.
pub struct MissionRealtimeService {
    pub channels: Vec<MissionChannel>,
}

impl MissionRealtimeService {
    /// Channels are unique per mission and every queue respects the channel
    /// capacity.
    pub open spec fn wf(self) -> bool {
        &&& forall|i: int, j: int|
            0 <= i < j < self.channels@.len() ==> (#[trigger] self.channels@[i]).mission_id != (
            #[trigger] self.channels@[j]).mission_id
        &&& forall|i: int, q: int|
            0 <= i < self.channels@.len() && 0 <= q < self.channels@[i].subscribers@.len()
                ==> (#[trigger] self.channels@[i].subscribers@[q])@.len() <= CHANNEL_CAPACITY
    }

    /// Whether a channel for `mission_id` exists yet.
    pub open spec fn has_channel(self, mission_id: usize) -> bool {
        exists|i: int|
            0 <= i < self.channels@.len() && (#[trigger] self.channels@[i]).mission_id
                == mission_id
    }

    /// The registry index of the channel for `mission_id`; meaningful only
    /// when [`Self::has_channel`] holds (the index is then unique).
    pub open spec fn chan_index(self, mission_id: usize) -> int {
        choose|i: int|
            0 <= i < self.channels@.len() && (#[trigger] self.channels@[i]).mission_id
                == mission_id
    }

    /// Whether `sub` names a live subscription.
    pub open spec fn valid_sub(self, sub: MissionSubscription) -> bool {
        &&& self.has_channel(sub.mission_id)
        &&& sub.slot < self.channels@[self.chan_index(sub.mission_id)].subscribers@.len()
    }

    /// The undelivered events of subscription `sub`.
    pub open spec fn queue_of(self, sub: MissionSubscription) -> Seq<ChatMessage> {
        self.channels@[self.chan_index(sub.mission_id)].subscribers@[sub.slot as int]@
    }

    /// In a well-formed registry, any index whose channel names `mission_id`
    /// is the channel index.
    pub proof fn lemma_chan_at(self, mission_id: usize, i: int)
        requires
            self.wf(),
            0 <= i < self.channels@.len(),
            self.channels@[i].mission_id == mission_id,
        ensures
            self.has_channel(mission_id),
            self.chan_index(mission_id) == i,
    {
        assert(self.has_channel(mission_id));
        let j = self.chan_index(mission_id);
        assert(0 <= j < self.channels@.len() && self.channels@[j].mission_id == mission_id);
    }

    /// An empty registry.
    pub fn new() -> (r: MissionRealtimeService)
        ensures
            r.wf(),
            r.channels@.len() == 0,
    {
        MissionRealtimeService { channels: Vec::new() }
    }

    /// Looks up the channel for `mission_id`, creating it (with no
    /// subscribers) on first access.
    #[verifier::loop_isolation(false)]
    fn ensure_channel(&mut self, mission_id: usize) -> (ci: usize)
        requires
            old(self).wf(),
        ensures
            final(self).wf(),
            ci < final(self).channels@.len(),
            final(self).channels@[ci as int].mission_id == mission_id,
            final(self).has_channel(mission_id),
            final(self).chan_index(mission_id) == ci,
            old(self).has_channel(mission_id) ==> *final(self) == *old(self),
            !old(self).has_channel(mission_id) ==> ci == old(self).channels@.len() && final(self).channels@.len() == old(self).channels@.len() + 1 && final(self).channels@[
                ci as int
            ].subscribers@.len() == 0 && (forall|j: int|
                0 <= j < old(self).channels@.len() ==> #[trigger] final(self).channels@[j] == old(self).channels@[j]),
    {
        let n = self.channels.len();
        let mut i: usize = 0;
        while i < n
            invariant
                i <= n,
                forall|j: int|
                    0 <= j < i ==> (#[trigger] self.channels@[j]).mission_id != mission_id,
            decreases n - i,
        {
            if self.channels[i].mission_id == mission_id {
                proof {
                    self.lemma_chan_at(mission_id, i as int);
                }
                return i;
            }
            i = i + 1;
        }
        let fresh: Vec<Vec<ChatMessage>> = Vec::new();
        self.channels.push(MissionChannel { mission_id, subscribers: fresh });
        proof {
            self.lemma_chan_at(mission_id, n as int);
        }
        n
    }

    /// Opens a fresh subscription to `mission_id`. The new queue is empty:
    /// a subscriber only sees events published after this call, and every
    /// existing subscription is left untouched.
    pub fn subscribe(&mut self, mission_id: usize) -> (sub: MissionSubscription)
        requires
            old(self).wf(),
        ensures
            final(self).wf(),
            sub.mission_id == mission_id,
            final(self).valid_sub(sub),
            !old(self).valid_sub(sub),
            final(self).queue_of(sub) == Seq::<ChatMessage>::empty(),
            forall|s2: MissionSubscription|
                #[trigger] old(self).valid_sub(s2) ==> final(self).valid_sub(s2) && final(self).queue_of(s2) == old(self).queue_of(s2),
    {
        let ci = self.ensure_channel(mission_id);
        let ghost mid = *self;
        let slot = self.channels[ci].subscribers.len();
        let fresh: Vec<ChatMessage> = Vec::new();
        self.channels[ci].subscribers.push(fresh);
        proof {
            self.lemma_chan_at(mission_id, ci as int);
            assert forall|s2: MissionSubscription| #[trigger] old(self).valid_sub(s2) implies self.valid_sub(
                s2,
            ) && self.queue_of(s2) == old(self).queue_of(s2) by {
                let oj = old(self).chan_index(s2.mission_id);
                old(self).lemma_chan_at(s2.mission_id, oj);
                if s2.mission_id == mission_id {
                    assert(oj == mid.chan_index(mission_id));
                }
                self.lemma_chan_at(s2.mission_id, oj);
            }
        }
        MissionSubscription { mission_id, slot }
    }

    /// Publishes an event to every current subscriber of `mission_id`, and
    /// to nobody else. A full queue drops its oldest entry; with no
    /// subscribers the event is silently dropped.
    #[verifier::loop_isolation(false)]
    pub fn broadcast(&mut self, mission_id: usize, message: ChatMessage)
        requires
            old(self).wf(),
        ensures
            final(self).wf(),
            final(self).has_channel(mission_id),
            forall|s2: MissionSubscription|
                #[trigger] old(self).valid_sub(s2) ==> final(self).valid_sub(s2) && final(self).queue_of(s2) == (if s2.mission_id == mission_id {
                    if old(self).queue_of(s2).len() < CHANNEL_CAPACITY {
                        old(self).queue_of(s2).push(message)
                    } else {
                        old(self).queue_of(s2).drop_first().push(message)
                    }
                } else {
                    old(self).queue_of(s2)
                }),
            forall|s2: MissionSubscription|
                #[trigger] final(self).valid_sub(s2) ==> old(self).valid_sub(s2),
            message.mission_id == mission_id ==> broadcast_batch(
                *old(self),
                *final(self),
                mission_id,
                seq![message],
            ),
    {
        let ci = self.ensure_channel(mission_id);
        let ghost mid = *self;
        let n = self.channels[ci].subscribers.len();
        let mut q: usize = 0;
        while q < n
            invariant
                q <= n,
                self.channels@.len() == mid.channels@.len(),
                forall|j: int|
                    0 <= j < self.channels@.len() && j != ci ==> #[trigger] self.channels@[j]
                        == mid.channels@[j],
                self.channels@[ci as int].mission_id == mission_id,
                self.channels@[ci as int].subscribers@.len() == n,
                forall|k: int|
                    q <= k < n ==> #[trigger] self.channels@[ci as int].subscribers@[k]
                        == mid.channels@[ci as int].subscribers@[k],
                forall|k: int|
                    0 <= k < q ==> #[trigger] self.channels@[ci as int].subscribers@[k]@ == (
                    if mid.channels@[ci as int].subscribers@[k]@.len() < CHANNEL_CAPACITY {
                        mid.channels@[ci as int].subscribers@[k]@.push(message)
                    } else {
                        mid.channels@[ci as int].subscribers@[k]@.drop_first().push(message)
                    }),
                forall|k: int|
                    0 <= k < q ==> (#[trigger] self.channels@[ci as int].subscribers@[k])@.len()
                        <= CHANNEL_CAPACITY,
            decreases n - q,
        {
            if self.channels[ci].subscribers[q].len() >= CHANNEL_CAPACITY {
                self.channels[ci].subscribers[q].remove(0);
                proof {
                    assert(self.channels@[ci as int].subscribers@[q as int]@ =~= mid.channels@[
                        ci as int
                    ].subscribers@[q as int]@.drop_first());
                }
            }
            self.channels[ci].subscribers[q].push(message.clone());
            q = q + 1;
        }
        proof {
            self.lemma_chan_at(mission_id, ci as int);
            assert forall|s2: MissionSubscription| #[trigger] mid.valid_sub(s2) implies self.valid_sub(
                s2,
            ) && self.queue_of(s2) == (if s2.mission_id == mission_id {
                if mid.queue_of(s2).len() < CHANNEL_CAPACITY {
                    mid.queue_of(s2).push(message)
                } else {
                    mid.queue_of(s2).drop_first().push(message)
                }
            } else {
                mid.queue_of(s2)
            }) by {
                let oj = mid.chan_index(s2.mission_id);
                mid.lemma_chan_at(s2.mission_id, oj);
                self.lemma_chan_at(s2.mission_id, oj);
            }
            assert forall|s2: MissionSubscription| #[trigger] self.valid_sub(s2) implies mid.valid_sub(
                s2,
            ) by {
                let nj = self.chan_index(s2.mission_id);
                self.lemma_chan_at(s2.mission_id, nj);
                mid.lemma_chan_at(s2.mission_id, nj);
            }
            assert forall|s2: MissionSubscription| #[trigger] old(self).valid_sub(s2) implies mid.valid_sub(
                s2,
            ) && mid.queue_of(s2) == old(self).queue_of(s2) by {
                let oj = old(self).chan_index(s2.mission_id);
                old(self).lemma_chan_at(s2.mission_id, oj);
                mid.lemma_chan_at(s2.mission_id, oj);
            }
            if message.mission_id == mission_id {
                assert forall|s2: MissionSubscription|
                    #[trigger] old(self).valid_sub(s2) && s2.mission_id == mission_id && old(
                        self,
                    ).queue_of(s2).len() + seq![message].len()
                        <= CHANNEL_CAPACITY implies self.queue_of(s2) == old(self).queue_of(s2)
                    + seq![message] by {
                    assert(self.queue_of(s2) == old(self).queue_of(s2).push(message));
                    assert(old(self).queue_of(s2).push(message) =~= old(self).queue_of(s2)
                        + seq![message]);
                }
            }
        }
    }

    /// Takes the oldest undelivered event for `sub`, if any; every other
    /// subscription is left untouched.
    pub fn recv(&mut self, sub: &MissionSubscription) -> (r: Option<ChatMessage>)
        requires
            old(self).wf(),
            old(self).valid_sub(*sub),
        ensures
            final(self).wf(),
            old(self).queue_of(*sub).len() == 0 ==> r is None && *final(self) == *old(self),
            old(self).queue_of(*sub).len() > 0 ==> r == Some(old(self).queue_of(*sub)[0]) && final(self).valid_sub(*sub) && final(self).queue_of(*sub) == old(self).queue_of(
                *sub,
            ).drop_first(),
            forall|s2: MissionSubscription|
                #[trigger] old(self).valid_sub(s2) && s2 != *sub ==> final(self).valid_sub(s2)
                    && final(self).queue_of(s2) == old(self).queue_of(s2),
    {
        let ci = self.ensure_channel(sub.mission_id);
        proof {
            old(self).lemma_chan_at(sub.mission_id, old(self).chan_index(sub.mission_id));
            assert(*self == *old(self));
        }
        if self.channels[ci].subscribers[sub.slot].len() == 0 {
            return None;
        }
        let head = self.channels[ci].subscribers[sub.slot].remove(0);
        proof {
            assert(self.channels@[ci as int].subscribers@[sub.slot as int]@ =~= old(self).channels@[ci as int].subscribers@[sub.slot as int]@.drop_first());
            self.lemma_chan_at(sub.mission_id, ci as int);
            assert forall|s2: MissionSubscription|
                #[trigger] old(self).valid_sub(s2) && s2 != *sub implies self.valid_sub(s2)
                && self.queue_of(s2) == old(self).queue_of(s2) by {
                let oj = old(self).chan_index(s2.mission_id);
                old(self).lemma_chan_at(s2.mission_id, oj);
                self.lemma_chan_at(s2.mission_id, oj);
            }
        }
        Some(head)
    }
}


/// How one engine operation relates the fan-out registry before and after:
/// the subscriber population is unchanged, subscribers of other missions
/// see nothing, and every subscriber of `mission_id` with room receives
/// exactly the events `msgs`, in order, appended to its queue. (A
/// subscriber without room lags: its oldest events are dropped.)
pub open spec fn broadcast_batch(
    pre: MissionRealtimeService,
    post: MissionRealtimeService,
    mission_id: usize,
    msgs: Seq<ChatMessage>,
) -> bool {
    &&& forall|s2: MissionSubscription| #[trigger] pre.valid_sub(s2) ==> post.valid_sub(s2)
    &&& forall|s2: MissionSubscription| #[trigger] post.valid_sub(s2) ==> pre.valid_sub(s2)
    &&& forall|s2: MissionSubscription|
        #[trigger] pre.valid_sub(s2) && s2.mission_id != mission_id ==> post.queue_of(s2)
            == pre.queue_of(s2)
    &&& forall|s2: MissionSubscription|
        #[trigger] pre.valid_sub(s2) && s2.mission_id == mission_id && pre.queue_of(s2).len()
            + msgs.len() <= CHANNEL_CAPACITY ==> post.queue_of(s2) == pre.queue_of(s2) + msgs
    &&& forall|idx: int| 0 <= idx < msgs.len() ==> (#[trigger] msgs[idx]).mission_id == mission_id
}

/// A batch of nothing changes nothing.
pub proof fn lemma_broadcast_batch_empty(state: MissionRealtimeService, mission_id: usize)
    ensures
        broadcast_batch(state, state, mission_id, Seq::<ChatMessage>::empty()),
{
    assert forall|s2: MissionSubscription|
        #[trigger] state.valid_sub(s2) && s2.mission_id == mission_id && state.queue_of(s2).len()
            + Seq::<ChatMessage>::empty().len() <= CHANNEL_CAPACITY implies state.queue_of(s2)
        == state.queue_of(s2) + Seq::<ChatMessage>::empty() by {
        assert(state.queue_of(s2) + Seq::<ChatMessage>::empty() =~= state.queue_of(s2));
    }
}

/// Two batches in a row are one batch of the concatenation.
pub proof fn lemma_broadcast_batch_trans(
    a: MissionRealtimeService,
    b: MissionRealtimeService,
    c: MissionRealtimeService,
    mission_id: usize,
    m1: Seq<ChatMessage>,
    m2: Seq<ChatMessage>,
)
    requires
        broadcast_batch(a, b, mission_id, m1),
        broadcast_batch(b, c, mission_id, m2),
    ensures
        broadcast_batch(a, c, mission_id, m1 + m2),
{
    assert forall|s2: MissionSubscription|
        #[trigger] a.valid_sub(s2) && s2.mission_id == mission_id && a.queue_of(s2).len() + (m1
            + m2).len() <= CHANNEL_CAPACITY implies c.queue_of(s2) == a.queue_of(s2) + (m1
        + m2) by {
        assert(b.queue_of(s2) == a.queue_of(s2) + m1);
        assert(c.queue_of(s2) == b.queue_of(s2) + m2);
        assert((a.queue_of(s2) + m1) + m2 =~= a.queue_of(s2) + (m1 + m2));
    }
}

} // verus!
