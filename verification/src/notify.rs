//! The notification dispatcher: one global multi-subscriber channel.
//!
//! Every connected client subscribes once; a delivered notification carries
//! an optional recipient. Filtering happens at the delivery edge with
//! [`should_render`], not at publish time: a `None` recipient is rendered by
//! every subscriber, a `Some` recipient only by the matching identity.
//!
//! Publishing never blocks on consumption: a full subscriber queue drops its
//! oldest entry, so a slow reader loses the oldest notifications rather than
//! stalling the publisher.

use vstd::prelude::*;

verus! {

/// What kind of event a notification reports.
#[derive(Clone, Copy, Debug, PartialEq, Eq, Structural)]
pub enum NotificationType {
    JoinMission,
    LeaveMission,
    MissionStatusUpdate,
}

/// Structured context attached to a notification.
#[derive(Clone, Copy, Debug, PartialEq, Eq, Structural)]
pub struct NotificationMetadata {
    pub mission_id: usize,
    /// Set on join notifications: who joined.
    pub joiner_id: Option<usize>,
}

/// A transient, wire-only alert. `recipient_id: None` means
/// broadcast-to-all.
pub struct Notification {
    pub recipient_id: Option<usize>,
    pub title: String,
    pub message: String,
    pub notification_type: NotificationType,
    pub metadata: NotificationMetadata,
}

impl Clone for Notification {
    fn clone(&self) -> (res: Self)
        ensures
            res == *self,
    {
        Notification {
            recipient_id: self.recipient_id,
            title: self.title.clone(),
            message: self.message.clone(),
            notification_type: self.notification_type,
            metadata: self.metadata,
        }
    }
}

/// How many undelivered notifications one subscriber may hold.
pub const NOTIFICATION_CAPACITY: usize = 100;

/// One subscriber: a connection identity and its undelivered queue.
pub struct NotificationSubscriber {
    pub member_id: usize,
    pub queue: Vec<Notification>,
}

/// Whether a subscriber with identity `member_id` renders `n`. This is the
/// delivery-edge filter: publish time does no filtering.
pub open spec fn spec_should_render(n: &Notification, member_id: usize) -> bool {
    n.recipient_id is None || n.recipient_id == Some(member_id)
}

/// Exec twin of [`spec_should_render`].
#[verifier::when_used_as_spec(spec_should_render)]
pub fn should_render(n: &Notification, member_id: usize) -> (r: bool)
    ensures
        r == spec_should_render(n, member_id),
{
    match n.recipient_id {
        None => true,
        Some(id) => id == member_id,
    }
}

/// The process-wide notification channel.
pub struct NotificationDispatcher {
    pub subscribers: Vec<NotificationSubscriber>,
}

impl NotificationDispatcher {
    /// Every subscriber queue respects the channel capacity.
    pub open spec fn wf(self) -> bool {
        forall|i: int|
            0 <= i < self.subscribers@.len() ==> (#[trigger] self.subscribers@[i]).queue@.len()
                <= NOTIFICATION_CAPACITY
    }

    /// The undelivered queue of subscriber `slot`.
    pub open spec fn queue_of(self, slot: usize) -> Seq<Notification> {
        self.subscribers@[slot as int].queue@
    }

    /// Whether `slot` names a subscriber.
    pub open spec fn valid_slot(self, slot: usize) -> bool {
        slot < self.subscribers@.len()
    }

    /// A dispatcher with no subscribers.
    pub fn new() -> (r: NotificationDispatcher)
        ensures
            r.wf(),
            r.subscribers@.len() == 0,
    {
        NotificationDispatcher { subscribers: Vec::new() }
    }

    /// Connects a client; the new subscription starts with an empty queue,
    /// so it only sees notifications sent after this call.
    pub fn subscribe(&mut self, member_id: usize) -> (slot: usize)
        requires
            old(self).wf(),
        ensures
            final(self).wf(),
            slot == old(self).subscribers@.len(),
            final(self).valid_slot(slot),
            !old(self).valid_slot(slot),
            final(self).subscribers@.len() == old(self).subscribers@.len() + 1,
            final(self).queue_of(slot) == Seq::<Notification>::empty(),
            final(self).subscribers@[slot as int].member_id == member_id,
            forall|s2: usize|
                old(self).valid_slot(s2) ==> #[trigger] final(self).subscribers@[s2 as int]
                    == old(self).subscribers@[s2 as int],
    {
        let slot = self.subscribers.len();
        self.subscribers.push(NotificationSubscriber { member_id, queue: Vec::new() });
        slot
    }

    /// Publishes a notification to every current subscriber. A full queue
    /// drops its oldest entry; the publisher never blocks or fails.
    #[verifier::loop_isolation(false)]
    pub fn send(&mut self, notification: Notification)
        requires
            old(self).wf(),
        ensures
            final(self).wf(),
            final(self).subscribers@.len() == old(self).subscribers@.len(),
            forall|s2: usize|
                old(self).valid_slot(s2) ==> {
                    &&& (#[trigger] final(self).subscribers@[s2 as int]).member_id == old(self).subscribers@[s2 as int].member_id
                    &&& final(self).queue_of(s2) == (if old(self).queue_of(s2).len()
                        < NOTIFICATION_CAPACITY {
                        old(self).queue_of(s2).push(notification)
                    } else {
                        old(self).queue_of(s2).drop_first().push(notification)
                    })
                },
            sent_batch(*old(self), *final(self), seq![notification]),
    {
        let n = self.subscribers.len();
        let mut i: usize = 0;
        while i < n
            invariant
                i <= n,
                self.subscribers@.len() == n,
                forall|s2: int|
                    i <= s2 < n ==> #[trigger] self.subscribers@[s2] == old(self).subscribers@[s2],
                forall|s2: int|
                    0 <= s2 < i ==> {
                        &&& (#[trigger] self.subscribers@[s2]).member_id == old(self).subscribers@[s2].member_id
                        &&& self.subscribers@[s2].queue@ == (if old(self).subscribers@[s2].queue@.len() < NOTIFICATION_CAPACITY {
                            old(self).subscribers@[s2].queue@.push(notification)
                        } else {
                            old(self).subscribers@[s2].queue@.drop_first().push(notification)
                        })
                        &&& self.subscribers@[s2].queue@.len() <= NOTIFICATION_CAPACITY
                    },
            decreases n - i,
        {
            if self.subscribers[i].queue.len() >= NOTIFICATION_CAPACITY {
                self.subscribers[i].queue.remove(0);
                proof {
                    assert(self.subscribers@[i as int].queue@ =~= old(self).subscribers@[i as int].queue@.drop_first());
                }
            }
            self.subscribers[i].queue.push(notification.clone());
            i = i + 1;
        }
        proof {
            assert forall|s2: usize|
                #[trigger] old(self).valid_slot(s2) && old(self).queue_of(s2).len()
                    + seq![notification].len() <= NOTIFICATION_CAPACITY implies self.queue_of(s2)
                == old(self).queue_of(s2) + seq![notification] by {
                assert(self.queue_of(s2) == old(self).queue_of(s2).push(notification));
                assert(old(self).queue_of(s2).push(notification) =~= old(self).queue_of(s2)
                    + seq![notification]);
            }
        }
    }

    /// Takes the oldest undelivered notification for `slot`, if any. The
    /// caller filters with [`should_render`] before rendering.
    pub fn recv(&mut self, slot: usize) -> (r: Option<Notification>)
        requires
            old(self).wf(),
            old(self).valid_slot(slot),
        ensures
            final(self).wf(),
            final(self).subscribers@.len() == old(self).subscribers@.len(),
            old(self).queue_of(slot).len() == 0 ==> r is None && *final(self) == *old(self),
            old(self).queue_of(slot).len() > 0 ==> {
                &&& r == Some(old(self).queue_of(slot)[0])
                &&& final(self).queue_of(slot) == old(self).queue_of(slot).drop_first()
                &&& final(self).subscribers@[slot as int].member_id == old(self).subscribers@[slot as int].member_id
            },
            forall|s2: usize|
                old(self).valid_slot(s2) && s2 != slot ==> #[trigger] final(self).subscribers@[s2 as int] == old(self).subscribers@[s2 as int],
    {
        if self.subscribers[slot].queue.len() == 0 {
            return None;
        }
        let head = self.subscribers[slot].queue.remove(0);
        proof {
            assert(self.subscribers@[slot as int].queue@ =~= old(self).subscribers@[slot as int].queue@.drop_first());
        }
        Some(head)
    }
}


/// How one engine operation relates the dispatcher before and after: the
/// subscriber population and identities are unchanged, and every subscriber
/// with room receives exactly the notifications `ns`, in order, appended to
/// its queue. (A subscriber without room lags: its oldest entries are
/// dropped.)
pub open spec fn sent_batch(
    pre: NotificationDispatcher,
    post: NotificationDispatcher,
    ns: Seq<Notification>,
) -> bool {
    &&& post.subscribers@.len() == pre.subscribers@.len()
    &&& forall|s: usize|
        #[trigger] pre.valid_slot(s) ==> post.subscribers@[s as int].member_id
            == pre.subscribers@[s as int].member_id
    &&& forall|s: usize|
        #[trigger] pre.valid_slot(s) && pre.queue_of(s).len() + ns.len()
            <= NOTIFICATION_CAPACITY ==> post.queue_of(s) == pre.queue_of(s) + ns
}

/// A batch of nothing changes nothing.
pub proof fn lemma_sent_batch_empty(state: NotificationDispatcher)
    ensures
        sent_batch(state, state, Seq::<Notification>::empty()),
{
    assert forall|s: usize|
        #[trigger] state.valid_slot(s) && state.queue_of(s).len()
            + Seq::<Notification>::empty().len() <= NOTIFICATION_CAPACITY implies state.queue_of(
        s,
    ) == state.queue_of(s) + Seq::<Notification>::empty() by {
        assert(state.queue_of(s) + Seq::<Notification>::empty() =~= state.queue_of(s));
    }
}

/// Two batches in a row are one batch of the concatenation.
pub proof fn lemma_sent_batch_trans(
    a: NotificationDispatcher,
    b: NotificationDispatcher,
    c: NotificationDispatcher,
    n1: Seq<Notification>,
    n2: Seq<Notification>,
)
    requires
        sent_batch(a, b, n1),
        sent_batch(b, c, n2),
    ensures
        sent_batch(a, c, n1 + n2),
{
    assert forall|s: usize| #[trigger] a.valid_slot(s) implies c.subscribers@[s as int].member_id
        == a.subscribers@[s as int].member_id by {
        assert(b.valid_slot(s));
    }
    assert forall|s: usize|
        #[trigger] a.valid_slot(s) && a.queue_of(s).len() + (n1 + n2).len()
            <= NOTIFICATION_CAPACITY implies c.queue_of(s) == a.queue_of(s) + (n1 + n2) by {
        assert(b.queue_of(s) == a.queue_of(s) + n1);
        assert(b.valid_slot(s));
        assert(c.queue_of(s) == b.queue_of(s) + n2);
        assert((a.queue_of(s) + n1) + n2 =~= a.queue_of(s) + (n1 + n2));
    }
}

} // verus!
