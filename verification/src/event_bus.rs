//! The event bus: accounts subscribe to topics, and a publication is delivered to every
//! subscriber of its topic.
use vstd::prelude::*;

use crate::common::{get_or, is_listed, listed, AccountId, Hash32, Table};

verus! {

/// A topic events are published under.
pub type Topic = Hash32;

/// Subscribers a topic may have.
pub const MAX_SUBSCRIBERS_PER_TOPIC: usize = 50;

/// Why an event-bus operation was refused.
#[derive(Clone, Copy, Debug, PartialEq, Eq, Structural)]
pub enum EventBusError {
    AlreadySubscribed,
    MaxSubscribersReached,
    NotSubscribed,
    ReentrantCall,
}

/// The abstract state of the event bus.
pub struct EventBusState {
    pub admin: AccountId,
    pub subscribers: Map<Topic, Seq<AccountId>>,
    pub locked: bool,
}

/// The event bus.
pub struct EventBusContract {
    admin: AccountId,
    subscribers: Table<Topic, Vec<AccountId>>,
    locked: bool,
}

impl View for EventBusContract {
    type V = EventBusState;

    closed spec fn view(&self) -> EventBusState {
        EventBusState {
            admin: self.admin,
            subscribers: self.subscribers@.map_values(|v: Vec<AccountId>| v@),
            locked: self.locked,
        }
    }
}

/// The subscribers of `topic`, in subscription order (as reordered by unsubscriptions).
pub open spec fn subscribers_of(s: EventBusState, topic: Topic) -> Seq<AccountId> {
    get_or(s.subscribers, topic, Seq::empty())
}

/// The position of `a` in `accounts`, assuming it is there: the first one.
pub open spec fn first_position(accounts: Seq<AccountId>, a: AccountId) -> int
    decreases accounts.len(),
{
    if accounts.len() == 0 {
        0
    } else if accounts[0] == a {
        0
    } else {
        1 + first_position(accounts.drop_first(), a)
    }
}

/// `accounts` with the entry at `p` replaced by the last one, and the last one dropped.
pub open spec fn swap_removed(accounts: Seq<AccountId>, p: int) -> Seq<AccountId> {
    accounts.update(p, accounts.last()).drop_last()
}

impl EventBusContract {
    /// The table's invariant.
    pub closed spec fn wf(&self) -> bool {
        self.subscribers.wf()
    }

    /// A bus administered by `caller`, with no subscriber.
    pub fn new(caller: AccountId) -> (r: EventBusContract)
        ensures
            r.wf(),
            r@.admin == caller,
            r@.subscribers == Map::<Topic, Seq<AccountId>>::empty(),
            !r@.locked,
    {
        let r = EventBusContract { admin: caller, subscribers: Table::new(), locked: false };
        assert(r@.subscribers =~= Map::<Topic, Seq<AccountId>>::empty());
        r
    }

    fn list(&self, topic: Topic) -> (r: Vec<AccountId>)
        requires
            self.wf(),
        ensures
            r@ == subscribers_of(self@, topic),
    {
        match self.subscribers.get(&topic) {
            Some(v) => {
                let c = v.clone();
                assert(c@ =~= v@);
                c
            },
            None => Vec::new(),
        }
    }

    fn put(&mut self, topic: Topic, v: Vec<AccountId>)
        requires
            old(self).wf(),
        ensures
            final(self).wf(),
            final(self)@ == (EventBusState { subscribers: old(self)@.subscribers.insert(topic, v@), ..old(self)@ }),
    {
        let ghost vv = v@;
        let ghost t0 = self.subscribers@;
        self.subscribers.insert(topic, v);
        assert(self.subscribers@.map_values(|x: Vec<AccountId>| x@) =~= t0.map_values(|x: Vec<AccountId>| x@).insert(
            topic,
            vv,
        ));
        assert(self@ =~= EventBusState { subscribers: old(self)@.subscribers.insert(topic, vv), ..old(self)@ });
    }

    /// The accounts an event published by `caller` under `topic` is delivered to, in
    /// order; the delivery itself (with the payload's emitter set to `caller`) is the
    /// host's, and a subscriber's failure does not stop the others.
    pub fn publish(&self, caller: AccountId, topic: Topic) -> (r: Result<Vec<AccountId>, EventBusError>)
        requires
            self.wf(),
        ensures
            self@.locked ==> r is Err && r->Err_0 == EventBusError::ReentrantCall,
            !self@.locked ==> r is Ok && r->Ok_0@ == subscribers_of(self@, topic),
    {
        if self.locked {
            return Err(EventBusError::ReentrantCall);
        }
        Ok(self.list(topic))
    }

    /// `caller` subscribes to `topic`, once, while the topic has room.
    pub fn subscribe(&mut self, caller: AccountId, topic: Topic) -> (r: Result<(), EventBusError>)
        requires
            old(self).wf(),
        ensures
            final(self).wf(),
            ({
                let subs = subscribers_of(old(self)@, topic);
                if listed(subs, caller) {
                    r == Err::<(), EventBusError>(EventBusError::AlreadySubscribed) && final(self)@ == old(self)@
                } else if subs.len() >= MAX_SUBSCRIBERS_PER_TOPIC {
                    r == Err::<(), EventBusError>(EventBusError::MaxSubscribersReached) && final(self)@ == old(self)@
                } else {
                    r == Ok::<(), EventBusError>(()) && final(self)@ == (EventBusState {
                        subscribers: old(self)@.subscribers.insert(topic, subs.push(caller)),
                        ..old(self)@
                    })
                }
            }),
    {
        let mut subs = self.list(topic);
        if is_listed(&subs, caller) {
            return Err(EventBusError::AlreadySubscribed);
        }
        if subs.len() >= MAX_SUBSCRIBERS_PER_TOPIC {
            return Err(EventBusError::MaxSubscribersReached);
        }
        subs.push(caller);
        self.put(topic, subs);
        Ok(())
    }

    /// `caller` leaves `topic`; the last subscriber takes its place.
    pub fn unsubscribe(&mut self, caller: AccountId, topic: Topic) -> (r: Result<(), EventBusError>)
        requires
            old(self).wf(),
        ensures
            final(self).wf(),
            ({
                let subs = subscribers_of(old(self)@, topic);
                if !listed(subs, caller) {
                    r == Err::<(), EventBusError>(EventBusError::NotSubscribed) && final(self)@ == old(self)@
                } else {
                    r == Ok::<(), EventBusError>(()) && final(self)@ == (EventBusState {
                        subscribers: old(self)@.subscribers.insert(
                            topic,
                            swap_removed(subs, first_position(subs, caller)),
                        ),
                        ..old(self)@
                    })
                }
            }),
    {
        let mut subs = self.list(topic);
        let n = subs.len();
        let mut i: usize = 0;
        assert(subs@.subrange(0, n as int) =~= subs@);
        while i < n
            invariant
                self.wf(),
                self@ == old(self)@,
                subs@ == subscribers_of(old(self)@, topic),
                n == subs@.len(),
                i <= n,
                forall|j: int| 0 <= j < i ==> subs@[j] != caller,
                first_position(subs@, caller) == i + first_position(subs@.subrange(i as int, n as int), caller),
            decreases n - i,
        {
            if subs[i] == caller {
                let ghost before = subs@;
                proof {
                    assert(before.subrange(i as int, n as int)[0] == caller);
                    assert(first_position(before, caller) == i);
                    assert(listed(before, caller));
                }
                subs.swap_remove(i);
                assert(subs@ =~= swap_removed(before, i as int));
                self.put(topic, subs);
                return Ok(());
            }
            proof {
                let tail = subs@.subrange(i as int, n as int);
                assert(tail.drop_first() =~= subs@.subrange(i + 1, n as int));
            }
            i = i + 1;
        }
        assert(!listed(subs@, caller));
        Err(EventBusError::NotSubscribed)
    }

    /// The subscribers of `topic`.
    pub fn get_subscribers(&self, topic: Topic) -> (r: Vec<AccountId>)
        requires
            self.wf(),
        ensures
            r@ == subscribers_of(self@, topic),
    {
        self.list(topic)
    }
}

proof fn lemma_first_position_of_new_last(accounts: Seq<AccountId>, a: AccountId)
    requires
        !listed(accounts, a),
    ensures
        first_position(accounts.push(a), a) == accounts.len(),
    decreases accounts.len(),
{
    if accounts.len() > 0 {
        assert(accounts[0] != a) by {
            if accounts[0] == a {
                assert(listed(accounts, a));
            }
        }
        let rest = accounts.drop_first();
        assert(!listed(rest, a)) by {
            if listed(rest, a) {
                let j = choose|j: int| 0 <= j < rest.len() && rest[j] == a;
                assert(accounts[j + 1] == a);
            }
        }
        assert(accounts.push(a).drop_first() =~= rest.push(a));
        lemma_first_position_of_new_last(rest, a);
    }
}

/// Subscribing and then unsubscribing leaves a topic's subscribers exactly as they were,
/// and while subscribed the account receives every publication on the topic.
pub proof fn lemma_subscribe_then_unsubscribe(s: EventBusState, caller: AccountId, topic: Topic)
    requires
        !listed(subscribers_of(s, topic), caller),
    ensures
        ({
            let subs = subscribers_of(s, topic);
            let joined = subs.push(caller);
            &&& listed(joined, caller)
            &&& swap_removed(joined, first_position(joined, caller)) == subs
        }),
{
    let subs = subscribers_of(s, topic);
    let joined = subs.push(caller);
    assert(joined[subs.len() as int] == caller);
    lemma_first_position_of_new_last(subs, caller);
    assert(swap_removed(joined, subs.len() as int) =~= subs);
}

} // verus!
