//! An in-process reference model of the event layer's runtime semantics.
//!
//! Each subscriber to an event name receives its own fan-out sequence of
//! payloads — broadcast semantics, not a shared competing queue. Payloads
//! are carried in marshaled form, the shape in which the transport moves
//! them. Cancelling a subscription removes it entirely, so nothing is held
//! past the last consumer's cancellation, and a cancelled subscriber
//! observes no later emission.

use vstd::prelude::*;

verus! {

/// One live subscription: the queue of payloads emitted under its event
/// name since it was opened and not yet consumed.
#[derive(Debug, PartialEq, Eq)]
pub struct Subscription {
    pub id: u64,
    pub event_name: String,
    pub pending: Vec<String>,
}

/// The event bus: every live subscription, in the order opened.
#[derive(Debug, PartialEq, Eq)]
pub struct EventBus {
    pub subs: Vec<Subscription>,
    pub next_id: u64,
}

/// Subscription identifiers appear in strictly increasing order.
pub open spec fn ids_sorted(subs: Seq<Subscription>) -> bool {
    forall|a: int, b: int|
        0 <= a < b < subs.len() ==> (#[trigger] subs[a]).id < (#[trigger] subs[b]).id
}

/// How many live subscriptions carry the given event name.
pub open spec fn matching_count(subs: Seq<Subscription>, event_name: Seq<char>) -> int
    decreases subs.len(),
{
    if subs.len() == 0 {
        0
    } else {
        matching_count(subs.drop_last(), event_name) + if subs.last().event_name@ == event_name {
            1int
        } else {
            0int
        }
    }
}

proof fn lemma_matching_count_bound(subs: Seq<Subscription>, event_name: Seq<char>)
    ensures
        0 <= matching_count(subs, event_name) <= subs.len(),
    decreases subs.len(),
{
    if subs.len() > 0 {
        lemma_matching_count_bound(subs.drop_last(), event_name);
    }
}

/// The subscriptions that survive cancelling the given identifier: all
/// but those carrying it, in order.
pub open spec fn without_id(subs: Seq<Subscription>, id: u64) -> Seq<Subscription>
    decreases subs.len(),
{
    if subs.len() == 0 {
        Seq::empty()
    } else {
        let prefix = without_id(subs.drop_last(), id);
        if subs.last().id == id {
            prefix
        } else {
            prefix.push(subs.last())
        }
    }
}

/// Law: cancellation releases the subscription — no surviving
/// subscription carries the cancelled identifier, every survivor is one
/// of the prior subscriptions, and identifier order is preserved.
pub proof fn lemma_cancel_releases_subscription(subs: Seq<Subscription>, id: u64)
    ensures
        without_id(subs, id).len() <= subs.len(),
        forall|k: int|
            0 <= k < without_id(subs, id).len() ==> (#[trigger] without_id(subs, id)[k]).id != id,
        forall|k: int|
            0 <= k < without_id(subs, id).len() ==> subs.contains(
                #[trigger] without_id(subs, id)[k],
            ),
        ids_sorted(subs) ==> ids_sorted(without_id(subs, id)),
    decreases subs.len(),
{
    if subs.len() > 0 {
        let prefix = subs.drop_last();
        lemma_cancel_releases_subscription(prefix, id);
        assert forall|k: int| 0 <= k < without_id(prefix, id).len() implies subs.contains(
            without_id(prefix, id)[k],
        ) by {
            assert(prefix.contains(without_id(prefix, id)[k]));
            let j = choose|j: int| 0 <= j < prefix.len() && prefix[j] == without_id(prefix, id)[k];
            assert(subs[j] == without_id(prefix, id)[k]);
        }
        if ids_sorted(subs) && subs.last().id != id {
            let out = without_id(subs, id);
            assert(ids_sorted(prefix));
            assert forall|a: int, b: int| 0 <= a < b < out.len() implies (#[trigger] out[a]).id < (
            #[trigger] out[b]).id by {
                if b == out.len() - 1 {
                    assert(prefix.contains(out[a]));
                    let j = choose|j: int| 0 <= j < prefix.len() && prefix[j] == out[a];
                    assert(subs[j].id < subs.last().id);
                }
            }
        }
    }
}

impl EventBus {
    /// Identifiers are strictly increasing and all below the next one to
    /// be handed out.
    pub open spec fn wf(self) -> bool {
        ids_sorted(self.subs@) && (forall|k: int|
            0 <= k < self.subs@.len() ==> (#[trigger] self.subs@[k]).id < self.next_id)
    }

    pub fn new() -> (r: EventBus)
        ensures
            r.wf(),
            r.subs@.len() == 0,
            r.next_id == 0,
    {
        EventBus { subs: Vec::new(), next_id: 0 }
    }

    pub fn subscription_count(&self) -> (r: usize)
        ensures
            r == self.subs@.len(),
    {
        self.subs.len()
    }

    /// Opens a fan-out sequence for the given event name; payloads emitted
    /// from now on are queued for this subscriber independently of any
    /// other.
    pub fn subscribe(&mut self, event_name: String) -> (id: u64)
        requires
            old(self).wf(),
            old(self).next_id < u64::MAX,
        ensures
            final(self).wf(),
            id == old(self).next_id,
            final(self).next_id == old(self).next_id + 1,
            final(self).subs@.len() == old(self).subs@.len() + 1,
            forall|k: int|
                0 <= k < old(self).subs@.len() ==> final(self).subs@[k] == old(self).subs@[k],
            final(self).subs@.last().id == id,
            final(self).subs@.last().event_name == event_name,
            final(self).subs@.last().pending@ == Seq::<String>::empty(),
    {
        let id = self.next_id;
        self.subs.push(Subscription { id, event_name, pending: Vec::new() });
        self.next_id = self.next_id + 1;
        id
    }

    /// Broadcasts a payload under an event name: every live subscription
    /// to that name receives it at the end of its own queue, every other
    /// subscription is untouched, and the number of receivers is
    /// reported.
    pub fn emit(&mut self, event_name: &String, payload: &String) -> (delivered: usize)
        requires
            old(self).wf(),
        ensures
            final(self).wf(),
            final(self).next_id == old(self).next_id,
            final(self).subs@.len() == old(self).subs@.len(),
            forall|k: int|
                0 <= k < old(self).subs@.len() ==> (#[trigger] final(self).subs@[k]).id == old(
                    self,
                ).subs@[k].id && final(self).subs@[k].event_name == old(self).subs@[k].event_name,
            forall|k: int|
                0 <= k < old(self).subs@.len() && (#[trigger] old(self).subs@[k]).event_name@
                    == event_name@ ==> final(self).subs@[k].pending@ == old(
                    self,
                ).subs@[k].pending@.push(*payload),
            forall|k: int|
                0 <= k < old(self).subs@.len() && (#[trigger] old(self).subs@[k]).event_name@
                    != event_name@ ==> final(self).subs@[k] == old(self).subs@[k],
            delivered == matching_count(old(self).subs@, event_name@),
    {
        let ghost olds = old(self).subs@;
        let mut source: Vec<Subscription> = Vec::new();
        core::mem::swap(&mut source, &mut self.subs);
        let mut delivered: usize = 0;
        proof {
            lemma_matching_count_bound(olds, event_name@);
        }
        while source.len() > 0
            invariant
                self.next_id == old(self).next_id,
                olds == old(self).subs@,
                olds.len() == self.subs@.len() + source@.len(),
                source@ == olds.skip(self.subs@.len() as int),
                forall|k: int|
                    0 <= k < self.subs@.len() ==> (#[trigger] self.subs@[k]).id == olds[k].id && (
                    #[trigger] self.subs@[k]).event_name == olds[k].event_name,
                forall|k: int|
                    0 <= k < self.subs@.len() && (#[trigger] olds[k]).event_name@ == event_name@
                        ==> self.subs@[k].pending@ == olds[k].pending@.push(*payload),
                forall|k: int|
                    0 <= k < self.subs@.len() && (#[trigger] olds[k]).event_name@ != event_name@
                        ==> self.subs@[k] == olds[k],
                delivered == matching_count(olds.take(self.subs@.len() as int), event_name@),
                delivered <= self.subs@.len(),
            decreases source@.len(),
        {
            let ghost k = self.subs@.len() as int;
            let mut s = source.remove(0);
            proof {
                assert(s == olds[k]);
                assert(source@ =~= olds.skip(k + 1));
                assert(olds.take(k + 1).drop_last() =~= olds.take(k));
                assert(olds.take(k + 1).last() == olds[k]);
            }
            let matched = s.event_name == *event_name;
            if matched {
                s.pending.push(payload.clone());
            }
            self.subs.push(s);
            if matched {
                let cur_len = self.subs.len();
                proof {
                    assert(delivered < cur_len);
                }
                delivered = delivered + 1;
            }
        }
        proof {
            assert(olds.take(olds.len() as int) =~= olds);
            assert(ids_sorted(self.subs@));
        }
        delivered
    }

    /// Cancels a subscription: the fan-out sequence ends and its queue is
    /// released at once; later emissions cannot reach it.
    pub fn cancel(&mut self, id: u64)
        requires
            old(self).wf(),
        ensures
            final(self).wf(),
            final(self).next_id == old(self).next_id,
            final(self).subs@ == without_id(old(self).subs@, id),
            forall|k: int|
                0 <= k < final(self).subs@.len() ==> (#[trigger] final(self).subs@[k]).id != id,
    {
        let ghost olds = old(self).subs@;
        let mut source: Vec<Subscription> = Vec::new();
        core::mem::swap(&mut source, &mut self.subs);
        let ghost mut i: int = 0;
        while source.len() > 0
            invariant
                self.next_id == old(self).next_id,
                olds == old(self).subs@,
                olds.len() == i + source@.len(),
                0 <= i <= olds.len(),
                source@ == olds.skip(i),
                self.subs@ == without_id(olds.take(i), id),
            decreases source@.len(),
        {
            let s = source.remove(0);
            proof {
                assert(s == olds[i]);
                assert(source@ =~= olds.skip(i + 1));
                assert(olds.take(i + 1).drop_last() =~= olds.take(i));
                assert(olds.take(i + 1).last() == olds[i]);
            }
            if s.id != id {
                self.subs.push(s);
            }
            proof {
                i = i + 1;
            }
        }
        proof {
            assert(olds.take(olds.len() as int) =~= olds);
            lemma_cancel_releases_subscription(olds, id);
            assert forall|k: int| 0 <= k < self.subs@.len() implies (
            #[trigger] self.subs@[k]).id < self.next_id by {
                assert(olds.contains(self.subs@[k]));
                let j = choose|j: int| 0 <= j < olds.len() && olds[j] == self.subs@[k];
                assert(olds[j].id < old(self).next_id);
            }
        }
    }

    /// Takes the next queued payload of a subscription, if any; the queue
    /// is this subscriber's own, so no other subscriber competes for it.
    pub fn next_event(&mut self, id: u64) -> (r: Option<String>)
        requires
            old(self).wf(),
        ensures
            final(self).wf(),
            final(self).next_id == old(self).next_id,
            final(self).subs@.len() == old(self).subs@.len(),
            (forall|k: int| 0 <= k < old(self).subs@.len() ==> (#[trigger] old(self).subs@[k]).id
                != id) ==> r is None && final(self).subs@ == old(self).subs@,
            forall|i: int|
                0 <= i < old(self).subs@.len() && (#[trigger] old(self).subs@[i]).id == id ==> {
                    &&& (old(self).subs@[i].pending@.len() == 0 ==> r is None && final(self).subs@
                        == old(self).subs@)
                    &&& (old(self).subs@[i].pending@.len() > 0 ==> r == Some(
                        old(self).subs@[i].pending@[0],
                    ) && final(self).subs@[i].id == old(self).subs@[i].id
                        && final(self).subs@[i].event_name == old(self).subs@[i].event_name
                        && final(self).subs@[i].pending@ == old(self).subs@[i].pending@.skip(1)
                        && (forall|k: int|
                        0 <= k < old(self).subs@.len() && k != i ==> final(self).subs@[k] == old(
                            self,
                        ).subs@[k]))
                },
    {
        let mut i: usize = 0;
        while i < self.subs.len()
            invariant
                old(self).wf(),
                self.subs@ == old(self).subs@,
                self.next_id == old(self).next_id,
                i <= self.subs@.len(),
                forall|k: int| 0 <= k < i ==> (#[trigger] self.subs@[k]).id != id,
            decreases self.subs@.len() - i,
        {
            if self.subs[i].id == id {
                let mut s = self.subs.remove(i);
                if s.pending.len() > 0 {
                    let v = s.pending.remove(0);
                    self.subs.insert(i, s);
                    proof {
                        assert(self.subs@ =~= old(self).subs@.update(
                            i as int,
                            self.subs@[i as int],
                        ));
                    }
                    return Some(v);
                } else {
                    self.subs.insert(i, s);
                    proof {
                        assert(self.subs@ =~= old(self).subs@);
                    }
                    return None;
                }
            }
            i += 1;
        }
        None
    }
}

} // verus!
