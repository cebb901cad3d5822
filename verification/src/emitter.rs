//! Publishing events to whoever subscribed. The publisher does not know
//! its subscribers: each has a mailbox that a publication is put into and
//! that the subscriber empties when it pleases. Nothing is kept for
//! subscribers that come later.

use crate::events::{Event, EventView};
use vstd::prelude::*;

verus! {

/// The mailbox of one subscriber.
struct Mailbox {
    id: u64,
    pending: Vec<Event>,
}

/// The views of a list of events, in order.
pub open spec fn pending_views(events: Seq<Event>) -> Seq<EventView> {
    events.map_values(|e: Event| e@)
}

/// The subscribers of the launcher's events and what each has not yet taken.
pub struct EventEmitter {
    next_id: u64,
    mailboxes: Vec<Mailbox>,
}

impl Event {
    /// A copy of this event.
    pub fn duplicate(&self) -> (copy: Event)
        ensures
            copy@ == self@,
    {
        match self {
            Event::LogAppended { source, line } => Event::LogAppended {
                source: *source,
                line: line.clone(),
            },
            Event::ProcessExited { result } => Event::ProcessExited { result: *result },
        }
    }
}

impl EventEmitter {
    #[verifier::type_invariant]
    spec fn ids_distinct(&self) -> bool {
        &&& forall|i: int| 0 <= i < self.mailboxes@.len() ==> (#[trigger] self.mailboxes@[i]).id
            < self.next_id
        &&& forall|i: int, j: int|
            0 <= i < j < self.mailboxes@.len() ==> (#[trigger] self.mailboxes@[i]).id != (
            #[trigger] self.mailboxes@[j]).id
    }

    /// The position of the mailbox of subscriber `id`, where there is one.
    spec fn position(&self, id: u64) -> Option<int> {
        if exists|i: int| 0 <= i < self.mailboxes@.len() && self.mailboxes@[i].id == id {
            Some(choose|i: int| 0 <= i < self.mailboxes@.len() && self.mailboxes@[i].id == id)
        } else {
            None
        }
    }

    /// The number that the next subscriber gets.
    pub closed spec fn next_id(&self) -> u64 {
        self.next_id
    }

    /// The subscribers by number, each with the events it has not yet taken,
    /// oldest first.
    pub closed spec fn pending(&self) -> Map<u64, Seq<EventView>> {
        Map::new(
            |id: u64| self.position(id) is Some,
            |id: u64| pending_views(self.mailboxes@[self.position(id)->Some_0].pending@),
        )
    }

    /// What holds between the mailboxes and the map that stands for them.
    proof fn lemma_pending(&self)
        requires
            self.ids_distinct(),
        ensures
            forall|i: int|
                0 <= i < self.mailboxes@.len() ==> self.pending().contains_key(
                    (#[trigger] self.mailboxes@[i]).id,
                ) && self.pending()[self.mailboxes@[i].id] == pending_views(
                    self.mailboxes@[i].pending@,
                ),
            forall|id: u64| #[trigger]
                self.pending().contains_key(id) ==> exists|i: int|
                    0 <= i < self.mailboxes@.len() && self.mailboxes@[i].id == id,
            forall|id: u64| self.pending().contains_key(id) ==> id < self.next_id,
    {
        assert forall|id: u64| self.pending().contains_key(id) implies id < self.next_id by {
            let k = self.position(id)->Some_0;
            assert(self.mailboxes@[k].id == id);
        }
    }

    /// An emitter without subscribers.
    pub fn new() -> (emitter: EventEmitter)
        ensures
            emitter.pending() == Map::<u64, Seq<EventView>>::empty(),
            emitter.next_id() == 0,
    {
        let emitter = EventEmitter { next_id: 0, mailboxes: Vec::new() };
        assert(emitter.pending() =~= Map::<u64, Seq<EventView>>::empty());
        emitter
    }

    /// How many subscribers there are.
    pub fn subscriber_count(&self) -> (count: usize)
        ensures
            count == self.pending().dom().len(),
            self.pending().dom().finite(),
    {
        proof {
            use_type_invariant(self);
            self.lemma_domain_size();
        }
        self.mailboxes.len()
    }

    /// The subscribers are as many as the mailboxes.
    proof fn lemma_domain_size(&self)
        requires
            self.ids_distinct(),
        ensures
            self.pending().dom().finite(),
            self.pending().dom().len() == self.mailboxes@.len(),
    {
        let ids = self.mailboxes@.map_values(|m: Mailbox| m.id);
        assert(ids.no_duplicates());
        ids.unique_seq_to_set();
        assert(ids.to_set() =~= self.pending().dom()) by {
            assert forall|id: u64| self.pending().dom().contains(id) implies ids.to_set().contains(
                id,
            ) by {
                let i = choose|i: int| 0 <= i < self.mailboxes@.len() && self.mailboxes@[i].id == id;
                assert(ids[i] == id);
            }
        }
    }

    /// Adds a subscriber with an empty mailbox and returns its number, which
    /// no subscriber had before. No number is left once `u64::MAX` of them
    /// were given out; then nothing changes.
    pub fn subscribe(&mut self) -> (id: Option<u64>)
        ensures
            old(self).next_id() < u64::MAX ==> id == Some(old(self).next_id()),
            old(self).next_id() == u64::MAX ==> id is None,
            match id {
                Some(id) => {
                    &&& !old(self).pending().contains_key(id)
                    &&& final(self).pending() == old(self).pending().insert(id, Seq::empty())
                    &&& final(self).next_id() == id + 1
                },
                None => final(self).pending() == old(self).pending() && final(self).next_id()
                    == old(self).next_id(),
            },
    {
        proof {
            use_type_invariant(&*self);
            self.lemma_pending();
        }
        if self.next_id == u64::MAX {
            return None;
        }
        let id: u64 = self.next_id;
        let mut mailboxes: Vec<Mailbox> = Vec::new();
        std::mem::swap(&mut mailboxes, &mut self.mailboxes);
        let ghost before = mailboxes@;
        mailboxes.push(Mailbox { id, pending: Vec::new() });
        let ghost after = mailboxes@;
        self.next_id = id + 1;
        self.mailboxes = mailboxes;
        proof {
            self.lemma_pending();
            let wanted = old(self).pending().insert(id, Seq::empty());
            assert(after[before.len() as int].id == id);
            assert(pending_views(after[before.len() as int].pending@) =~= Seq::<EventView>::empty());
            assert forall|other: u64| #[trigger]
                self.pending().contains_key(other) == wanted.contains_key(other) by {
                if self.pending().contains_key(other) && other != id {
                    let k = choose|k: int| 0 <= k < after.len() && after[k].id == other;
                    assert(before[k].id == other);
                }
                if old(self).pending().contains_key(other) {
                    let k = choose|k: int| 0 <= k < before.len() && before[k].id == other;
                    assert(after[k].id == other);
                }
            }
            assert forall|other: u64| #[trigger]
                self.pending().contains_key(other) implies self.pending()[other]
                == wanted[other] by {
                let k = choose|k: int| 0 <= k < after.len() && after[k].id == other;
                if k < before.len() {
                    assert(before[k].id == other);
                }
            }
            assert(self.pending() =~= wanted);
        }
        Some(id)
    }

    /// The position of the mailbox of subscriber `id` among `mailboxes`.
    fn find(mailboxes: &Vec<Mailbox>, id: u64) -> (found: Option<usize>)
        ensures
            match found {
                Some(at) => at < mailboxes@.len() && mailboxes@[at as int].id == id,
                None => forall|k: int|
                    0 <= k < mailboxes@.len() ==> (#[trigger] mailboxes@[k]).id != id,
            },
    {
        let n: usize = mailboxes.len();
        let mut i: usize = 0;
        while i < n
            invariant
                n == mailboxes@.len(),
                i <= n,
                forall|k: int| 0 <= k < i ==> (#[trigger] mailboxes@[k]).id != id,
            decreases n - i,
        {
            if mailboxes[i].id == id {
                return Some(i);
            }
            i = i + 1;
        }
        None
    }

    /// Removes subscriber `id` and whatever it has not taken. Returns whether
    /// there was such a subscriber.
    pub fn unsubscribe(&mut self, id: u64) -> (removed: bool)
        ensures
            removed == old(self).pending().contains_key(id),
            final(self).pending() == old(self).pending().remove(id),
            final(self).next_id() == old(self).next_id(),
    {
        proof {
            use_type_invariant(&*self);
            self.lemma_pending();
        }
        let mut mailboxes: Vec<Mailbox> = Vec::new();
        std::mem::swap(&mut mailboxes, &mut self.mailboxes);
        let ghost before = mailboxes@;
        let found = Self::find(&mailboxes, id);
        match found {
            Some(at) => {
                let _ = mailboxes.remove(at);
            },
            None => {},
        }
        let ghost after = mailboxes@;
        let ghost shift = |k: int|
            match found {
                Some(at) if k >= at => k + 1,
                _ => k,
            };
        assert(forall|k: int| 0 <= k < after.len() ==> #[trigger] after[k] == before[shift(k)]);
        self.mailboxes = mailboxes;
        proof {
            self.lemma_pending();
            let wanted = old(self).pending().remove(id);
            assert forall|other: u64| #[trigger]
                self.pending().contains_key(other) == wanted.contains_key(other) by {
                if self.pending().contains_key(other) {
                    let k = choose|k: int| 0 <= k < after.len() && after[k].id == other;
                    assert(before[shift(k)].id == other);
                }
                if wanted.contains_key(other) {
                    let k = choose|k: int| 0 <= k < before.len() && before[k].id == other;
                    match found {
                        Some(at) if k > at => {
                            assert(after[k - 1] == before[shift(k - 1)]);
                        },
                        _ => {
                            assert(after[k] == before[shift(k)]);
                        },
                    }
                }
            }
            assert forall|other: u64| #[trigger]
                self.pending().contains_key(other) implies self.pending()[other]
                == wanted[other] by {
                let k = choose|k: int| 0 <= k < after.len() && after[k].id == other;
                assert(before[shift(k)].id == other);
            }
            assert(self.pending() =~= wanted);
        }
        found.is_some()
    }

    /// Puts `event` into the mailbox of every subscriber, behind what is
    /// there. Without subscribers the event is dropped.
    pub fn publish(&mut self, event: &Event)
        ensures
            final(self).pending().dom() == old(self).pending().dom(),
            forall|id: u64| #[trigger]
                old(self).pending().contains_key(id) ==> final(self).pending()[id] == old(
                    self,
                ).pending()[id].push(event@),
            final(self).next_id() == old(self).next_id(),
    {
        proof {
            use_type_invariant(&*self);
            self.lemma_pending();
        }
        let mut mailboxes: Vec<Mailbox> = Vec::new();
        std::mem::swap(&mut mailboxes, &mut self.mailboxes);
        let ghost before = mailboxes@;
        let n: usize = mailboxes.len();
        let mut i: usize = 0;
        while i < n
            invariant
                i <= n,
                n == before.len(),
                mailboxes@.len() == n,
                forall|k: int| 0 <= k < n ==> (#[trigger] mailboxes@[k]).id == before[k].id,
                forall|k: int|
                    0 <= k < i ==> pending_views((#[trigger] mailboxes@[k]).pending@)
                        == pending_views(before[k].pending@).push(event@),
                forall|k: int| i <= k < n ==> #[trigger] mailboxes@[k] == before[k],
            decreases n - i,
        {
            mailboxes[i].pending.push(event.duplicate());
            i = i + 1;
        }
        let ghost after = mailboxes@;
        self.mailboxes = mailboxes;
        proof {
            self.lemma_pending();
            assert forall|id: u64| #[trigger]
                self.pending().contains_key(id) == old(self).pending().contains_key(id) by {
                if self.pending().contains_key(id) {
                    let k = choose|k: int| 0 <= k < after.len() && after[k].id == id;
                    assert(before[k].id == id);
                }
                if old(self).pending().contains_key(id) {
                    let k = choose|k: int| 0 <= k < before.len() && before[k].id == id;
                    assert(after[k].id == id);
                }
            }
            assert(self.pending().dom() =~= old(self).pending().dom());
            assert forall|id: u64| #[trigger]
                old(self).pending().contains_key(id) implies self.pending()[id] == old(
                self,
            ).pending()[id].push(event@) by {
                let k = choose|k: int| 0 <= k < before.len() && before[k].id == id;
                assert(after[k].id == id);
            }
        }
    }

    /// Empties the mailbox of subscriber `id` and returns what was in it,
    /// oldest first. For a number without a subscriber nothing comes back.
    pub fn take(&mut self, id: u64) -> (events: Vec<Event>)
        ensures
            pending_views(events@) == (if old(self).pending().contains_key(id) {
                old(self).pending()[id]
            } else {
                Seq::empty()
            }),
            final(self).pending() == (if old(self).pending().contains_key(id) {
                old(self).pending().insert(id, Seq::empty())
            } else {
                old(self).pending()
            }),
            final(self).next_id() == old(self).next_id(),
    {
        proof {
            use_type_invariant(&*self);
            self.lemma_pending();
        }
        let mut mailboxes: Vec<Mailbox> = Vec::new();
        std::mem::swap(&mut mailboxes, &mut self.mailboxes);
        let ghost before = mailboxes@;
        let found = Self::find(&mailboxes, id);
        let mut events: Vec<Event> = Vec::new();
        match found {
            Some(at) => {
                std::mem::swap(&mut events, &mut mailboxes[at].pending);
            },
            None => {},
        }
        let ghost after = mailboxes@;
        let ghost emptied: int = match found {
            Some(at) => at as int,
            None => -1,
        };
        assert(after.len() == before.len());
        assert(forall|k: int| 0 <= k < after.len() ==> (#[trigger] after[k]).id == before[k].id);
        assert(forall|k: int|
            0 <= k < after.len() && k != emptied ==> #[trigger] after[k] == before[k]);
        assert(emptied >= 0 ==> after[emptied].pending@ =~= Seq::<Event>::empty() && events@
            == before[emptied].pending@);
        self.mailboxes = mailboxes;
        proof {
            self.lemma_pending();
            let wanted = if old(self).pending().contains_key(id) {
                old(self).pending().insert(id, Seq::empty())
            } else {
                old(self).pending()
            };
            assert forall|other: u64| #[trigger]
                self.pending().contains_key(other) == wanted.contains_key(other) by {
                if self.pending().contains_key(other) {
                    let k = choose|k: int| 0 <= k < after.len() && after[k].id == other;
                    assert(before[k].id == other);
                }
                if old(self).pending().contains_key(other) {
                    let k = choose|k: int| 0 <= k < before.len() && before[k].id == other;
                    assert(after[k].id == other);
                }
            }
            assert forall|other: u64| #[trigger]
                self.pending().contains_key(other) implies self.pending()[other]
                == wanted[other] by {
                let k = choose|k: int| 0 <= k < after.len() && after[k].id == other;
                assert(before[k].id == other);
                if k == emptied {
                    assert(pending_views(after[k].pending@) =~= Seq::<EventView>::empty());
                }
            }
            assert(self.pending() =~= wanted);
        }
        events
    }
}

} // verus!
