use vstd::prelude::*;

verus! {

/// How many messages of history the hub keeps for a lagging subscriber
/// before it starts discarding the oldest unread ones.
pub const DEFAULT_CAPACITY: usize = 100;

/// Outcome of one non-blocking read on a subscriber's receive handle.
pub enum RecvOutcome {
    /// The next unread message, in publish order.
    Message(String),
    /// The subscriber fell more than the retained history behind: this many
    /// messages were discarded for it, and its cursor has been moved forward
    /// to the oldest message still retained.
    Lagged(u64),
    /// Every published message has been observed; nothing is pending.
    Empty,
}

/// A per-subscriber cursor into the hub's publish log: the index of the next
/// message this subscriber has yet to observe.
pub struct Subscriber {
    next: u64,
}

impl Subscriber {
    /// The log index of the next message to be observed.
    pub closed spec fn cursor(self) -> int {
        self.next as int
    }

    /// The cursor never runs past the end of the hub's publish log.
    pub open spec fn attached(self, h: Hub) -> bool {
        0 <= self.cursor() <= h.log().len()
    }
}

/// The broadcast hub: the single distribution point of the relay.
///
/// Every published line is appended to a logical publish log; each
/// subscriber owns a cursor into that log.  Only the most recent
/// `capacity` entries are retained, so a subscriber that falls further
/// behind loses the oldest unread messages (they are skipped, never
/// delivered) instead of ever blocking a publisher.
pub struct Hub {
    entries: Vec<String>,
    published: u64,
    capacity: usize,
    log: Ghost<Seq<Seq<char>>>,
}

impl Hub {
    /// The full sequence of every message ever published, in publish order.
    pub closed spec fn log(self) -> Seq<Seq<char>> {
        self.log@
    }

    /// The bound on retained history.
    pub closed spec fn capacity(self) -> int {
        self.capacity as int
    }

    /// How many of the most recent messages are still retained.
    pub open spec fn retained(self) -> int {
        if self.log().len() <= self.capacity() {
            self.log().len() as int
        } else {
            self.capacity()
        }
    }

    /// The log index of the oldest message still retained.
    pub open spec fn oldest_retained(self) -> int {
        self.log().len() - self.retained()
    }

    pub closed spec fn wf(self) -> bool {
        &&& self.capacity >= 1
        &&& self.published as int == self.log@.len()
        &&& self.entries@.len() == self.retained()
        &&& (forall|i: int|
            0 <= i < self.entries@.len() ==> self.entries@[i]@ == self.log@[self.oldest_retained()
                + i])
    }

    /// A fresh hub with no messages published yet.
    pub fn new(capacity: usize) -> (h: Hub)
        requires
            capacity >= 1,
        ensures
            h.wf(),
            h.log() == Seq::<Seq<char>>::empty(),
            h.capacity() == capacity,
    {
        Hub { entries: Vec::new(), published: 0, capacity, log: Ghost(Seq::empty()) }
    }

    /// Append `message` to the publish log.  Publishing never blocks and
    /// never fails, whatever the number or speed of the subscribers; if the
    /// retained history is full, the oldest retained message is discarded.
    pub fn publish(&mut self, message: String)
        requires
            old(self).wf(),
            old(self).log().len() < u64::MAX,
        ensures
            final(self).wf(),
            final(self).log() == old(self).log().push(message@),
            final(self).capacity() == old(self).capacity(),
    {
        let ghost m: Seq<char> = message@;
        if self.entries.len() == self.capacity {
            self.entries.remove(0);
        }
        self.entries.push(message);
        self.published = self.published + 1;
        proof {
            self.log@ = self.log@.push(m);
        }
        assert(self.wf()) by {
            // Every retained entry except the newly pushed one was already
            // retained before, one place later if the oldest was dropped.
            let shift = old(self).entries@.len() - (self.entries@.len() - 1);
            assert forall|i: int| 0 <= i < self.entries@.len() implies self.entries@[i]@
                == self.log@[self.oldest_retained() + i] by {
                if i < self.entries@.len() - 1 {
                    assert(old(self).entries@[i + shift]@ == old(self).log@[old(
                        self,
                    ).oldest_retained() + (i + shift)]);
                }
            }
        }
    }

    /// Where a subscriber whose cursor stands at `c` actually resumes
    /// reading: at `c` itself, or at the oldest retained message if the
    /// messages at `c` have already been discarded.
    pub open spec fn resume_point(self, c: int) -> int {
        if c < self.oldest_retained() {
            self.oldest_retained()
        } else {
            c
        }
    }

    /// A new receive handle that observes only the messages published from
    /// this point forward: its cursor starts at the current end of the log,
    /// so nothing published earlier is ever replayed to it.
    pub fn subscribe(&self) -> (s: Subscriber)
        requires
            self.wf(),
        ensures
            s.attached(*self),
            s.cursor() == self.log().len(),
    {
        Subscriber { next: self.published }
    }

    /// What a subscriber whose cursor stands at `c` observes over the next
    /// `reads` reads, assuming nothing further is published meanwhile: a
    /// first read past discarded history costs one read (the gap notice) and
    /// resumes at the oldest retained message; after that each read yields
    /// the next retained message until the log is exhausted.
    pub open spec fn observed(self, c: int, reads: nat) -> Seq<Seq<char>>
        decreases reads,
    {
        if reads == 0 || c >= self.log().len() {
            Seq::empty()
        } else if c < self.oldest_retained() {
            self.observed(self.oldest_retained(), (reads - 1) as nat)
        } else {
            seq![self.log()[c]] + self.observed(c + 1, (reads - 1) as nat)
        }
    }

    /// One non-blocking read on `sub`'s handle.  Exactly one of the three
    /// outcomes happens: the cursor is at the end of the log and nothing is
    /// pending; the cursor fell behind the retained history, so the handle
    /// reports how many messages it lost and skips to the oldest retained
    /// one; or the next message is delivered and the cursor advances by one.
    pub fn recv(&self, sub: &mut Subscriber) -> (r: RecvOutcome)
        requires
            self.wf(),
            old(sub).attached(*self),
        ensures
            final(sub).attached(*self),
            final(sub).cursor() >= old(sub).cursor(),
            ({
                let c = old(sub).cursor();
                &&& (c == self.log().len() ==> r is Empty && final(sub).cursor() == c)
                &&& (c < self.oldest_retained() ==> (r matches RecvOutcome::Lagged(k) && k as int
                    == self.oldest_retained() - c) && final(sub).cursor() == self.oldest_retained())
                &&& (self.oldest_retained() <= c < self.log().len() ==> (r
                    matches RecvOutcome::Message(m) && m@ == self.log()[c]) && final(sub).cursor()
                    == c + 1)
            }),
    {
        let c: u64 = sub.next;
        if c == self.published {
            RecvOutcome::Empty
        } else {
            let oldest: u64 = self.published - (self.entries.len() as u64);
            if c < oldest {
                sub.next = oldest;
                RecvOutcome::Lagged(oldest - c)
            } else {
                let idx: usize = (c - oldest) as usize;
                let message: String = self.entries[idx].clone();
                sub.next = c + 1;
                RecvOutcome::Message(message)
            }
        }
    }
}

/// Delivery follows publish order, with nothing reordered, duplicated or
/// invented: a subscriber standing at cursor `c` that reads often enough,
/// with no further publishes meanwhile, observes exactly the contiguous
/// suffix of the publish log that starts where it resumes — at `c` itself
/// when its backlog is within the retained history, at the oldest retained
/// message otherwise.
pub proof fn lemma_deliveries_follow_publish_order(h: Hub, c: int, reads: nat)
    requires
        0 <= c <= h.log().len(),
        reads > h.log().len() - c,
    ensures
        h.observed(c, reads) == h.log().subrange(h.resume_point(c), h.log().len() as int),
    decreases reads,
{
    let n = h.log().len() as int;
    if c >= n {
        assert(h.observed(c, reads) =~= h.log().subrange(h.resume_point(c), n));
    } else if c < h.oldest_retained() {
        lemma_deliveries_follow_publish_order(h, h.oldest_retained(), (reads - 1) as nat);
    } else {
        lemma_deliveries_follow_publish_order(h, c + 1, (reads - 1) as nat);
        assert(h.observed(c, reads) =~= h.log().subrange(h.resume_point(c), n));
    }
}

/// No replay: whatever a subscriber observes from cursor `c` onward sits at
/// a log index at or after `c`.  In particular a handle returned by
/// `subscribe`, whose cursor starts at the end of the log, never observes a
/// message published before it subscribed.
pub proof fn lemma_no_replay(h: Hub, c: int, reads: nat)
    requires
        0 <= c <= h.log().len(),
        reads > h.log().len() - c,
    ensures
        h.resume_point(c) >= c,
        forall|k: int|
            0 <= k < h.observed(c, reads).len() ==> h.observed(c, reads)[k] == h.log()[
                h.resume_point(c) + k
            ],
{
    lemma_deliveries_follow_publish_order(h, c, reads);
}

/// A message still within the retained history is eventually delivered: if
/// `i` is at or past the subscriber's cursor and not yet discarded, enough
/// reads observe the message published as entry `i`, at its place in
/// publish order.
pub proof fn lemma_eventual_delivery(h: Hub, c: int, i: int, reads: nat)
    requires
        0 <= c <= i < h.log().len(),
        h.oldest_retained() <= i,
        reads > h.log().len() - c,
    ensures
        0 <= i - h.resume_point(c) < h.observed(c, reads).len(),
        h.observed(c, reads)[i - h.resume_point(c)] == h.log()[i],
{
    lemma_deliveries_follow_publish_order(h, c, reads);
}

/// Overflow is survived, not fatal: a subscriber stalled past the retained
/// history (so its next read surfaces a gap notice) afterwards resumes with
/// exactly the most recent `retained` messages — at most the hub's capacity
/// — and the publisher was never blocked.
pub proof fn lemma_overflow_recovery(h: Hub, c: int, reads: nat)
    requires
        0 <= c < h.oldest_retained(),
        reads > h.log().len() - c,
    ensures
        h.observed(c, reads) == h.log().subrange(h.oldest_retained(), h.log().len() as int),
        h.observed(c, reads).len() == h.retained(),
        h.retained() <= h.capacity(),
{
    lemma_deliveries_follow_publish_order(h, c, reads);
}

} // verus!
