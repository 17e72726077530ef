//! Matching responses to the requests that are waiting for them.
//!
//! Each request of a connection gets the next sequence number, starting at
//! 1, and registers a waiter under it. A response carries the sequence
//! number of its request; the waiter registered under that number receives
//! it, once. Messages that no waiter claims are broadcast.
use std::collections::HashMap;
use vstd::prelude::*;

verus! {

broadcast use vstd::std_specs::hash::group_hash_axioms;

/// The abstract state of a tracker: the last sequence number issued and the
/// waiters of the requests still unanswered.
pub struct TrackerView<W> {
    pub last_seq: u32,
    pub pending: Map<u32, W>,
}

/// Sequence numbers and waiters of the requests in flight on one
/// connection.
pub struct RequestTracker<W> {
    last_seq: u32,
    pending: HashMap<u32, W>,
}

impl<W> View for RequestTracker<W> {
    type V = TrackerView<W>;

    closed spec fn view(&self) -> TrackerView<W> {
        TrackerView { last_seq: self.last_seq, pending: self.pending@ }
    }
}

impl<W> TrackerView<W> {
    /// Every waiting request was issued a number between 1 and the last one.
    pub open spec fn issued_numbers_only(self) -> bool {
        forall|seq: u32| #[trigger] self.pending.contains_key(seq) ==> 1 <= seq <= self.last_seq
    }
}

/// The tracker after `begin` registers `waiter`: the next number is issued
/// and the waiter is registered under it.
pub open spec fn begun<W>(t: TrackerView<W>, waiter: W) -> TrackerView<W> {
    let seq = (t.last_seq + 1) as u32;
    TrackerView { last_seq: seq, pending: t.pending.insert(seq, waiter) }
}

impl<W> RequestTracker<W> {
    /// A tracker that has issued no number.
    pub fn new() -> (r: RequestTracker<W>)
        ensures
            r@.last_seq == 0,
            r@.pending == Map::<u32, W>::empty(),
            r@.issued_numbers_only(),
    {
        RequestTracker { last_seq: 0, pending: HashMap::new() }
    }

    /// Forgets every waiter and starts numbering again from 1, as a new
    /// connection does.
    pub fn reset(&mut self)
        ensures
            final(self)@.last_seq == 0,
            final(self)@.pending == Map::<u32, W>::empty(),
            final(self)@.issued_numbers_only(),
    {
        self.pending.clear();
        self.last_seq = 0;
    }

    /// Whether another sequence number can be issued.
    pub fn can_begin(&self) -> (r: bool)
        ensures
            r == (self@.last_seq < u32::MAX),
    {
        self.last_seq < u32::MAX
    }

    /// Issues the next sequence number and registers `waiter` under it. The
    /// number was never issued before on this connection, so no waiter is
    /// displaced.
    pub fn begin(&mut self, waiter: W) -> (seq: u32)
        requires
            old(self)@.last_seq < u32::MAX,
            old(self)@.issued_numbers_only(),
        ensures
            final(self)@.issued_numbers_only(),
            seq == old(self)@.last_seq + 1,
            !old(self)@.pending.contains_key(seq),
            final(self)@ == begun(old(self)@, waiter),
    {
        let seq = self.last_seq + 1;
        self.last_seq = seq;
        self.pending.insert(seq, waiter);
        proof {
            assert forall|k: u32| #[trigger] self.pending@.contains_key(k) implies 1 <= k
                <= self.last_seq by {
                if k != seq {
                    assert(old(self)@.pending.contains_key(k));
                }
            }
        }
        seq
    }

    /// Removes and returns the waiter registered under `seq`, if any.
    pub fn complete(&mut self, seq: u32) -> (waiter: Option<W>)
        ensures
            final(self)@.last_seq == old(self)@.last_seq,
            final(self)@.pending == old(self)@.pending.remove(seq),
            old(self)@.issued_numbers_only() ==> final(self)@.issued_numbers_only(),
            waiter == (if old(self)@.pending.contains_key(seq) {
                Some(old(self)@.pending[seq])
            } else {
                None::<W>
            }),
    {
        self.pending.remove(&seq)
    }

    /// Routes an incoming message: one that answers a request (it carries
    /// `Some` sequence number) goes to the waiter of that request, if one is
    /// still registered. `None` means the message is to be broadcast.
    pub fn route(&mut self, response_seq: Option<u32>) -> (waiter: Option<W>)
        ensures
            final(self)@.last_seq == old(self)@.last_seq,
            old(self)@.issued_numbers_only() ==> final(self)@.issued_numbers_only(),
            match response_seq {
                None => {
                    &&& waiter is None
                    &&& final(self)@.pending == old(self)@.pending
                },
                Some(seq) => {
                    &&& final(self)@.pending == old(self)@.pending.remove(seq)
                    &&& waiter == (if old(self)@.pending.contains_key(seq) {
                        Some(old(self)@.pending[seq])
                    } else {
                        None::<W>
                    })
                },
            },
    {
        match response_seq {
            Some(seq) => self.complete(seq),
            None => None,
        }
    }
}

/// A response to a request reaches the waiter registered by `begin` for it,
/// and only once: after it is taken, nothing is waiting under that number,
/// and the other waiters are as before.
pub proof fn lemma_reply_reaches_waiter_once<W>(pending: Map<u32, W>, seq: u32, waiter: W)
    requires
        !pending.contains_key(seq),
    ensures
        pending.insert(seq, waiter).contains_key(seq),
        pending.insert(seq, waiter)[seq] == waiter,
        pending.insert(seq, waiter).remove(seq) == pending,
        !pending.insert(seq, waiter).remove(seq).contains_key(seq),
{
    assert(pending.insert(seq, waiter).remove(seq) =~= pending);
}

/// The tracker after `begin` is called with each of `waiters` in turn, and
/// the numbers those calls return.
pub open spec fn begun_run<W>(t: TrackerView<W>, waiters: Seq<W>) -> (TrackerView<W>, Seq<u32>)
    decreases waiters.len(),
{
    if waiters.len() == 0 {
        (t, seq![])
    } else {
        let (before, numbers) = begun_run(t, waiters.drop_last());
        (begun(before, waiters.last()), numbers.push((before.last_seq + 1) as u32))
    }
}

/// After a reset, `n` requests begun one after another get the numbers 1 to
/// `n`, in order, so no two get the same number; each waiter is registered
/// under its request's number.
pub proof fn lemma_numbers_after_reset<W>(waiters: Seq<W>)
    requires
        waiters.len() <= u32::MAX,
    ensures
        ({
            let (t, numbers) = begun_run(
                TrackerView { last_seq: 0, pending: Map::<u32, W>::empty() },
                waiters,
            );
            &&& t.last_seq == waiters.len()
            &&& numbers.len() == waiters.len()
            &&& forall|i: int| 0 <= i < numbers.len() ==> #[trigger] numbers[i] == i + 1
            &&& forall|i: int|
                0 <= i < waiters.len() ==> #[trigger] t.pending.contains_key((i + 1) as u32)
                    && t.pending[(i + 1) as u32] == waiters[i]
        }),
    decreases waiters.len(),
{
    let start = TrackerView { last_seq: 0, pending: Map::<u32, W>::empty() };
    if waiters.len() > 0 {
        let rest = waiters.drop_last();
        lemma_numbers_after_reset(rest);
        let (before, numbers) = begun_run(start, rest);
        let (t, all) = begun_run(start, waiters);
        assert forall|i: int| 0 <= i < all.len() implies #[trigger] all[i] == i + 1 by {
            if i < numbers.len() {
                assert(all[i] == numbers[i]);
            }
        }
        assert forall|i: int| 0 <= i < waiters.len() implies #[trigger] t.pending.contains_key(
            (i + 1) as u32,
        ) && t.pending[(i + 1) as u32] == waiters[i] by {
            if i < rest.len() {
                assert(rest[i] == waiters[i]);
                assert(before.pending.contains_key((i + 1) as u32));
            }
        }
    }
}

} // verus!
