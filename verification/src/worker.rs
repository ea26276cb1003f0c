//! The delivery worker: a FIFO queue between the inbound event path
//! and the outbound chat client. Producers enqueue without waiting on
//! the outbound call; a consumer drains the queue in acceptance order,
//! so requests for one recipient are attempted in the order accepted.
//!
//! The backpressure policy here is an unbounded queue: acceptance
//! never blocks and never drops, at the price of unbounded memory
//! under a sustained outbound outage. Outbound failures are the
//! consumer's to retry or log; they never reach the producers.

use vstd::prelude::*;

use crate::slack::{RequestView, SlackRecipient, SlackRequest};

verus! {

/// Accepts delivery requests and hands them out first-in first-out.
pub struct DeliveryWorker {
    queue: Vec<SlackRequest>,
}

impl DeliveryWorker {
    /// The accepted, not yet delivered requests, oldest first.
    pub closed spec fn pending(self) -> Seq<SlackRequest> {
        self.queue@
    }

    /// The views of the pending requests, oldest first.
    pub open spec fn pending_views(self) -> Seq<RequestView> {
        self.pending().map_values(|r: SlackRequest| r@)
    }

    /// A worker with nothing pending.
    pub fn new() -> (w: DeliveryWorker)
        ensures
            w.pending() == Seq::<SlackRequest>::empty(),
    {
        DeliveryWorker { queue: Vec::new() }
    }

    /// Accepts a request: appends it to the queue and returns at once,
    /// never waiting on the outbound call.
    pub fn accept(&mut self, request: SlackRequest)
        ensures
            final(self).pending() == old(self).pending().push(request),
    {
        self.queue.push(request);
    }

    /// Hands out the oldest pending request, or nothing when the queue
    /// is empty.
    pub fn take_next(&mut self) -> (r: Option<SlackRequest>)
        ensures
            old(self).pending().len() == 0 ==> r is None,
            old(self).pending().len() == 0 ==> final(self).pending() == old(self).pending(),
            old(self).pending().len() > 0 ==> r == Some(old(self).pending()[0]),
            old(self).pending().len() > 0 ==> final(self).pending() == old(
                self,
            ).pending().drop_first(),
    {
        if self.queue.len() == 0 {
            None
        } else {
            let r = self.queue.remove(0);
            proof {
                assert(self.queue@ =~= old(self).pending().drop_first());
            }
            Some(r)
        }
    }

    /// How many requests are pending.
    pub fn pending_len(&self) -> (n: usize)
        ensures
            n == self.pending().len(),
    {
        self.queue.len()
    }
}

/// The subsequence of `q` addressed to `rec`, in queue order.
pub open spec fn for_recipient(q: Seq<SlackRequest>, rec: SlackRecipient) -> Seq<SlackRequest>
    decreases q.len(),
{
    if q.len() == 0 {
        Seq::<SlackRequest>::empty()
    } else {
        let rest = for_recipient(q.drop_last(), rec);
        if q.last().recipient == rec {
            rest.push(q.last())
        } else {
            rest
        }
    }
}

/// Handing out the head of the queue takes the head of its own
/// recipient's subsequence and leaves every other recipient's
/// subsequence unchanged: so a full drain attempts each recipient's
/// requests exactly in the order they were accepted.
pub proof fn lemma_take_next_keeps_recipient_order(q: Seq<SlackRequest>, rec: SlackRecipient)
    requires
        q.len() > 0,
    ensures
        q[0].recipient == rec ==> for_recipient(q, rec) == seq![q[0]] + for_recipient(
            q.drop_first(),
            rec,
        ),
        q[0].recipient != rec ==> for_recipient(q, rec) == for_recipient(q.drop_first(), rec),
    decreases q.len(),
{
    if q.len() == 1 {
        assert(q.drop_last() =~= Seq::<SlackRequest>::empty());
        assert(q.drop_first() =~= Seq::<SlackRequest>::empty());
        assert(for_recipient(Seq::<SlackRequest>::empty(), rec) =~= Seq::<SlackRequest>::empty());
        assert(q.last() == q[0]);
        if q[0].recipient == rec {
            assert(for_recipient(q, rec) =~= seq![q[0]] + for_recipient(q.drop_first(), rec));
        }
    } else {
        let qp = q.drop_last();
        lemma_take_next_keeps_recipient_order(qp, rec);
        assert(qp[0] == q[0]);
        assert(qp.drop_first() =~= q.drop_first().drop_last());
        assert(q.drop_first().last() == q.last());
        assert(q.drop_first().len() > 0);
        if q[0].recipient == rec {
            if q.last().recipient == rec {
                assert(for_recipient(q, rec) == for_recipient(qp, rec).push(q.last()));
                assert(for_recipient(q.drop_first(), rec) == for_recipient(
                    q.drop_first().drop_last(),
                    rec,
                ).push(q.last()));
                assert(for_recipient(q, rec) =~= seq![q[0]] + for_recipient(q.drop_first(), rec));
            } else {
                assert(for_recipient(q, rec) == for_recipient(qp, rec));
                assert(for_recipient(q.drop_first(), rec) == for_recipient(
                    q.drop_first().drop_last(),
                    rec,
                ));
                assert(for_recipient(q, rec) =~= seq![q[0]] + for_recipient(q.drop_first(), rec));
            }
        } else {
            if q.last().recipient == rec {
                assert(for_recipient(q, rec) =~= for_recipient(q.drop_first(), rec));
            } else {
                assert(for_recipient(q, rec) =~= for_recipient(q.drop_first(), rec));
            }
        }
    }
}

/// Accepting a request appends it to the subsequence for its own
/// recipient and leaves every other recipient's subsequence unchanged.
/// Together with `take_next`, which hands requests out in queue order,
/// this says that requests accepted for one recipient are attempted in
/// acceptance order, whatever is accepted for others in between.
pub proof fn lemma_accept_keeps_recipient_order(
    q: Seq<SlackRequest>,
    request: SlackRequest,
    rec: SlackRecipient,
)
    ensures
        request.recipient == rec ==> for_recipient(q.push(request), rec) == for_recipient(
            q,
            rec,
        ).push(request),
        request.recipient != rec ==> for_recipient(q.push(request), rec) == for_recipient(q, rec),
{
    let q2 = q.push(request);
    assert(q2.drop_last() =~= q);
    assert(q2.last() == request);
}

} // verus!
