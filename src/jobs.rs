//! The job queue: callers submit work with a continuation token and later
//! collect each token together with its job's result, in completion order.
//!
//! The queue keeps the books; running the work is the caller's part. Each
//! submission gets a fresh ticket, the worker reports the result under that
//! ticket, and the result is delivered once with the token given at submission.
use std::collections::HashMap;
use vstd::prelude::*;

verus! {

broadcast use vstd::std_specs::hash::group_hash_axioms;

/// The queue's contents: the pending jobs' tokens by ticket, the completed
/// jobs (token and result) in completion order, and the next ticket.
pub struct JobQueueView<K, R> {
    pub pending: Map<u64, K>,
    pub done: Seq<(K, R)>,
    pub next: u64,
}

/// Reports the result of the job with `ticket`: a pending job moves to the end
/// of the completed jobs; any other ticket changes nothing.
pub open spec fn finish_spec<K, R>(v: JobQueueView<K, R>, ticket: u64, result: R) -> JobQueueView<K, R> {
    if v.pending.contains_key(ticket) {
        JobQueueView {
            pending: v.pending.remove(ticket),
            done: v.done.push((v.pending[ticket], result)),
            next: v.next,
        }
    } else {
        v
    }
}

/// Reports the results of the jobs with the tickets in `order`, one after another.
pub open spec fn finish_in_order<K, R>(v: JobQueueView<K, R>, order: Seq<u64>, results: Seq<R>) -> JobQueueView<K, R>
    decreases order.len(),
{
    if order.len() == 0 || results.len() == 0 {
        v
    } else {
        finish_in_order(finish_spec(v, order[0], results[0]), order.drop_first(), results.drop_first())
    }
}

/// Tracks submitted jobs until their results are collected.
pub struct JobQueue<K, R> {
    pending: HashMap<u64, K>,
    done: Vec<(K, R)>,
    next_ticket: u64,
}

impl<K, R> View for JobQueue<K, R> {
    type V = JobQueueView<K, R>;

    closed spec fn view(&self) -> JobQueueView<K, R> {
        JobQueueView { pending: self.pending@, done: self.done@, next: self.next_ticket }
    }
}

impl<K, R> JobQueue<K, R> {
    /// Every pending ticket was handed out already.
    pub closed spec fn wf(&self) -> bool {
        forall|t: u64| #[trigger] self.pending@.contains_key(t) ==> t < self.next_ticket
    }

    /// An empty queue.
    pub fn new() -> (r: JobQueue<K, R>)
        ensures
            r.wf(),
            r@.pending == Map::<u64, K>::empty(),
            r@.done == Seq::<(K, R)>::empty(),
            r@.next == 0,
    {
        JobQueue { pending: HashMap::new(), done: Vec::new(), next_ticket: 0 }
    }

    /// Whether another job can be submitted (tickets are not used up).
    pub fn can_submit(&self) -> (r: bool)
        ensures
            r == (self@.next < u64::MAX),
    {
        self.next_ticket < u64::MAX
    }

    /// Enqueues a job with its continuation token and returns its ticket.
    pub fn submit(&mut self, token: K) -> (ticket: u64)
        requires
            old(self).wf(),
            old(self)@.next < u64::MAX,
        ensures
            final(self).wf(),
            ticket == old(self)@.next,
            !old(self)@.pending.contains_key(ticket),
            final(self)@.pending == old(self)@.pending.insert(ticket, token),
            final(self)@.done == old(self)@.done,
            final(self)@.next == old(self)@.next + 1,
    {
        let ticket = self.next_ticket;
        self.pending.insert(ticket, token);
        self.next_ticket = ticket + 1;
        ticket
    }

    /// Records the result of the job with `ticket`; returns whether that job
    /// was pending.
    pub fn finish(&mut self, ticket: u64, result: R) -> (accepted: bool)
        requires
            old(self).wf(),
        ensures
            final(self).wf(),
            accepted == old(self)@.pending.contains_key(ticket),
            final(self)@ == finish_spec(old(self)@, ticket, result),
    {
        match self.pending.remove(&ticket) {
            Some(token) => {
                self.done.push((token, result));
                assert(self.pending@ =~= old(self).pending@.remove(ticket));
                assert(self.done@ =~= old(self).done@.push((old(self).pending@[ticket], result)));
                true
            },
            None => {
                assert(self.pending@ =~= old(self).pending@);
                false
            },
        }
    }

    /// Takes the job that completed first among those not collected yet.
    pub fn resolve_one(&mut self) -> (r: Option<(K, R)>)
        requires
            old(self).wf(),
        ensures
            final(self).wf(),
            final(self)@.pending == old(self)@.pending,
            final(self)@.next == old(self)@.next,
            old(self)@.done.len() == 0 ==> r is None && final(self)@.done == old(self)@.done,
            old(self)@.done.len() > 0 ==> r == Some(old(self)@.done[0]) && final(self)@.done
                == old(self)@.done.drop_first(),
    {
        if self.done.len() == 0 {
            None
        } else {
            Some(self.done.remove(0))
        }
    }

    /// Takes every completed job not collected yet, in completion order.
    pub fn resolve_all(&mut self) -> (r: Vec<(K, R)>)
        requires
            old(self).wf(),
        ensures
            final(self).wf(),
            r@ == old(self)@.done,
            final(self)@.pending == old(self)@.pending,
            final(self)@.done.len() == 0,
            final(self)@.next == old(self)@.next,
    {
        let mut out: Vec<(K, R)> = Vec::new();
        core::mem::swap(&mut out, &mut self.done);
        out
    }

    /// Whether no job is pending and none waits to be collected.
    pub fn is_empty(&self) -> (r: bool)
        ensures
            r == (self@.pending.dom().len() == 0 && self@.done.len() == 0),
    {
        self.pending.len() == 0 && self.done.len() == 0
    }

    /// The number of jobs still running.
    pub fn pending_count(&self) -> (r: usize)
        ensures
            r == self@.pending.dom().len(),
    {
        self.pending.len()
    }
}

/// Every job is delivered exactly once: when the results of pending jobs are
/// reported under distinct tickets, in any order, each reported job lands at
/// the end of the completed jobs with the token it was submitted with, and
/// leaves the pending jobs. Reporting every pending ticket leaves none pending
/// and exactly as many completed jobs as were pending.
pub proof fn lemma_delivery<K, R>(v: JobQueueView<K, R>, order: Seq<u64>, results: Seq<R>)
    requires
        order.no_duplicates(),
        order.len() == results.len(),
        forall|i: int| 0 <= i < order.len() ==> v.pending.contains_key(#[trigger] order[i]),
    ensures
        ({
            let w = finish_in_order(v, order, results);
            &&& w.done.len() == v.done.len() + order.len()
            &&& w.done.take(v.done.len() as int) == v.done
            &&& forall|i: int|
                0 <= i < order.len() ==> #[trigger] w.done[v.done.len() + i] == (
                    v.pending[order[i]],
                    results[i],
                )
            &&& w.pending.dom() == v.pending.dom().difference(order.to_set())
            &&& order.to_set() == v.pending.dom() ==> w.pending.dom().len() == 0 && w.done.len()
                == v.done.len() + v.pending.dom().len()
        }),
    decreases order.len(),
{
    if order.len() == 0 {
        assert(order.to_set() =~= Set::<u64>::empty());
        assert(v.pending.dom().difference(order.to_set()) =~= v.pending.dom());
        assert(v.done.take(v.done.len() as int) =~= v.done);
    } else {
        let t = order[0];
        let rest = order.drop_first();
        let v1 = finish_spec(v, t, results[0]);
        assert forall|i: int| 0 <= i < rest.len() implies v1.pending.contains_key(#[trigger] rest[i]) by {
            assert(rest[i] == order[i + 1]);
            assert(order[i + 1] != order[0]);
        }
        lemma_delivery(v1, rest, results.drop_first());
        let w = finish_in_order(v, order, results);
        assert(w == finish_in_order(v1, rest, results.drop_first()));
        assert(w.done.take(v.done.len() as int) =~= v.done) by {
            assert(w.done.take(v1.done.len() as int) == v1.done);
            assert(w.done.take(v.done.len() as int) =~= v1.done.take(v.done.len() as int));
            assert(v1.done.take(v.done.len() as int) =~= v.done);
        }
        assert forall|i: int| 0 <= i < order.len() implies #[trigger] w.done[v.done.len() + i] == (
            v.pending[order[i]],
            results[i],
        ) by {
            if i == 0 {
                assert(w.done.take(v1.done.len() as int) == v1.done);
                assert(w.done[v.done.len() as int] == w.done.take(v1.done.len() as int)[v.done.len() as int]);
            } else {
                assert(w.done[v1.done.len() + (i - 1)] == (v1.pending[rest[i - 1]], results.drop_first()[i - 1]));
                assert(rest[i - 1] == order[i]);
                assert(order[i] != order[0]);
            }
        }
        assert(order.to_set() =~= rest.to_set().insert(t)) by {
            assert forall|x: u64| order.to_set().contains(x) implies rest.to_set().insert(t).contains(x) by {
                let j = choose|j: int| 0 <= j < order.len() && order[j] == x;
                if j > 0 {
                    assert(rest[j - 1] == x);
                }
            }
            assert forall|x: u64| rest.to_set().insert(t).contains(x) implies order.to_set().contains(x) by {
                if x != t {
                    let j = choose|j: int| 0 <= j < rest.len() && rest[j] == x;
                    assert(order[j + 1] == x);
                } else {
                    assert(order[0] == x);
                }
            }
        }
        assert(w.pending.dom() =~= v.pending.dom().difference(order.to_set()));
        if order.to_set() == v.pending.dom() {
            assert(w.pending.dom() =~= Set::<u64>::empty());
            order.unique_seq_to_set();
        }
    }
}

} // verus!
