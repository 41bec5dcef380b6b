//! Batching of completed traces.
//!
//! The aggregator owns a mapping from operation key to the traces
//! accumulated since the last flush. It is driven by one sequential
//! consumer: each `ingest` appends a trace to its key's bucket and, once
//! the running count crosses the configured threshold, swaps the whole
//! mapping out for a fresh empty one and hands it back as one batch. The
//! swap happens before any reporting work, so a failed submission can
//! never touch the next batch's state.
//!
//! Completed traces reach the aggregator over a bounded queue
//! (`TraceQueue`): a full queue makes the producer wait — nothing is
//! dropped and no error is raised.

use vstd::prelude::*;

use crate::trace::Trace;

verus! {

/// The traces accumulated for one operation key, in arrival order.
#[derive(Debug)]
pub struct Bucket {
    pub key: String,
    pub traces: Vec<Trace>,
}

/// One flushed batch: the swapped-out mapping, consumed by the reporter.
#[derive(Debug)]
pub struct ReportBatch {
    pub buckets: Vec<Bucket>,
}

/// Abstract contents of a bucket sequence: key and trace sequence pairs.
pub open spec fn buckets_view(bs: Seq<Bucket>) -> Seq<(Seq<char>, Seq<Trace>)> {
    bs.map(|i: int, b: Bucket| (b.key@, b.traces@))
}

/// Some pair in the mapping carries this key.
pub open spec fn has_key(m: Seq<(Seq<char>, Seq<Trace>)>, key: Seq<char>) -> bool {
    exists|i: int| 0 <= i < m.len() && (#[trigger] m[i]).0 == key
}

/// Index of the pair carrying this key (meaningful when `has_key` holds
/// and keys are distinct).
pub open spec fn key_index(m: Seq<(Seq<char>, Seq<Trace>)>, key: Seq<char>) -> int {
    choose|i: int| 0 <= i < m.len() && (#[trigger] m[i]).0 == key
}

/// No two pairs share a key.
pub open spec fn keys_distinct(m: Seq<(Seq<char>, Seq<Trace>)>) -> bool {
    forall|i: int, j: int| 0 <= i < j < m.len() ==> (#[trigger] m[i]).0 != (#[trigger] m[j]).0
}

/// Total number of traces buffered across all keys.
pub open spec fn total_traces(m: Seq<(Seq<char>, Seq<Trace>)>) -> nat
    decreases m,
{
    if m.len() == 0 {
        0
    } else {
        total_traces(m.drop_last()) + m.last().1.len()
    }
}

/// The mapping after appending one trace under `key`: the existing bucket
/// grows by one, or a new one-trace bucket is created.
pub open spec fn add_trace(
    m: Seq<(Seq<char>, Seq<Trace>)>,
    key: Seq<char>,
    t: Trace,
) -> Seq<(Seq<char>, Seq<Trace>)> {
    if has_key(m, key) {
        let i = key_index(m, key);
        m.update(i, (key, m[i].1.push(t)))
    } else {
        m.push((key, seq![t]))
    }
}

/// One ingest transition: append the trace, bump the count, and — strictly
/// past the threshold (`count + 1 > target`) — swap the mapping out. The
/// result is the new mapping, the new count, and the flushed batch if one
/// left.
pub open spec fn ingest_step(
    m: Seq<(Seq<char>, Seq<Trace>)>,
    count: nat,
    target: nat,
    key: Seq<char>,
    t: Trace,
) -> (Seq<(Seq<char>, Seq<Trace>)>, nat, Option<Seq<(Seq<char>, Seq<Trace>)>>) {
    let m1 = add_trace(m, key, t);
    if count + 1 > target {
        (Seq::empty(), 0nat, Some(m1))
    } else {
        (m1, count + 1, None)
    }
}

/// State after ingesting each of `entries` in order, flushed batches
/// leaving as they occur.
pub open spec fn run_ingests(
    m: Seq<(Seq<char>, Seq<Trace>)>,
    count: nat,
    target: nat,
    entries: Seq<(Seq<char>, Trace)>,
) -> (Seq<(Seq<char>, Seq<Trace>)>, nat)
    decreases entries.len(),
{
    if entries.len() == 0 {
        (m, count)
    } else {
        let prev = run_ingests(m, count, target, entries.drop_last());
        let s = ingest_step(prev.0, prev.1, target, entries.last().0, entries.last().1);
        (s.0, s.1)
    }
}

proof fn lemma_total_update(m: Seq<(Seq<char>, Seq<Trace>)>, i: int, p: (Seq<char>, Seq<Trace>))
    requires
        0 <= i < m.len(),
    ensures
        total_traces(m.update(i, p)) == total_traces(m) - m[i].1.len() + p.1.len(),
    decreases m.len(),
{
    if i == m.len() - 1 {
        assert(m.update(i, p).drop_last() =~= m.drop_last());
        assert(m.update(i, p).last() == p);
    } else {
        assert(m.update(i, p).drop_last() =~= m.drop_last().update(i, p));
        assert(m.update(i, p).last() == m.last());
        lemma_total_update(m.drop_last(), i, p);
    }
}

proof fn lemma_total_push(m: Seq<(Seq<char>, Seq<Trace>)>, p: (Seq<char>, Seq<Trace>))
    ensures
        total_traces(m.push(p)) == total_traces(m) + p.1.len(),
{
    assert(m.push(p).drop_last() =~= m);
    assert(m.push(p).last() == p);
}

/// Appending one trace grows the buffered total by exactly one.
pub proof fn lemma_total_add(m: Seq<(Seq<char>, Seq<Trace>)>, key: Seq<char>, t: Trace)
    ensures
        total_traces(add_trace(m, key, t)) == total_traces(m) + 1,
{
    if has_key(m, key) {
        let i = key_index(m, key);
        assert(0 <= i < m.len() && m[i].0 == key);
        lemma_total_update(m, i, (key, m[i].1.push(t)));
    } else {
        lemma_total_push(m, (key, seq![t]));
    }
}

/// Appending one trace keeps keys distinct.
pub proof fn lemma_add_distinct(m: Seq<(Seq<char>, Seq<Trace>)>, key: Seq<char>, t: Trace)
    requires
        keys_distinct(m),
    ensures
        keys_distinct(add_trace(m, key, t)),
{
    if has_key(m, key) {
        let i = key_index(m, key);
        assert(0 <= i < m.len() && m[i].0 == key);
    }
}

/// Batch-threshold law: starting empty, ingesting `target + 1` traces
/// flushes exactly once — nothing leaves during the first `target` calls,
/// and the final call hands back one batch holding all `target + 1`
/// traces, leaving the mapping empty and the count zero.
pub proof fn lemma_batch_threshold(entries: Seq<(Seq<char>, Trace)>, target: nat)
    requires
        target >= 1,
        entries.len() == target + 1,
    ensures
        forall|k: int|
            0 <= k < target ==> {
                let prev = #[trigger] run_ingests(Seq::empty(), 0, target, entries.take(k));
                ingest_step(prev.0, prev.1, target, entries[k].0, entries[k].1).2 is None
            },
        ({
            let prev = run_ingests(Seq::empty(), 0, target, entries.take(target as int));
            let last = ingest_step(
                prev.0,
                prev.1,
                target,
                entries[target as int].0,
                entries[target as int].1,
            );
            &&& last.2 is Some
            &&& total_traces(last.2->0) == target + 1
            &&& last.0 == Seq::<(Seq<char>, Seq<Trace>)>::empty()
            &&& last.1 == 0
        }),
{
    assert forall|k: int| 0 <= k <= target implies {
        let s = #[trigger] run_ingests(Seq::empty(), 0, target, entries.take(k));
        s.1 == k && total_traces(s.0) == k
    } by {
        lemma_run_counts(entries, target, k);
    }
    let prev = run_ingests(Seq::empty(), 0, target, entries.take(target as int));
    lemma_run_counts(entries, target, target as int);
    lemma_total_add(prev.0, entries[target as int].0, entries[target as int].1);
}

proof fn lemma_run_counts(entries: Seq<(Seq<char>, Trace)>, target: nat, k: int)
    requires
        0 <= k <= target,
        k <= entries.len(),
    ensures
        ({
            let s = run_ingests(Seq::empty(), 0, target, entries.take(k));
            s.1 == k && total_traces(s.0) == k
        }),
    decreases k,
{
    if k == 0 {
        assert(entries.take(0).len() == 0);
        assert(total_traces(Seq::<(Seq<char>, Seq<Trace>)>::empty()) == 0);
    } else {
        lemma_run_counts(entries, target, k - 1);
        let pre = entries.take(k);
        assert(pre.drop_last() =~= entries.take(k - 1));
        let prev = run_ingests(Seq::empty(), 0, target, entries.take(k - 1));
        lemma_total_add(prev.0, pre.last().0, pre.last().1);
    }
}

/// Flush-isolation law: a triggering ingest leaves the fresh empty state
/// behind before the batch is ever handed to the reporter, so whatever
/// later happens to that batch — compression failure included — the
/// aggregator continues exactly as a fresh one would.
pub proof fn lemma_flush_isolation(
    m: Seq<(Seq<char>, Seq<Trace>)>,
    count: nat,
    target: nat,
    key: Seq<char>,
    t: Trace,
    later: Seq<(Seq<char>, Trace)>,
)
    requires
        count + 1 > target,
    ensures
        ingest_step(m, count, target, key, t).0 == Seq::<(Seq<char>, Seq<Trace>)>::empty(),
        ingest_step(m, count, target, key, t).1 == 0,
        run_ingests(ingest_step(m, count, target, key, t).0, 0, target, later) == run_ingests(
            Seq::empty(),
            0,
            target,
            later,
        ),
{
}

/// Sequential owner of the cross-request batching state: the per-key
/// buckets, the running count, and the flush threshold.
#[derive(Debug)]
pub struct Aggregator {
    buckets: Vec<Bucket>,
    count: usize,
    batch_target: usize,
}

impl Aggregator {
    /// Abstract mapping from operation key to buffered traces.
    pub closed spec fn contents(self) -> Seq<(Seq<char>, Seq<Trace>)> {
        buckets_view(self.buckets@)
    }

    /// Traces buffered since the last flush.
    pub closed spec fn count(self) -> nat {
        self.count as nat
    }

    /// The configured flush threshold.
    pub closed spec fn target(self) -> nat {
        self.batch_target as nat
    }

    /// Invariant: distinct keys, the count equals the buffered total, and
    /// the count never rests above the threshold.
    pub closed spec fn wf(self) -> bool {
        &&& 1 <= self.batch_target <= usize::MAX / 3
        &&& keys_distinct(buckets_view(self.buckets@))
        &&& total_traces(buckets_view(self.buckets@)) == self.count
        &&& self.count <= self.batch_target
    }

    /// A fresh aggregator with the given positive threshold.
    pub fn new(batch_target: usize) -> (a: Aggregator)
        requires
            1 <= batch_target <= usize::MAX / 3,
        ensures
            a.wf(),
            a.contents() == Seq::<(Seq<char>, Seq<Trace>)>::empty(),
            a.count() == 0,
            a.target() == batch_target,
    {
        let a = Aggregator { buckets: Vec::new(), count: 0, batch_target };
        proof {
            assert(buckets_view(a.buckets@) =~= Seq::<(Seq<char>, Seq<Trace>)>::empty());
        }
        a
    }

    /// Number of traces buffered since the last flush.
    pub fn buffered(&self) -> (n: usize)
        ensures
            n == self.count(),
    {
        self.count
    }

    fn find_bucket(&self, key: &String) -> (r: Option<usize>)
        ensures
            match r {
                Some(i) => {
                    &&& i < self.contents().len()
                    &&& self.contents()[i as int].0 == key@
                    &&& keys_distinct(self.contents()) ==> i == key_index(
                        self.contents(),
                        key@,
                    )
                },
                None => !has_key(self.contents(), key@),
            },
    {
        let n = self.buckets.len();
        let mut k: usize = 0;
        while k < n
            invariant
                n == self.buckets@.len(),
                k <= n,
                forall|m: int| 0 <= m < k ==> (#[trigger] buckets_view(self.buckets@)[m]).0 != key@,
            decreases n - k,
        {
            if self.buckets[k].key == *key {
                proof {
                    assert(self.contents()[k as int].0 == key@);
                    if keys_distinct(self.contents()) {
                        let j = key_index(self.contents(), key@);
                        assert(0 <= j < self.contents().len() && self.contents()[j].0 == key@);
                    }
                }
                return Some(k);
            }
            k += 1;
        }
        None
    }

    /// Appends `trace` under `key` and, strictly past the threshold,
    /// swaps the whole mapping out and returns it as one batch; the
    /// internal state is then empty again. Exactly the transition that
    /// `ingest_step` describes.
    pub fn ingest(&mut self, key: String, trace: Trace) -> (r: Option<ReportBatch>)
        requires
            old(self).wf(),
        ensures
            final(self).wf(),
            final(self).target() == old(self).target(),
            ({
                let s = ingest_step(
                    old(self).contents(),
                    old(self).count(),
                    old(self).target(),
                    key@,
                    trace,
                );
                &&& final(self).contents() == s.0
                &&& final(self).count() == s.1
                &&& match r {
                    Some(b) => s.2 is Some && buckets_view(b.buckets@) == s.2->0,
                    None => s.2 is None,
                }
            }),
    {
        let ghost m0 = buckets_view(self.buckets@);
        proof {
            lemma_total_add(m0, key@, trace);
            lemma_add_distinct(m0, key@, trace);
        }
        match self.find_bucket(&key) {
            Some(i) => {
                let ghost gi = i as int;
                let mut b = self.buckets.remove(i);
                b.traces.push(trace);
                self.buckets.insert(i, b);
                proof {
                    assert(buckets_view(self.buckets@) =~~= m0.update(
                        gi,
                        (m0[gi].0, m0[gi].1.push(trace)),
                    ));
                    assert(m0.update(gi, (m0[gi].0, m0[gi].1.push(trace))) =~~= add_trace(
                        m0,
                        key@,
                        trace,
                    ));
                }
            },
            None => {
                let mut traces = Vec::new();
                traces.push(trace);
                let b = Bucket { key, traces };
                self.buckets.push(b);
                proof {
                    assert(buckets_view(self.buckets@) =~~= add_trace(m0, key@, trace));
                }
            },
        }
        self.count = self.count + 1;
        if self.count > self.batch_target {
            let mut out: Vec<Bucket> = Vec::new();
            core::mem::swap(&mut self.buckets, &mut out);
            self.count = 0;
            proof {
                assert(buckets_view(self.buckets@) =~= Seq::<(Seq<char>, Seq<Trace>)>::empty());
            }
            Some(ReportBatch { buckets: out })
        } else {
            None
        }
    }
}

/// Bounded FIFO handing completed traces to the aggregator's consumer.
/// Capacity is three times the batch threshold. A full queue turns the
/// producer away with its item intact — backpressure, never a drop and
/// never an error.
#[derive(Debug)]
pub struct TraceQueue {
    items: Vec<(String, Trace)>,
    capacity: usize,
}

impl TraceQueue {
    /// The queued items, front first.
    pub closed spec fn items(self) -> Seq<(String, Trace)> {
        self.items@
    }

    /// The fixed capacity.
    pub closed spec fn cap(self) -> nat {
        self.capacity as nat
    }

    /// The queue never holds more than its capacity.
    pub closed spec fn wf(self) -> bool {
        self.items@.len() <= self.capacity
    }

    /// An empty queue sized for the given threshold: capacity
    /// `3 * batch_target`.
    pub fn with_target(batch_target: usize) -> (q: TraceQueue)
        requires
            1 <= batch_target <= usize::MAX / 3,
        ensures
            q.wf(),
            q.cap() == 3 * batch_target,
            q.items().len() == 0,
    {
        TraceQueue { items: Vec::new(), capacity: batch_target * 3 }
    }

    /// Offers one completed trace. With room, the item joins the back of
    /// the queue. At capacity the item comes back unchanged and the queue
    /// is untouched: the producer must wait and try again — backpressure
    /// suspends the caller, it never drops the trace and never raises an
    /// error.
    pub fn try_send(&mut self, key: String, trace: Trace) -> (r: Option<(String, Trace)>)
        requires
            old(self).wf(),
        ensures
            final(self).wf(),
            final(self).cap() == old(self).cap(),
            old(self).items().len() < old(self).cap() ==> {
                &&& r is None
                &&& final(self).items() == old(self).items().push((key, trace))
            },
            old(self).items().len() >= old(self).cap() ==> {
                &&& r == Some((key, trace))
                &&& final(self).items() == old(self).items()
            },
    {
        if self.items.len() < self.capacity {
            self.items.push((key, trace));
            None
        } else {
            Some((key, trace))
        }
    }

    /// Takes the oldest queued item, if any.
    pub fn pop(&mut self) -> (r: Option<(String, Trace)>)
        requires
            old(self).wf(),
        ensures
            final(self).wf(),
            final(self).cap() == old(self).cap(),
            old(self).items().len() == 0 ==> r is None && final(self).items() == old(
                self,
            ).items(),
            old(self).items().len() > 0 ==> {
                &&& r == Some(old(self).items()[0])
                &&& final(self).items() == old(self).items().drop_first()
            },
    {
        if self.items.len() == 0 {
            None
        } else {
            let it = self.items.remove(0);
            proof {
                assert(self.items@ =~= old(self).items@.drop_first());
            }
            Some(it)
        }
    }
}

} // verus!
