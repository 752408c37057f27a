//! A barrier that holds back asset-derived resources until their assets have
//! loaded: handles wait in a queue, each poll checks every waiting handle once,
//! in queue order, and hands out those that are ready, exactly once each.
use vstd::prelude::*;
use vstd::multiset::Multiset;
use vstd::seq_lib::{group_to_multiset_ensures, lemma_multiset_commutative};
use std::collections::VecDeque;

verus! {

/// The waiting handles, among the first `n`, whose flag in `loaded` is false, in order.
pub open spec fn still_waiting(w: Seq<u64>, loaded: Seq<bool>, n: nat) -> Seq<u64>
    decreases n,
{
    if n == 0 {
        Seq::empty()
    } else if loaded[n - 1] {
        still_waiting(w, loaded, (n - 1) as nat)
    } else {
        still_waiting(w, loaded, (n - 1) as nat).push(w[n - 1])
    }
}

/// The waiting handles, among the first `n`, whose flag in `loaded` is true, in order.
pub open spec fn now_ready(w: Seq<u64>, loaded: Seq<bool>, n: nat) -> Seq<u64>
    decreases n,
{
    if n == 0 {
        Seq::empty()
    } else if loaded[n - 1] {
        now_ready(w, loaded, (n - 1) as nat).push(w[n - 1])
    } else {
        now_ready(w, loaded, (n - 1) as nat)
    }
}

/// The flags that an asset loader whose loaded handles are `done` reports for the queue `w`.
pub open spec fn loaded_flags(w: Seq<u64>, done: Set<u64>) -> Seq<bool> {
    Seq::new(w.len(), |i: int| done.contains(w[i]))
}

/// What is left waiting, and what was handed out in order, after one poll for
/// each set of loaded handles in `frames`.
pub open spec fn run_polls(w: Seq<u64>, frames: Seq<Set<u64>>) -> (Seq<u64>, Seq<u64>)
    decreases frames.len(),
{
    if frames.len() == 0 {
        (w, Seq::empty())
    } else {
        let (rest, out) = run_polls(w, frames.drop_last());
        let l = loaded_flags(rest, frames.last());
        (still_waiting(rest, l, rest.len()), out + now_ready(rest, l, rest.len()))
    }
}

/// Handles of assets whose resources are not ready yet, and of those already handed out.
pub struct ResourceHandles {
    waiting: VecDeque<u64>,
    finished: Vec<u64>,
}

impl ResourceHandles {
    /// The waiting handles, in queue order.
    pub closed spec fn waiting_spec(&self) -> Seq<u64> {
        self.waiting@
    }

    /// The handles handed out so far, in order.
    pub closed spec fn finished_spec(&self) -> Seq<u64> {
        self.finished@
    }

    /// An empty barrier.
    pub fn new() -> (r: ResourceHandles)
        ensures
            r.waiting_spec() == Seq::<u64>::empty(),
            r.finished_spec() == Seq::<u64>::empty(),
    {
        ResourceHandles { waiting: VecDeque::new(), finished: Vec::new() }
    }

    /// Puts `handle` at the end of the queue.
    pub fn register(&mut self, handle: u64)
        ensures
            final(self).waiting_spec() == old(self).waiting_spec().push(handle),
            final(self).finished_spec() == old(self).finished_spec(),
    {
        self.waiting.push_back(handle);
    }

    /// The waiting handles, in the order that the next poll checks them.
    pub fn pending(&self) -> (r: Vec<u64>)
        ensures
            r@ == self.waiting_spec(),
    {
        let mut r: Vec<u64> = Vec::new();
        let mut i: usize = 0;
        while i < self.waiting.len()
            invariant
                i <= self.waiting@.len(),
                r@ == self.waiting@.subrange(0, i as int),
            decreases self.waiting@.len() - i,
        {
            r.push(self.waiting[i]);
            i = i + 1;
        }
        assert(r@ =~= self.waiting@);
        r
    }

    /// True iff no handle is waiting.
    pub fn is_all_done(&self) -> (r: bool)
        ensures
            r == (self.waiting_spec().len() == 0),
    {
        self.waiting.len() == 0
    }

    /// Checks each waiting handle once, in queue order: `loaded[i]` tells whether
    /// the `i`-th one has loaded with all its dependencies. Loaded handles are
    /// handed out, in order, and recorded as finished; the others go back to the
    /// end of the queue, keeping their order.
    pub fn poll(&mut self, loaded: &Vec<bool>) -> (r: Vec<u64>)
        requires
            loaded@.len() == old(self).waiting_spec().len(),
        ensures
            ({
                let w = old(self).waiting_spec();
                &&& final(self).waiting_spec() == still_waiting(w, loaded@, w.len())
                &&& r@ == now_ready(w, loaded@, w.len())
                &&& final(self).finished_spec() == old(self).finished_spec() + r@
            }),
    {
        let ghost w = self.waiting@;
        let ghost f0 = self.finished@;
        let n = self.waiting.len();
        let mut ready: Vec<u64> = Vec::new();
        let mut i: usize = 0;
        while i < n
            invariant
                n == w.len(),
                loaded@.len() == n,
                i <= n,
                self.waiting@ == w.subrange(i as int, n as int) + still_waiting(w, loaded@, i as nat),
                ready@ == now_ready(w, loaded@, i as nat),
                self.finished@ == f0 + ready@,
            decreases n - i,
        {
            let ghost before = self.waiting@;
            assert(before[0] == w[i as int]);
            let h = self.waiting.pop_front().unwrap();
            assert(self.waiting@ == w.subrange(i + 1, n as int) + still_waiting(w, loaded@, i as nat));
            if loaded[i] {
                self.finished.push(h);
                ready.push(h);
            } else {
                self.waiting.push_back(h);
                assert(self.waiting@ =~= w.subrange(i + 1, n as int) + still_waiting(w, loaded@, (i + 1) as nat));
            }
            i = i + 1;
        }
        assert(w.subrange(n as int, n as int) + still_waiting(w, loaded@, n as nat) =~= still_waiting(w, loaded@, n as nat));
        ready
    }
}

/// Every handle still waiting after a poll was waiting before it.
proof fn lemma_still_waiting_from(w: Seq<u64>, loaded: Seq<bool>, n: nat)
    requires
        n <= w.len(),
    ensures
        forall|h: u64| still_waiting(w, loaded, n).contains(h) ==> w.contains(h),
    decreases n,
{
    if n > 0 {
        lemma_still_waiting_from(w, loaded, (n - 1) as nat);
        assert forall|h: u64| still_waiting(w, loaded, n).contains(h) implies w.contains(h) by {
            let s = still_waiting(w, loaded, (n - 1) as nat);
            if !loaded[n - 1] {
                let t = s.push(w[n - 1]);
                let j = choose|j: int| 0 <= j < t.len() && #[trigger] t[j] == h;
                if j == s.len() {
                    assert(w[n - 1] == h);
                } else {
                    assert(s[j] == h);
                    assert(s.contains(h));
                }
            }
        }
    }
}

/// A poll in which every checked handle has loaded leaves nothing waiting.
proof fn lemma_all_loaded_clears(w: Seq<u64>, loaded: Seq<bool>, n: nat)
    requires
        n <= loaded.len(),
        forall|i: int| 0 <= i < n ==> loaded[i],
    ensures
        still_waiting(w, loaded, n).len() == 0,
    decreases n,
{
    if n > 0 {
        lemma_all_loaded_clears(w, loaded, (n - 1) as nat);
    }
}

/// A poll neither loses nor duplicates a handle: what stays and what is handed
/// out make up the checked handles.
proof fn lemma_poll_partitions(w: Seq<u64>, loaded: Seq<bool>, n: nat)
    requires
        n <= w.len(),
    ensures
        still_waiting(w, loaded, n).to_multiset().add(now_ready(w, loaded, n).to_multiset())
            == w.take(n as int).to_multiset(),
    decreases n,
{
    broadcast use group_to_multiset_ensures;

    if n == 0 {
        assert(w.take(0) =~= Seq::<u64>::empty());
        assert(Seq::<u64>::empty().to_multiset().add(Seq::<u64>::empty().to_multiset())
            =~= Seq::<u64>::empty().to_multiset());
    } else {
        lemma_poll_partitions(w, loaded, (n - 1) as nat);
        assert(w.take(n as int) =~= w.take(n - 1).push(w[n - 1]));
        let s = still_waiting(w, loaded, (n - 1) as nat);
        let r = now_ready(w, loaded, (n - 1) as nat);
        if loaded[n - 1] {
            assert(s.to_multiset().add(r.push(w[n - 1]).to_multiset()) =~= s.to_multiset().add(
                r.to_multiset(),
            ).insert(w[n - 1]));
        } else {
            assert(s.push(w[n - 1]).to_multiset().add(r.to_multiset()) =~= s.to_multiset().add(
                r.to_multiset(),
            ).insert(w[n - 1]));
        }
    }
}

/// Over any run of polls, what is left waiting and what was handed out together
/// hold each registered handle exactly as often as it was registered.
proof fn lemma_run_partitions(w: Seq<u64>, frames: Seq<Set<u64>>)
    ensures
        run_polls(w, frames).0.to_multiset().add(run_polls(w, frames).1.to_multiset())
            == w.to_multiset(),
        forall|h: u64| run_polls(w, frames).0.contains(h) ==> w.contains(h),
    decreases frames.len(),
{
    broadcast use group_to_multiset_ensures;

    if frames.len() == 0 {
        assert(w.to_multiset().add(Seq::<u64>::empty().to_multiset()) =~= w.to_multiset());
    } else {
        lemma_run_partitions(w, frames.drop_last());
        let (rest, out) = run_polls(w, frames.drop_last());
        let l = loaded_flags(rest, frames.last());
        lemma_poll_partitions(rest, l, rest.len());
        lemma_still_waiting_from(rest, l, rest.len());
        assert(rest.take(rest.len() as int) =~= rest);
        lemma_multiset_commutative(out, now_ready(rest, l, rest.len()));
        let s = still_waiting(rest, l, rest.len());
        let r = now_ready(rest, l, rest.len());
        assert(s.to_multiset().add(out.to_multiset().add(r.to_multiset())) =~= s.to_multiset().add(
            r.to_multiset(),
        ).add(out.to_multiset()));
        assert(rest.to_multiset().add(out.to_multiset()) == w.to_multiset());
    }
}

/// Liveness of the barrier: if every registered handle has loaded by the last of
/// `frames.len()` polls (and stays loaded), then after those polls nothing is
/// waiting, so the barrier is done within that many polls (at most the number of
/// handles times it), and each handle was handed out exactly once.
pub proof fn lemma_barrier_liveness(w: Seq<u64>, frames: Seq<Set<u64>>)
    requires
        frames.len() >= 1,
        forall|h: u64| w.contains(h) ==> frames.last().contains(h),
    ensures
        run_polls(w, frames).0.len() == 0,
        run_polls(w, frames).1.to_multiset() == w.to_multiset(),
        w.len() >= 1 ==> frames.len() <= w.len() * frames.len(),
{
    broadcast use group_to_multiset_ensures;

    lemma_run_partitions(w, frames.drop_last());
    lemma_run_partitions(w, frames);
    let (rest, out) = run_polls(w, frames.drop_last());
    let l = loaded_flags(rest, frames.last());
    assert forall|i: int| 0 <= i < rest.len() implies l[i] by {
        assert(rest.contains(rest[i]));
        assert(w.contains(rest[i]));
        assert(l[i] == frames.last().contains(rest[i]));
    }
    lemma_all_loaded_clears(rest, l, rest.len());
    let (left, done) = run_polls(w, frames);
    assert(left.to_multiset() =~= Multiset::empty());
    assert(Multiset::<u64>::empty().add(done.to_multiset()) =~= done.to_multiset());
    assert(w.len() >= 1 ==> frames.len() <= w.len() * frames.len()) by (nonlinear_arith);
}

/// The barrier's own poll agrees with the model: polling with the flags that a
/// loader with loaded set `done` reports gives one step of `run_polls`.
pub proof fn lemma_poll_is_one_step(w: Seq<u64>, done: Set<u64>)
    ensures
        run_polls(w, seq![done]).0 == still_waiting(w, loaded_flags(w, done), w.len()),
        run_polls(w, seq![done]).1 == now_ready(w, loaded_flags(w, done), w.len()),
{
    let frames = seq![done];
    assert(frames.drop_last() =~= Seq::<Set<u64>>::empty());
    assert(run_polls(w, frames.drop_last()) == (w, Seq::<u64>::empty()));
    assert(frames.last() == done);
    assert(Seq::<u64>::empty() + now_ready(w, loaded_flags(w, done), w.len()) =~= now_ready(
        w,
        loaded_flags(w, done),
        w.len(),
    ));
}

} // verus!
