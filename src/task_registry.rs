use vstd::prelude::*;

verus! {

/// Logical name under which at most one background fetch is live.
#[derive(Debug, Clone, Copy, PartialEq, Eq, Hash, Structural)]
pub enum FetchKey {
    /// A page of search results.
    Search,
    /// The full record of the selected package.
    Detail,
}

/// Live generation of each fetch key, and the next generation to hand out.
///
/// A fetch is tagged with the generation that `start` returned for it; its
/// result is applied only while that generation is still the live one.
pub struct TaskRegistry {
    search: Option<u64>,
    detail: Option<u64>,
    next_generation: u64,
}

impl TaskRegistry {
    /// The generation live for `k`, if any.
    pub closed spec fn live(&self, k: FetchKey) -> Option<u64> {
        match k {
            FetchKey::Search => self.search,
            FetchKey::Detail => self.detail,
        }
    }

    /// The generation that the next `start` hands out.
    pub closed spec fn next_gen(&self) -> u64 {
        self.next_generation
    }

    /// Every live generation was handed out before.
    pub closed spec fn wf(&self) -> bool {
        &&& (self.search matches Some(g) ==> g < self.next_generation)
        &&& (self.detail matches Some(g) ==> g < self.next_generation)
    }

    /// The registry after `start(k)`.
    pub closed spec fn started(&self, k: FetchKey) -> TaskRegistry {
        let g = Some(self.next_generation);
        TaskRegistry {
            search: if k == FetchKey::Search {
                g
            } else {
                self.search
            },
            detail: if k == FetchKey::Detail {
                g
            } else {
                self.detail
            },
            next_generation: (self.next_generation + 1) as u64,
        }
    }

    /// The registry with no live fetch for `k`.
    pub closed spec fn cancelled(&self, k: FetchKey) -> TaskRegistry {
        TaskRegistry {
            search: if k == FetchKey::Search {
                None
            } else {
                self.search
            },
            detail: if k == FetchKey::Detail {
                None
            } else {
                self.detail
            },
            next_generation: self.next_generation,
        }
    }

    /// The registry after `start` on each key of `ks`, in order.
    pub open spec fn started_all(&self, ks: Seq<FetchKey>) -> TaskRegistry
        decreases ks.len(),
    {
        if ks.len() == 0 {
            *self
        } else {
            self.started_all(ks.drop_last()).started(ks.last())
        }
    }

    /// An empty registry: nothing live, generations start at zero.
    pub fn new() -> (r: TaskRegistry)
        ensures
            r.wf(),
            r.next_gen() == 0,
            forall|k: FetchKey| #[trigger] r.live(k) is None,
    {
        TaskRegistry { search: None, detail: None, next_generation: 0 }
    }

    /// Cancels the live fetch for `k`, if any, and makes a fresh generation the
    /// live one; the caller tags its new fetch with the returned generation.
    pub fn start(&mut self, k: FetchKey) -> (g: u64)
        requires
            old(self).wf(),
            old(self).next_gen() < u64::MAX,
        ensures
            final(self).wf(),
            *final(self) == old(self).started(k),
            g == old(self).next_gen(),
            old(self).live(k) matches Some(g0) ==> g0 < g,
            final(self).live(k) == Some(g),
            final(self).next_gen() == g + 1,
            forall|k2: FetchKey| k2 != k ==> #[trigger] final(self).live(k2) == old(self).live(k2),
    {
        let g = self.next_generation;
        match k {
            FetchKey::Search => self.search = Some(g),
            FetchKey::Detail => self.detail = Some(g),
        }
        self.next_generation = g + 1;
        g
    }

    /// Marks `k` as having no live fetch, and returns the generation that was
    /// live, so that its task can be stopped.
    pub fn cancel(&mut self, k: FetchKey) -> (r: Option<u64>)
        requires
            old(self).wf(),
        ensures
            final(self).wf(),
            r == old(self).live(k),
            *final(self) == old(self).cancelled(k),
            final(self).live(k) is None,
            final(self).next_gen() == old(self).next_gen(),
            forall|k2: FetchKey| k2 != k ==> #[trigger] final(self).live(k2) == old(self).live(k2),
    {
        match k {
            FetchKey::Search => {
                let r = self.search;
                self.search = None;
                r
            },
            FetchKey::Detail => {
                let r = self.detail;
                self.detail = None;
                r
            },
        }
    }

    /// Whether another generation can be handed out.
    pub fn can_start(&self) -> (r: bool)
        ensures
            r == (self.next_gen() < u64::MAX),
    {
        self.next_generation < u64::MAX
    }

    /// The generation live for `k`, if any.
    pub fn live_generation(&self, k: FetchKey) -> (r: Option<u64>)
        ensures
            r == self.live(k),
    {
        match k {
            FetchKey::Search => self.search,
            FetchKey::Detail => self.detail,
        }
    }

    /// Whether `g` is the generation live for `k`.
    pub fn is_live(&self, k: FetchKey, g: u64) -> (r: bool)
        ensures
            r == (self.live(k) == Some(g)),
    {
        match self.live_generation(k) {
            Some(cur) => cur == g,
            None => false,
        }
    }

    /// Accepts the completion of the fetch for `k` tagged `g` when `g` is the
    /// live generation, which releases the slot; a stale completion leaves the
    /// registry as it was. Returns whether the result may be applied.
    pub fn complete(&mut self, k: FetchKey, g: u64) -> (r: bool)
        requires
            old(self).wf(),
        ensures
            final(self).wf(),
            r == (old(self).live(k) == Some(g)),
            r ==> {
                &&& *final(self) == old(self).cancelled(k)
                &&& final(self).live(k) is None
                &&& final(self).next_gen() == old(self).next_gen()
                &&& forall|k2: FetchKey|
                    k2 != k ==> #[trigger] final(self).live(k2) == old(self).live(k2)
            },
            !r ==> *final(self) == *old(self),
    {
        if self.is_live(k, g) {
            self.cancel(k);
            true
        } else {
            false
        }
    }
}

/// After `cancelled(k)` nothing is live for `k`, and the other keys and the
/// generation counter keep what they had.
pub proof fn lemma_cancelled_live(r: TaskRegistry, k: FetchKey)
    ensures
        r.cancelled(k).live(k) is None,
        r.cancelled(k).next_gen() == r.next_gen(),
        forall|k2: FetchKey| k2 != k ==> #[trigger] r.cancelled(k).live(k2) == r.live(k2),
{
}

/// After `started(k)` on a well-formed registry with generations left, the
/// registry is well-formed, the counter's old value is live for `k`, the
/// counter is one higher, and the other keys keep what they had.
pub proof fn lemma_started_live(r: TaskRegistry, k: FetchKey)
    requires
        r.wf(),
        r.next_gen() < u64::MAX,
    ensures
        r.started(k).wf(),
        r.started(k).live(k) == Some(r.next_gen()),
        r.started(k).next_gen() == r.next_gen() + 1,
        forall|k2: FetchKey| k2 != k ==> #[trigger] r.started(k).live(k2) == r.live(k2),
{
}

/// In a well-formed registry every live generation is below the counter, so
/// the next `start` hands out a generation that differs from all live ones.
pub proof fn lemma_live_below_next(r: TaskRegistry)
    requires
        r.wf(),
    ensures
        forall|k: FetchKey| #[trigger] r.live(k) matches Some(g) ==> g < r.next_gen(),
{
    assert forall|k: FetchKey| #[trigger] r.live(k) is Some implies r.live(k)->0 < r.next_gen() by {
        match k {
            FetchKey::Search => {},
            FetchKey::Detail => {},
        }
    }
}

/// A `start` on `k` makes the fetch that was live for `k` stale.
pub proof fn lemma_start_silences_live(r: TaskRegistry, k: FetchKey)
    requires
        r.wf(),
        r.next_gen() < u64::MAX,
    ensures
        r.live(k) matches Some(g0) ==> r.started(k).live(k) != Some(g0),
{
    lemma_live_below_next(r);
}

/// When a second fetch for `k` starts before the first completes, only the
/// second is live: the first one's completion is stale.
pub proof fn lemma_restart_makes_first_stale(r: TaskRegistry, k: FetchKey)
    requires
        r.wf(),
        r.next_gen() + 1 < u64::MAX,
    ensures
        r.started(k).started(k).live(k) == Some((r.next_gen() + 1) as u64),
        r.started(k).started(k).live(k) != Some(r.next_gen()),
{
}

/// After `cancelled(k)` on a well-formed registry, it is still well-formed.
pub proof fn lemma_cancelled_wf(r: TaskRegistry, k: FetchKey)
    requires
        r.wf(),
    ensures
        r.cancelled(k).wf(),
{
}

/// Each `start` in a sequence raises the counter by one.
pub proof fn lemma_started_all_next_gen(r: TaskRegistry, ks: Seq<FetchKey>)
    requires
        r.next_gen() + ks.len() <= u64::MAX,
    ensures
        r.started_all(ks).next_gen() == r.next_gen() + ks.len(),
    decreases ks.len(),
{
    if ks.len() > 0 {
        lemma_started_all_next_gen(r, ks.drop_last());
    }
}

/// After any sequence of `start` calls, each key has at most one live
/// generation: the one handed out by the last `start` on that key, which is
/// the starting generation plus that call's position in the sequence. A key
/// that was never started keeps what it had.
pub proof fn lemma_last_start_is_live(r: TaskRegistry, ks: Seq<FetchKey>, k: FetchKey)
    requires
        r.next_gen() + ks.len() <= u64::MAX,
    ensures
        forall|j: int|
            0 <= j < ks.len() && ks[j] == k && (forall|j2: int| j < j2 < ks.len() ==> ks[j2] != k)
                ==> r.started_all(ks).live(k) == Some((r.next_gen() + j) as u64),
        (forall|j: int| 0 <= j < ks.len() ==> ks[j] != k) ==> r.started_all(ks).live(k)
            == r.live(k),
    decreases ks.len(),
{
    if ks.len() > 0 {
        let front = ks.drop_last();
        lemma_last_start_is_live(r, front, k);
        lemma_started_all_next_gen(r, front);
        let last = (ks.len() - 1) as int;
        assert forall|j: int|
            0 <= j < ks.len() && ks[j] == k && (forall|j2: int| j < j2 < ks.len() ==> ks[j2] != k)
                implies r.started_all(ks).live(k) == Some((r.next_gen() + j) as u64) by {
            if j < last {
                assert(ks[last] != k);
                assert forall|j2: int| j < j2 < front.len() implies front[j2] != k by {
                    assert(ks[j2] != k);
                }
                assert(front[j] == ks[j]);
            }
        }
        if forall|j: int| 0 <= j < ks.len() ==> ks[j] != k {
            assert(ks[last] != k);
            assert forall|j: int| 0 <= j < front.len() implies front[j] != k by {
                assert(ks[j] != k);
            }
        }
    }
}

} // verus!
