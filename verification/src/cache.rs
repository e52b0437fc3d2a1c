//! The batch prefetch cache: a bounded queue of ready-to-train batches and
//! a count of fetches still in flight. Fetch requests are issued by the
//! refill step until queued batches plus outstanding fetches reach the
//! configured capacity; completions append to the queue and retire one
//! in-flight slot.

use vstd::prelude::*;

use crate::data::{Data, SampleView};

verus! {

/// Mathematical state of the prefetch cache.
pub struct CacheModel {
    pub queued: Seq<Seq<SampleView>>,
    pub in_flight: nat,
    pub capacity: nat,
}

impl CacheModel {
    /// Batches already queued plus fetches still outstanding.
    pub open spec fn load(self) -> nat {
        self.queued.len() + self.in_flight
    }
}

/// One thing that can happen to the cache between two ticks.
pub enum CacheEvent {
    /// The controller was told a new capacity.
    SetCapacity(nat),
    /// An outstanding fetch resolved with a batch.
    Complete(Seq<SampleView>),
    /// An outstanding fetch failed; nothing is queued.
    Fail,
    /// A training step asked for the first batch of the given size,
    /// discarding every differently-sized batch in front of it.
    Pop(nat),
    /// An externally supplied batch was pushed onto the queue.
    Push(Seq<SampleView>),
    /// The refill step topped the load up to the capacity.
    Refill,
}

/// What a training pop returns and leaves behind: batches are taken from
/// the front until one of the wanted size is found; stale ones are
/// discarded, and a queue with no match is drained empty.
pub open spec fn pop_result(queued: Seq<Seq<SampleView>>, size: nat) -> (Option<Seq<SampleView>>,
    Seq<Seq<SampleView>>)
    decreases queued.len(),
{
    if queued.len() == 0 {
        (None, queued)
    } else if queued.first().len() == size {
        (Some(queued.first()), queued.drop_first())
    } else {
        pop_result(queued.drop_first(), size)
    }
}

/// The cache after one event.
pub open spec fn cache_step(s: CacheModel, e: CacheEvent) -> CacheModel {
    match e {
        CacheEvent::SetCapacity(n) => CacheModel {
            queued: s.queued,
            in_flight: s.in_flight,
            capacity: n,
        },
        CacheEvent::Complete(b) => if s.in_flight > 0 {
            CacheModel {
                queued: s.queued.push(b),
                in_flight: (s.in_flight - 1) as nat,
                capacity: s.capacity,
            }
        } else {
            s
        },
        CacheEvent::Fail => if s.in_flight > 0 {
            CacheModel {
                queued: s.queued,
                in_flight: (s.in_flight - 1) as nat,
                capacity: s.capacity,
            }
        } else {
            s
        },
        CacheEvent::Pop(size) => CacheModel {
            queued: pop_result(s.queued, size).1,
            in_flight: s.in_flight,
            capacity: s.capacity,
        },
        CacheEvent::Push(b) => CacheModel {
            queued: s.queued.push(b),
            in_flight: s.in_flight,
            capacity: s.capacity,
        },
        CacheEvent::Refill => if s.load() < s.capacity {
            CacheModel {
                queued: s.queued,
                in_flight: s.in_flight + (s.capacity - s.load()) as nat,
                capacity: s.capacity,
            }
        } else {
            s
        },
    }
}

/// The cache after a whole run of events.
pub open spec fn cache_run(s0: CacheModel, events: Seq<CacheEvent>) -> CacheModel
    decreases events.len(),
{
    if events.len() == 0 {
        s0
    } else {
        cache_step(cache_run(s0, events.drop_last()), events.last())
    }
}

/// Popping never lengthens the queue.
proof fn lemma_pop_result_shrinks(queued: Seq<Seq<SampleView>>, size: nat)
    ensures
        pop_result(queued, size).1.len() <= queued.len(),
    decreases queued.len(),
{
    if queued.len() > 0 && queued.first().len() != size {
        lemma_pop_result_shrinks(queued.drop_first(), size);
    }
}

/// Along any run of capacity changes, fetch completions or failures,
/// training pops and refills, the cache never holds more than its
/// capacity — `queued + in_flight <= capacity` after every event, and in
/// particular after each tick's refill — provided every capacity change
/// sets the capacity at or above the load the cache carries at that
/// moment. (A capacity set below the current load leaves the excess
/// queued until pops drain it.)
pub proof fn lemma_cache_capacity_invariant(s0: CacheModel, events: Seq<CacheEvent>)
    requires
        s0.load() <= s0.capacity,
        forall|i: int|
            0 <= i < events.len() ==> (#[trigger] events[i] matches CacheEvent::SetCapacity(n)
                ==> n >= cache_run(s0, events.take(i)).load()),
        forall|i: int| 0 <= i < events.len() ==> !(#[trigger] events[i] is Push),
    ensures
        cache_run(s0, events).load() <= cache_run(s0, events).capacity,
    decreases events.len(),
{
    if events.len() > 0 {
        let prefix = events.drop_last();
        assert forall|i: int| 0 <= i < prefix.len() implies (#[trigger] prefix[i] matches
            CacheEvent::SetCapacity(n) ==> n >= cache_run(s0, prefix.take(i)).load()) by {
            assert(prefix.take(i) =~= events.take(i));
            assert(prefix[i] == events[i]);
        }
        assert forall|i: int| 0 <= i < prefix.len() implies !(#[trigger] prefix[i] is Push) by {
            assert(prefix[i] == events[i]);
        }
        lemma_cache_capacity_invariant(s0, prefix);
        let prev = cache_run(s0, prefix);
        let last = events.last();
        assert(events.take(events.len() - 1) =~= prefix);
        match last {
            CacheEvent::SetCapacity(n) => {
                assert(events[events.len() - 1] == last);
            },
            CacheEvent::Pop(size) => {
                lemma_pop_result_shrinks(prev.queued, size);
            },
            _ => {},
        }
    }
}

/// The bounded queue of ready batches and the in-flight fetch counter.
#[derive(Debug)]
pub struct BatchCache {
    pub queued: Vec<Data>,
    pub in_flight: usize,
    pub capacity: usize,
}

impl View for BatchCache {
    type V = CacheModel;

    open spec fn view(&self) -> CacheModel {
        CacheModel {
            queued: self.queued@.map_values(|b: Data| b@),
            in_flight: self.in_flight as nat,
            capacity: self.capacity as nat,
        }
    }
}

impl BatchCache {
    /// An empty cache with the given capacity and nothing in flight.
    pub fn new(capacity: usize) -> (r: Self)
        ensures
            r@.queued.len() == 0,
            r@.in_flight == 0,
            r@.capacity == capacity,
    {
        let r = BatchCache { queued: Vec::new(), in_flight: 0, capacity };
        proof {
            assert(r@.queued =~= Seq::<Seq<SampleView>>::empty());
        }
        r
    }

    /// How many batches are queued.
    pub fn queued_len(&self) -> (n: usize)
        ensures
            n == self@.queued.len(),
    {
        self.queued.len()
    }

    /// How many fetches are outstanding.
    pub fn in_flight_count(&self) -> (n: usize)
        ensures
            n == self@.in_flight,
    {
        self.in_flight
    }

    /// Adopt a new capacity; queued batches and outstanding fetches are
    /// untouched.
    pub fn set_capacity(&mut self, capacity: usize)
        ensures
            final(self)@ == cache_step(old(self)@, CacheEvent::SetCapacity(capacity as nat)),
    {
        self.capacity = capacity;
    }

    /// An outstanding fetch resolved: append its batch and retire the
    /// in-flight slot.
    pub fn on_fetch_complete(&mut self, batch: Data)
        requires
            old(self)@.in_flight > 0,
        ensures
            final(self)@ == cache_step(old(self)@, CacheEvent::Complete(batch@)),
    {
        proof {
            assert(self.queued@.push(batch).map_values(|b: Data| b@) =~= self.queued@.map_values(
                |b: Data| b@,
            ).push(batch@));
        }
        self.queued.push(batch);
        self.in_flight = self.in_flight - 1;
    }

    /// An outstanding fetch failed: retire its slot without queuing
    /// anything; the next refill naturally re-requests.
    pub fn on_fetch_failed(&mut self)
        requires
            old(self)@.in_flight > 0,
        ensures
            final(self)@ == cache_step(old(self)@, CacheEvent::Fail),
    {
        self.in_flight = self.in_flight - 1;
    }

    /// Push an externally supplied batch onto the queue.
    pub fn push_batch(&mut self, batch: Data)
        ensures
            final(self)@ == cache_step(old(self)@, CacheEvent::Push(batch@)),
    {
        proof {
            assert(self.queued@.push(batch).map_values(|b: Data| b@) =~= self.queued@.map_values(
                |b: Data| b@,
            ).push(batch@));
        }
        self.queued.push(batch);
    }

    /// Count the fetches the refill step must issue to bring the load back
    /// to the capacity, and account for them as in flight. The caller
    /// dispatches exactly that many fetch operations.
    pub fn refill(&mut self) -> (n: usize)
        ensures
            final(self)@ == cache_step(old(self)@, CacheEvent::Refill),
            n as nat == if old(self)@.load() < old(self)@.capacity {
                (old(self)@.capacity - old(self)@.load()) as nat
            } else {
                0nat
            },
            old(self)@.load() <= old(self)@.capacity ==> final(self)@.load()
                == final(self)@.capacity,
    {
        if self.in_flight >= self.capacity {
            return 0;
        }
        let room = self.capacity - self.in_flight;
        if self.queued.len() >= room {
            return 0;
        }
        let n = room - self.queued.len();
        self.in_flight = self.in_flight + n;
        n
    }

    /// Take the first queued batch of the wanted size, discarding every
    /// differently-sized batch queued in front of it; a queue holding no
    /// such batch is drained empty.
    pub fn pop_matching(&mut self, size: usize) -> (r: Option<Data>)
        ensures
            final(self)@ == cache_step(old(self)@, CacheEvent::Pop(size as nat)),
            match r {
                Some(b) => pop_result(old(self)@.queued, size as nat).0 == Some(b@),
                None => pop_result(old(self)@.queued, size as nat).0 is None,
            },
    {
        while self.queued.len() > 0
            invariant
                pop_result(old(self)@.queued, size as nat) == pop_result(
                    self@.queued,
                    size as nat,
                ),
                self.in_flight == old(self).in_flight,
                self.capacity == old(self).capacity,
            decreases self.queued@.len(),
        {
            let ghost before = self@.queued;
            let b = self.queued.remove(0);
            proof {
                assert(self@.queued =~= before.drop_first());
                assert(b@ == before.first());
            }
            if b.data.len() == size {
                return Some(b);
            }
        }
        proof {
            assert(self@.queued =~= Seq::<Seq<SampleView>>::empty());
        }
        None
    }
}

} // verus!
