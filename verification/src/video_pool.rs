//! The pool of buffers that the encoder's output port works with.

use std::collections::VecDeque;
use vstd::prelude::*;

verus! {

/// A pool as a value: its size, and its free buffers, oldest first.
pub struct PoolView {
    /// How many buffers the pool has.
    pub buffer_num: u32,
    /// How many bytes each buffer holds.
    pub buffer_size: u32,
    /// The free buffers, oldest first.
    pub free: Seq<u32>,
    /// How many times a buffer has come back after use.
    pub releases: nat,
}

impl PoolView {
    /// Whether every free buffer is one of the pool's, and none is there
    /// twice.
    pub open spec fn wf(self) -> bool {
        &&& self.free.no_duplicates()
        &&& forall|i: int| 0 <= i < self.free.len() ==> self.free[i] < self.buffer_num
    }

    /// Whether the buffer is one of the pool's that is not free: the
    /// hardware or a callback has it.
    pub open spec fn in_flight(self, buffer: u32) -> bool {
        buffer < self.buffer_num && !self.free.contains(buffer)
    }

    /// The pool just made: all its buffers free, by their numbers.
    pub open spec fn fresh(buffer_num: u32, buffer_size: u32) -> PoolView {
        PoolView {
            buffer_num,
            buffer_size,
            free: Seq::new(buffer_num as nat, |i: int| i as u32),
            releases: 0,
        }
    }

    /// The pool after its oldest free buffer was taken.
    pub open spec fn taken(self) -> PoolView {
        PoolView { free: self.free.drop_first(), ..self }
    }

    /// The pool after the buffer came back from use: it is the youngest of
    /// the free buffers.
    pub open spec fn released(self, buffer: u32) -> PoolView {
        PoolView { free: self.free.push(buffer), releases: self.releases + 1, ..self }
    }

    /// The pool after a buffer that was taken but not used was put back: it
    /// is the oldest of the free buffers again.
    pub open spec fn restored(self, buffer: u32) -> PoolView {
        PoolView { free: seq![buffer] + self.free, ..self }
    }
}

/// A pool just made is well formed.
pub proof fn lemma_pool_fresh(buffer_num: u32, buffer_size: u32)
    ensures
        PoolView::fresh(buffer_num, buffer_size).wf(),
        PoolView::fresh(buffer_num, buffer_size).free.len() == buffer_num,
{
}

/// To put back a buffer that was taken keeps the pool well formed, and the
/// buffer is the next to be taken again.
pub proof fn lemma_pool_restored(pool: PoolView, buffer: u32)
    requires
        pool.wf(),
        pool.in_flight(buffer),
    ensures
        pool.restored(buffer).wf(),
        !pool.restored(buffer).in_flight(buffer),
        pool.restored(buffer).free[0] == buffer,
        pool.restored(buffer).taken() == pool,
{
    let before = pool.free;
    let after = pool.restored(buffer).free;
    assert forall|i: int, j: int|
        0 <= i < after.len() && 0 <= j < after.len() && i != j implies after[i] != after[j] by {
        if i > 0 && j > 0 {
            assert(before[i - 1] != before[j - 1]);
        } else if i > 0 {
            assert(before.contains(before[i - 1]));
        } else {
            assert(before.contains(before[j - 1]));
        }
    }
    assert forall|i: int| 0 <= i < after.len() implies after[i] < pool.buffer_num by {
        if i > 0 {
            assert(after[i] == before[i - 1]);
        }
    }
    assert(after[0] == buffer);
    assert(after.contains(buffer));
    assert(after.drop_first() =~= before);
}

/// To take the oldest free buffer keeps the pool well formed, and the buffer
/// is then in flight.
pub proof fn lemma_pool_taken(pool: PoolView)
    requires
        pool.wf(),
        pool.free.len() > 0,
    ensures
        pool.taken().wf(),
        pool.taken().in_flight(pool.free[0]),
        pool.taken().free.len() == pool.free.len() - 1,
{
    let before = pool.free;
    let after = pool.taken().free;
    assert forall|i: int| 0 <= i < after.len() implies after[i] < pool.buffer_num && after[i]
        != before[0] by {
        assert(after[i] == before[i + 1]);
    }
    assert(before[0] < pool.buffer_num);
}

/// To take back a buffer that is in flight keeps the pool well formed, and
/// the buffer is then free, as the youngest.
pub proof fn lemma_pool_released(pool: PoolView, buffer: u32)
    requires
        pool.wf(),
        pool.in_flight(buffer),
    ensures
        pool.released(buffer).wf(),
        !pool.released(buffer).in_flight(buffer),
        pool.released(buffer).free.len() == pool.free.len() + 1,
        pool.released(buffer).free.last() == buffer,
{
    let before = pool.free;
    let after = pool.released(buffer).free;
    assert forall|i: int, j: int|
        0 <= i < after.len() && 0 <= j < after.len() && i != j implies after[i] != after[j] by {
        if i < before.len() && j < before.len() {
            assert(before[i] != before[j]);
        } else if i < before.len() {
            assert(before.contains(before[i]));
        } else {
            assert(before.contains(before[j]));
        }
    }
    assert(after[after.len() - 1] == buffer);
}

/// A fixed set of buffers, known by their numbers from 0. The pool keeps
/// those that are free in the order in which they came back.
pub struct BufferPool {
    buffer_num: u32,
    buffer_size: u32,
    queue: VecDeque<u32>,
    releases: Ghost<nat>,
}

impl View for BufferPool {
    type V = PoolView;

    closed spec fn view(&self) -> PoolView {
        PoolView {
            buffer_num: self.buffer_num,
            buffer_size: self.buffer_size,
            free: self.queue@,
            releases: self.releases@,
        }
    }
}

impl BufferPool {
    /// A pool of `buffer_num` buffers of `buffer_size` bytes, all of them
    /// free.
    pub fn new(buffer_num: u32, buffer_size: u32) -> (pool: BufferPool)
        ensures
            pool@ == PoolView::fresh(buffer_num, buffer_size),
            pool@.wf(),
    {
        let mut queue: VecDeque<u32> = VecDeque::new();
        let mut next: u32 = 0;
        while next < buffer_num
            invariant
                next <= buffer_num,
                queue@ == Seq::new(next as nat, |i: int| i as u32),
            decreases buffer_num - next,
        {
            queue.push_back(next);
            next = next + 1;
            assert(queue@ =~= Seq::new(next as nat, |i: int| i as u32));
        }
        BufferPool { buffer_num, buffer_size, queue, releases: Ghost(0) }
    }

    /// How many buffers the pool has.
    pub fn buffer_num(&self) -> (buffer_num: u32)
        ensures
            buffer_num == self@.buffer_num,
    {
        self.buffer_num
    }

    /// How many bytes each buffer holds.
    pub fn buffer_size(&self) -> (buffer_size: u32)
        ensures
            buffer_size == self@.buffer_size,
    {
        self.buffer_size
    }

    /// How many buffers are free.
    pub fn len(&self) -> (len: usize)
        ensures
            len == self@.free.len(),
    {
        proof {
            vstd::std_specs::vecdeque::axiom_spec_len(&self.queue);
        }
        self.queue.len()
    }

    /// Whether the buffer is one of the pool's that is not free.
    pub fn in_flight(&self, buffer: u32) -> (in_flight: bool)
        ensures
            in_flight == self@.in_flight(buffer),
    {
        if buffer >= self.buffer_num {
            return false;
        }
        let len = self.len();
        let mut i: usize = 0;
        while i < len
            invariant
                i <= len,
                len == self.queue@.len(),
                forall|k: int| 0 <= k < i ==> self.queue@[k] != buffer,
            decreases len - i,
        {
            if self.queue[i] == buffer {
                return false;
            }
            i = i + 1;
        }
        true
    }

    /// Takes the buffer that has been free the longest.
    pub fn get(&mut self) -> (buffer: Option<u32>)
        ensures
            old(self)@.free.len() == 0 ==> buffer is None && final(self)@ == old(self)@,
            old(self)@.free.len() > 0 ==> buffer == Some(old(self)@.free[0]) && final(self)@ == old(
                self,
            )@.taken(),
            old(self)@.wf() ==> final(self)@.wf(),
            old(self)@.wf() && buffer is Some ==> final(self)@.in_flight(buffer->Some_0),
    {
        let buffer = self.queue.pop_front();
        proof {
            if buffer is Some {
                assert(self.queue@ =~= old(self).queue@.drop_first());
                if old(self)@.wf() {
                    lemma_pool_taken(old(self)@);
                }
            }
        }
        buffer
    }

    /// Puts a buffer back that was taken but not used, so that it is the
    /// next to be taken again. Only a buffer of the pool that is not free is
    /// put back; whether it was.
    pub fn restore(&mut self, buffer: u32) -> (restored: bool)
        ensures
            restored == old(self)@.in_flight(buffer),
            restored ==> final(self)@ == old(self)@.restored(buffer),
            !restored ==> final(self)@ == old(self)@,
            old(self)@.wf() ==> final(self)@.wf(),
    {
        if self.in_flight(buffer) {
            self.queue.push_front(buffer);
            proof {
                if old(self)@.wf() {
                    lemma_pool_restored(old(self)@, buffer);
                }
            }
            true
        } else {
            false
        }
    }

    /// Takes a buffer back after use. Only a buffer of the pool that is not
    /// free already is taken back; whether it was.
    pub fn release(&mut self, buffer: u32) -> (released: bool)
        ensures
            released == old(self)@.in_flight(buffer),
            released ==> final(self)@ == old(self)@.released(buffer),
            !released ==> final(self)@ == old(self)@,
            old(self)@.wf() ==> final(self)@.wf(),
    {
        if self.in_flight(buffer) {
            self.queue.push_back(buffer);
            self.releases = Ghost(self.releases@ + 1);
            proof {
                if old(self)@.wf() {
                    lemma_pool_released(old(self)@, buffer);
                }
            }
            true
        } else {
            false
        }
    }
}

/// What holds a pool.
pub trait VideoPool {
    /// The pool as a value, if there is one.
    spec fn pool_spec(&self) -> Option<PoolView>;

    /// The pool, if there is one.
    fn raw_pool(&self) -> (pool: Option<&BufferPool>)
        ensures
            pool is Some == self.pool_spec() is Some,
            pool matches Some(p) ==> Some(p@) == self.pool_spec(),
    ;
}

} // verus!
