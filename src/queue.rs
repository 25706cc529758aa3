use std::collections::VecDeque;
use vstd::prelude::*;

verus! {

/// What a waiting thread should do next, decided under the queue's lock.
#[derive(PartialEq, Eq, Structural, Clone, Copy, Debug)]
pub enum WaitDecision {
    /// The operation can complete now.
    Proceed,
    /// Sleep on the matching condition (with a timeout) and ask again.
    Wait,
    /// Stop waiting: the queue's waiters were released.
    Release,
}

/// Result of offering an item to the queue.
#[derive(Debug)]
pub enum WriteOutcome<T> {
    /// The item was appended at the tail.
    Written,
    /// The queue is full: wait for a reader, then offer the item again.
    Full(T),
    /// The queue is full and its waiters were released: the item is handed back.
    Cancelled(T),
}

/// Result of asking the queue for its head item.
#[derive(Debug)]
pub enum ReadOutcome<T> {
    /// The head item, now removed from the queue.
    Item(T),
    /// The queue is empty and a blocking reader should wait for a writer.
    Wait,
    /// The queue is empty and the reader returns with nothing.
    Empty,
}

/// The state of a fixed-capacity FIFO hand-off queue, meant to be kept behind
/// one lock and shared between producer and consumer threads.
///
/// Besides the items it holds, the queue remembers (as ghost state) every item
/// ever appended and every item ever handed to a reader, which is how its
/// first-in, first-out behaviour is stated.
pub struct FixedQueue<T> {
    data: VecDeque<T>,
    max_size: usize,
    wait: bool,
    block_on_empty: bool,
    written: Ghost<Seq<T>>,
    delivered: Ghost<Seq<T>>,
}

impl<T> View for FixedQueue<T> {
    type V = Seq<T>;

    /// The items held, head first.
    closed spec fn view(&self) -> Seq<T> {
        self.data@
    }
}

impl<T> FixedQueue<T> {
    /// The most items the queue may hold at once.
    pub closed spec fn capacity(&self) -> nat {
        self.max_size as nat
    }

    /// Whether waiting threads have been told to stop waiting.
    pub closed spec fn cancelled(&self) -> bool {
        !self.wait
    }

    /// Whether a reader of an empty queue waits for a writer rather than
    /// returning at once.
    pub closed spec fn blocks_on_empty(&self) -> bool {
        self.block_on_empty
    }

    /// Every item ever appended, in order of appending.
    pub closed spec fn written(&self) -> Seq<T> {
        self.written@
    }

    /// Every item ever handed to a reader, in order of reading.
    pub closed spec fn delivered(&self) -> Seq<T> {
        self.delivered@
    }

    /// The queue holds at most its capacity, and the items read so far
    /// followed by the items held are exactly the items ever written.
    pub closed spec fn wf(&self) -> bool {
        &&& self.data@.len() <= self.max_size
        &&& self.delivered@ + self.data@ == self.written@
    }

    /// What a writer does: append while there is room, otherwise wait for a
    /// reader unless waiters were released.
    pub open spec fn writer_decision(&self) -> WaitDecision {
        if self@.len() < self.capacity() {
            WaitDecision::Proceed
        } else if self.cancelled() {
            WaitDecision::Release
        } else {
            WaitDecision::Wait
        }
    }

    /// What a reader does: take the head if there is one; on an empty queue,
    /// wait only in blocking mode and only while waiters are not released.
    pub open spec fn reader_decision(&self) -> WaitDecision {
        if self@.len() > 0 {
            WaitDecision::Proceed
        } else if self.blocks_on_empty() && !self.cancelled() {
            WaitDecision::Wait
        } else {
            WaitDecision::Release
        }
    }

    /// Everything but the held items and the history stays as it was.
    pub open spec fn same_settings(&self, other: &Self) -> bool {
        &&& self.capacity() == other.capacity()
        &&& self.cancelled() == other.cancelled()
        &&& self.blocks_on_empty() == other.blocks_on_empty()
    }

    /// An empty queue for `max_size` items whose readers never block.
    pub fn new(max_size: usize) -> (q: Self)
        ensures
            q.wf(),
            q@ == Seq::<T>::empty(),
            q.capacity() == max_size,
            !q.cancelled(),
            !q.blocks_on_empty(),
            q.written() == Seq::<T>::empty(),
            q.delivered() == Seq::<T>::empty(),
    {
        Self::with_blocking_reads(max_size, false)
    }

    /// An empty queue for `max_size` items; `block_on_empty` selects whether a
    /// reader of an empty queue waits for a writer.
    pub fn with_blocking_reads(max_size: usize, block_on_empty: bool) -> (q: Self)
        ensures
            q.wf(),
            q@ == Seq::<T>::empty(),
            q.capacity() == max_size,
            !q.cancelled(),
            q.blocks_on_empty() == block_on_empty,
            q.written() == Seq::<T>::empty(),
            q.delivered() == Seq::<T>::empty(),
    {
        let q = FixedQueue {
            data: VecDeque::new(),
            max_size,
            wait: true,
            block_on_empty,
            written: Ghost(Seq::empty()),
            delivered: Ghost(Seq::empty()),
        };
        proof {
            assert(q.delivered@ + q.data@ =~= q.written@);
        }
        q
    }

    /// Decides whether a writer may append now, must wait for a reader, or
    /// was released.
    pub fn wait_for_read(&self) -> (r: WaitDecision)
        requires
            self.wf(),
        ensures
            r == self.writer_decision(),
    {
        if self.data.len() < self.max_size {
            WaitDecision::Proceed
        } else if !self.wait {
            WaitDecision::Release
        } else {
            WaitDecision::Wait
        }
    }

    /// Offers `value` to the queue. It is appended at the tail if there is
    /// room; otherwise it is handed back, as `Full` while writers should keep
    /// waiting and as `Cancelled` once they were released. The queue never
    /// holds more than its capacity and never loses an item.
    pub fn write(&mut self, value: T) -> (r: WriteOutcome<T>)
        requires
            old(self).wf(),
        ensures
            final(self).wf(),
            final(self).same_settings(old(self)),
            final(self).delivered() == old(self).delivered(),
            old(self).writer_decision() == WaitDecision::Proceed ==> {
                &&& r is Written
                &&& final(self)@ == old(self)@.push(value)
                &&& final(self).written() == old(self).written().push(value)
            },
            old(self).writer_decision() == WaitDecision::Wait ==> {
                &&& r == WriteOutcome::Full(value)
                &&& final(self)@ == old(self)@
                &&& final(self).written() == old(self).written()
            },
            old(self).writer_decision() == WaitDecision::Release ==> {
                &&& r == WriteOutcome::Cancelled(value)
                &&& final(self)@ == old(self)@
                &&& final(self).written() == old(self).written()
            },
    {
        match self.wait_for_read() {
            WaitDecision::Proceed => {
                self.data.push_back(value);
                proof {
                    self.written@ = self.written@.push(value);
                    assert(self.delivered@ + self.data@ =~= self.written@);
                }
                WriteOutcome::Written
            },
            WaitDecision::Wait => WriteOutcome::Full(value),
            WaitDecision::Release => WriteOutcome::Cancelled(value),
        }
    }

    /// Decides whether a reader may take the head now, must wait for a
    /// writer, or returns with nothing.
    pub fn wait_for_write(&self) -> (r: WaitDecision)
        requires
            self.wf(),
        ensures
            r == self.reader_decision(),
    {
        if self.data.len() > 0 {
            WaitDecision::Proceed
        } else if self.block_on_empty && self.wait {
            WaitDecision::Wait
        } else {
            WaitDecision::Release
        }
    }

    /// Removes and returns the head item, or `None` if the queue is empty.
    pub fn read(&mut self) -> (r: Option<T>)
        requires
            old(self).wf(),
        ensures
            final(self).wf(),
            final(self).same_settings(old(self)),
            final(self).written() == old(self).written(),
            old(self)@.len() == 0 ==> {
                &&& r is None
                &&& final(self)@ == old(self)@
                &&& final(self).delivered() == old(self).delivered()
            },
            old(self)@.len() > 0 ==> {
                &&& r == Some(old(self)@[0])
                &&& final(self)@ == old(self)@.drop_first()
                &&& final(self).delivered() == old(self).delivered().push(old(self)@[0])
            },
    {
        let r = self.data.pop_front();
        proof {
            if old(self)@.len() > 0 {
                self.delivered@ = self.delivered@.push(old(self)@[0]);
                assert(self.delivered@ + self.data@ =~= self.written@) by {
                    assert(old(self).delivered@ + old(self).data@ == old(self).written@);
                    assert(old(self).data@ =~= seq![old(self)@[0]] + self.data@);
                }
            }
        }
        r
    }

    /// A read in the queue's own mode: the head item if there is one;
    /// otherwise `Wait` for a blocking reader while waiters are not released,
    /// and `Empty` in every other case.
    pub fn read_step(&mut self) -> (r: ReadOutcome<T>)
        requires
            old(self).wf(),
        ensures
            final(self).wf(),
            final(self).same_settings(old(self)),
            final(self).written() == old(self).written(),
            old(self).reader_decision() == WaitDecision::Proceed ==> {
                &&& r == ReadOutcome::Item(old(self)@[0])
                &&& final(self)@ == old(self)@.drop_first()
                &&& final(self).delivered() == old(self).delivered().push(old(self)@[0])
            },
            old(self).reader_decision() == WaitDecision::Wait ==> {
                &&& r is Wait
                &&& final(self)@ == old(self)@
                &&& final(self).delivered() == old(self).delivered()
            },
            old(self).reader_decision() == WaitDecision::Release ==> {
                &&& r is Empty
                &&& final(self)@ == old(self)@
                &&& final(self).delivered() == old(self).delivered()
            },
    {
        match self.wait_for_write() {
            WaitDecision::Proceed => match self.read() {
                Some(item) => ReadOutcome::Item(item),
                None => ReadOutcome::Empty,
            },
            WaitDecision::Wait => ReadOutcome::Wait,
            WaitDecision::Release => ReadOutcome::Empty,
        }
    }

    /// Flips whether waiting threads keep waiting: the first call releases
    /// them, a second one makes them wait again.
    pub fn toggle_wait(&mut self)
        requires
            old(self).wf(),
        ensures
            final(self).wf(),
            final(self).cancelled() == !old(self).cancelled(),
            final(self)@ == old(self)@,
            final(self).capacity() == old(self).capacity(),
            final(self).blocks_on_empty() == old(self).blocks_on_empty(),
            final(self).written() == old(self).written(),
            final(self).delivered() == old(self).delivered(),
    {
        self.wait = !self.wait;
    }

    /// Releases every waiting reader and writer.
    pub fn cancel(&mut self)
        requires
            old(self).wf(),
        ensures
            final(self).wf(),
            final(self).cancelled(),
            final(self)@ == old(self)@,
            final(self).capacity() == old(self).capacity(),
            final(self).blocks_on_empty() == old(self).blocks_on_empty(),
            final(self).written() == old(self).written(),
            final(self).delivered() == old(self).delivered(),
    {
        self.wait = false;
    }

    /// Makes readers and writers wait again after a `cancel`.
    pub fn resume(&mut self)
        requires
            old(self).wf(),
        ensures
            final(self).wf(),
            !final(self).cancelled(),
            final(self)@ == old(self)@,
            final(self).capacity() == old(self).capacity(),
            final(self).blocks_on_empty() == old(self).blocks_on_empty(),
            final(self).written() == old(self).written(),
            final(self).delivered() == old(self).delivered(),
    {
        self.wait = true;
    }
}

/// First in, first out: over any interleaving of writes and reads, the i-th
/// item ever read is the i-th item ever written, and the items still held are
/// the written items not read yet, in the order they were written.
pub proof fn lemma_fifo<T>(q: &FixedQueue<T>)
    requires
        q.wf(),
    ensures
        q.delivered().len() + q@.len() == q.written().len(),
        forall|i: int| 0 <= i < q.delivered().len() ==> #[trigger] q.delivered()[i] == q.written()[i],
        forall|i: int| 0 <= i < q@.len() ==> #[trigger] q@[i] == q.written()[q.delivered().len() + i],
{
    assert forall|i: int| 0 <= i < q.delivered().len() implies #[trigger] q.delivered()[i] == q.written()[i] by {
        assert((q.delivered() + q@)[i] == q.delivered()[i]);
    }
    assert forall|i: int| 0 <= i < q@.len() implies #[trigger] q@[i] == q.written()[q.delivered().len() + i] by {
        assert((q.delivered() + q@)[q.delivered().len() + i] == q@[i]);
    }
}

/// A queue never holds more than its capacity, however fast items are
/// offered: a full queue lets no writer append until a reader takes an item.
pub proof fn lemma_bounded<T>(q: &FixedQueue<T>)
    requires
        q.wf(),
    ensures
        q@.len() <= q.capacity(),
        q@.len() == q.capacity() ==> q.writer_decision() != WaitDecision::Proceed,
{
}

/// Releasing the waiters of a full queue frees a writer blocked on it: with
/// no read in between, its next attempt returns instead of waiting.
pub proof fn lemma_cancel_frees_writer<T>(blocked: &FixedQueue<T>, released: &FixedQueue<T>)
    requires
        blocked.wf(),
        released.wf(),
        blocked@.len() == blocked.capacity(),
        released@ == blocked@,
        released.capacity() == blocked.capacity(),
        released.cancelled(),
    ensures
        released.writer_decision() == WaitDecision::Release,
{
}

/// A blocking reader of an empty, running queue waits rather than returning,
/// and once one item `x` has been written it proceeds and takes `x`.
pub proof fn lemma_blocking_reader_gets_item<T>(empty: &FixedQueue<T>, filled: &FixedQueue<T>, x: T)
    requires
        empty.wf(),
        empty@.len() == 0,
        empty.blocks_on_empty(),
        !empty.cancelled(),
        filled.wf(),
        filled.same_settings(empty),
        filled@ == empty@.push(x),
    ensures
        empty.reader_decision() == WaitDecision::Wait,
        filled.reader_decision() == WaitDecision::Proceed,
        filled@[0] == x,
{
}

} // verus!
