//! Word-by-word transmission of a frame of colors into the peripheral's
//! transmit queue.
//!
//! The queue itself is hardware; the driver's part is pure decision logic:
//! pack the next color, push its word when the queue has room, spin when it
//! is full, stop when every color has been pushed. `WriteJob` is that logic
//! as a step function from job state and a polled queue-full status to the
//! next action, so the hardware shell only polls and obeys. `TxFifo` is a
//! plain bounded queue standing in for the hardware one, used to run the
//! same logic end to end against a simulated consumer.

use vstd::prelude::*;
use crate::color::Color;
use crate::color::spec_pack;
use crate::color::pack_word;

verus! {

/// The wire words of a color sequence, one packed word per color, in order.
pub open spec fn words_of(s: Seq<Color>) -> Seq<u32> {
    s.map(|i: int, c: Color| spec_pack(c))
}

/// What the transmit loop must do next.
#[derive(Clone, Copy, PartialEq, Eq, Structural, Debug)]
pub enum TxStep {
    /// Push this word into the transmit queue; it has room.
    Push(u32),
    /// The queue is full: idle briefly, then poll it again.
    Wait,
    /// Every color of the job has been pushed.
    Done,
}

/// One frame's worth of colors on their way into the transmit queue: the
/// colors, how many have been pushed, and (as ghost history) the exact words
/// pushed so far.
pub struct WriteJob {
    colors: Vec<Color>,
    idx: usize,
    pushed: Ghost<Seq<u32>>,
}

impl WriteJob {
    /// The job's state is consistent: the pushed history is exactly the
    /// packed prefix of the colors covered so far.
    pub closed spec fn wf(self) -> bool {
        &&& self.idx <= self.colors@.len()
        &&& self.pushed@ == words_of(self.colors@.take(self.idx as int))
    }

    /// The colors this job transmits.
    pub closed spec fn colors(self) -> Seq<Color> {
        self.colors@
    }

    /// The words this job will have pushed when it is done.
    pub open spec fn words(self) -> Seq<u32> {
        words_of(self.colors())
    }

    /// The words pushed so far, in push order.
    pub closed spec fn pushed_words(self) -> Seq<u32> {
        self.pushed@
    }

    /// Whether every color has been pushed.
    pub closed spec fn done(self) -> bool {
        self.idx == self.colors@.len()
    }

    /// Start a job for one frame of colors; nothing is pushed yet.
    pub fn new(colors: Vec<Color>) -> (job: WriteJob)
        ensures
            job.wf(),
            job.colors() == colors@,
            job.pushed_words() == Seq::<u32>::empty(),
    {
        let job = WriteJob { colors, idx: 0, pushed: Ghost(Seq::empty()) };
        proof {
            assert(job.colors@.take(0) =~= Seq::<Color>::empty());
            assert(words_of(Seq::<Color>::empty()) =~= Seq::<u32>::empty());
        }
        job
    }

    /// Whether every color has been pushed.
    pub fn is_done(&self) -> (d: bool)
        ensures
            d == self.done(),
    {
        self.idx == self.colors.len()
    }

    /// One decision of the transmit loop, given the polled queue-full status:
    /// a full queue is only waited out (backpressure is never an error), a
    /// free slot takes the next color's packed word, and a finished job
    /// changes nothing. Words are pushed strictly in input order.
    pub fn step(&mut self, queue_full: bool) -> (a: TxStep)
        requires
            old(self).wf(),
        ensures
            final(self).wf(),
            final(self).colors() == old(self).colors(),
            old(self).done() ==> a == TxStep::Done
                && final(self).pushed_words() == old(self).pushed_words()
                && final(self).done(),
            !old(self).done() && queue_full ==> a == TxStep::Wait
                && final(self).pushed_words() == old(self).pushed_words()
                && !final(self).done(),
            !old(self).done() && !queue_full ==> {
                let w = spec_pack(old(self).colors()[old(self).pushed_words().len() as int]);
                a == TxStep::Push(w)
                    && final(self).pushed_words() == old(self).pushed_words().push(w)
            },
            final(self).pushed_words().len() >= old(self).pushed_words().len(),
    {
        proof {
            lemma_words_of_take_len(self.colors@, self.idx as int);
        }
        if self.idx == self.colors.len() {
            TxStep::Done
        } else if queue_full {
            TxStep::Wait
        } else {
            let c = self.colors[self.idx];
            let w = pack_word(c);
            self.idx = self.idx + 1;
            proof {
                let i = self.idx - 1;
                assert(self.colors@.take(i + 1) =~= self.colors@.take(i).push(self.colors@[i]));
                lemma_words_of_push(self.colors@.take(i), self.colors@[i]);
                self.pushed@ = self.pushed@.push(w);
            }
            TxStep::Push(w)
        }
    }
}

/// `words_of` keeps length.
proof fn lemma_words_of_take_len(s: Seq<Color>, i: int)
    requires
        0 <= i <= s.len(),
    ensures
        words_of(s.take(i)).len() == i,
{
}

/// `words_of` maps a pushed color to a pushed word.
proof fn lemma_words_of_push(s: Seq<Color>, c: Color)
    ensures
        words_of(s.push(c)) == words_of(s).push(spec_pack(c)),
{
    assert(words_of(s.push(c)) =~= words_of(s).push(spec_pack(c)));
}

/// The pushed history never outruns the input: a job has pushed at most one
/// word per color, and is done exactly when it has pushed one for each.
pub proof fn lemma_pushed_bound(job: WriteJob)
    requires
        job.wf(),
    ensures
        job.pushed_words().len() <= job.colors().len(),
        job.done() <==> job.pushed_words().len() == job.colors().len(),
{
}

/// A finished job has pushed exactly one packed word per input color, in
/// input order, with no reordering and no drops.
pub proof fn lemma_write_complete(job: WriteJob)
    requires
        job.wf(),
        job.done(),
    ensures
        job.pushed_words() == job.words(),
{
    assert(job.colors().take(job.colors().len() as int) =~= job.colors());
}

/// An empty frame is a no-op: the job starts out done and no word is ever
/// pushed.
pub proof fn lemma_empty_write(job: WriteJob)
    requires
        job.wf(),
        job.colors().len() == 0,
    ensures
        job.done(),
        job.pushed_words() == Seq::<u32>::empty(),
{
    assert(job.colors().take(0) =~= Seq::<Color>::empty());
    assert(words_of(Seq::<Color>::empty()) =~= Seq::<u32>::empty());
}

/// A plain bounded FIFO standing in for the peripheral's transmit queue: at
/// most `cap` words, pushed at the back, drained from the front.
pub struct TxFifo {
    items: Vec<u32>,
    cap: usize,
}

impl View for TxFifo {
    type V = Seq<u32>;

    closed spec fn view(&self) -> Seq<u32> {
        self.items@
    }
}

impl TxFifo {
    /// The queue's capacity.
    pub closed spec fn capacity(self) -> nat {
        self.cap as nat
    }

    /// The queue never holds more than its capacity, which is at least one.
    pub closed spec fn wf(self) -> bool {
        &&& 1 <= self.cap
        &&& self.items@.len() <= self.cap
    }

    /// An empty queue of the given capacity.
    pub fn new(cap: usize) -> (q: TxFifo)
        requires
            1 <= cap,
        ensures
            q.wf(),
            q@ == Seq::<u32>::empty(),
            q.capacity() == cap,
    {
        TxFifo { items: Vec::new(), cap }
    }

    /// Whether the queue is at capacity.
    pub fn is_full(&self) -> (full: bool)
        ensures
            full == (self@.len() == self.capacity()),
    {
        self.items.len() == self.cap
    }

    /// How many words the queue holds.
    pub fn len(&self) -> (n: usize)
        ensures
            n == self@.len(),
    {
        self.items.len()
    }

    /// Push a word at the back; the queue must have room.
    pub fn push(&mut self, w: u32)
        requires
            old(self).wf(),
            old(self)@.len() < old(self).capacity(),
        ensures
            final(self).wf(),
            final(self)@ == old(self)@.push(w),
            final(self).capacity() == old(self).capacity(),
    {
        self.items.push(w);
    }

    /// Take the oldest word from the front, as the peripheral would.
    pub fn pop_front(&mut self) -> (w: u32)
        requires
            old(self).wf(),
            old(self)@.len() > 0,
        ensures
            final(self).wf(),
            w == old(self)@[0],
            final(self)@ == old(self)@.drop_first(),
            final(self).capacity() == old(self).capacity(),
    {
        let w = self.items.remove(0);
        proof {
            assert(self.items@ =~= old(self).items@.drop_first());
        }
        w
    }

    /// The words in the queue, oldest first.
    pub fn contents(&self) -> (v: Vec<u32>)
        ensures
            v@ == self@,
    {
        let mut v: Vec<u32> = Vec::new();
        let mut i: usize = 0;
        while i < self.items.len()
            invariant
                i <= self.items@.len(),
                v@ == self.items@.take(i as int),
            decreases self.items@.len() - i,
        {
            v.push(self.items[i]);
            proof {
                assert(self.items@.take(i + 1) =~= self.items@.take(i as int).push(
                    self.items@[i as int],
                ));
            }
            i = i + 1;
        }
        proof {
            assert(self.items@.take(self.items@.len() as int) =~= self.items@);
        }
        v
    }
}

/// What a well-formed queue guarantees its callers: it holds at most its
/// capacity, which is at least one.
pub proof fn lemma_fifo_wf(q: TxFifo)
    requires
        q.wf(),
    ensures
        1 <= q.capacity(),
        q@.len() <= q.capacity(),
{
}

/// Run one frame against the simulated queue: push every color's word in
/// order, and whenever the queue is full let the simulated consumer drain one
/// word from the front before trying again. The words drained during the run
/// followed by the words still queued are exactly the words queued before the
/// run followed by the frame's packed words — nothing reordered, nothing
/// dropped, for frames of any length including ones larger than the queue.
pub fn push_frame(fifo: &mut TxFifo, colors: Vec<Color>) -> (drained: Vec<u32>)
    requires
        old(fifo).wf(),
    ensures
        final(fifo).wf(),
        final(fifo).capacity() == old(fifo).capacity(),
        drained@ + final(fifo)@ == old(fifo)@ + words_of(colors@),
{
    let ghost colors_view = colors@;
    let mut job = WriteJob::new(colors);
    let mut drained: Vec<u32> = Vec::new();
    proof {
        assert(drained@ + fifo@ =~= old(fifo)@ + job.pushed_words());
    }
    loop
        invariant
            job.wf(),
            fifo.wf(),
            fifo.capacity() == old(fifo).capacity(),
            job.colors() == colors_view,
            drained@ + fifo@ == old(fifo)@ + job.pushed_words(),
        ensures
            fifo.wf(),
            fifo.capacity() == old(fifo).capacity(),
            drained@ + fifo@ == old(fifo)@ + words_of(colors_view),
        decreases
            colors_view.len() - job.pushed_words().len(),
            fifo@.len(),
    {
        let full = fifo.is_full();
        let ghost pre_drained = drained@;
        let ghost pre_fifo = fifo@;
        let ghost pre_pushed = job.pushed_words();
        match job.step(full) {
            TxStep::Done => {
                proof {
                    lemma_write_complete(job);
                }
                break;
            },
            TxStep::Wait => {
                let w = fifo.pop_front();
                drained.push(w);
                proof {
                    assert(pre_drained.push(pre_fifo[0]) + pre_fifo.drop_first() =~= pre_drained
                        + pre_fifo);
                }
            },
            TxStep::Push(w) => {
                fifo.push(w);
                proof {
                    assert(pre_drained + pre_fifo.push(w) =~= (pre_drained + pre_fifo).push(w));
                    assert((old(fifo)@ + pre_pushed).push(w) =~= old(fifo)@ + pre_pushed.push(w));
                }
            },
        }
    }
    drained
}

} // verus!
