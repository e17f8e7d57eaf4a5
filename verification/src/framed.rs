//! Frame-level transmission: the inter-frame reset period the LEDs need.
//!
//! The LEDs latch a frame when the line stays idle beyond a minimum duration,
//! so before a new frame may be packed the previous frame's words must have
//! fully left the transmit queue and a reset countdown must have elapsed.
//! `FrameJob` is that sequencing as a state machine — Idle, WaitDrain,
//! WaitReset, Transmitting — whose transitions take the polled hardware
//! status and hand back the one action the hardware shell must perform:
//! clear the stall flag, keep polling, start the countdown, push a word.

use vstd::prelude::*;
use crate::color::Color;
use crate::color::spec_pack;
use crate::driver::TxFifo;
use crate::driver::TxStep;
use crate::driver::WriteJob;
use crate::driver::words_of;
use crate::driver::lemma_fifo_wf;
use crate::driver::lemma_pushed_bound;
use crate::driver::lemma_write_complete;

verus! {

/// Length of the one-shot reset countdown, in microseconds. The protocol
/// requires at least 50; 70 leaves a safety margin.
pub const RESET_DELAY_US: u32 = 70;

/// Where a framed write stands.
#[derive(Clone, Copy, PartialEq, Eq, Structural, Debug)]
pub enum FramePhase {
    /// No write in flight.
    Idle,
    /// Waiting for the previous frame's words to leave the transmit queue.
    WaitDrain,
    /// Waiting for the reset countdown to elapse.
    WaitReset,
    /// Pushing this frame's words.
    Transmitting,
}

/// What the hardware shell must do next for a framed write.
#[derive(Clone, Copy, PartialEq, Eq, Structural, Debug)]
pub enum FrameAction {
    /// Clear the peripheral's stalled flag left over from the previous
    /// frame, then poll the queue status.
    ClearStall,
    /// Poll the queue status (empty, stalled) again.
    PollStatus,
    /// Start the one-shot reset countdown for this many microseconds, then
    /// poll it.
    StartReset(u32),
    /// Poll the reset countdown again.
    PollTimer,
    /// Poll whether the transmit queue is full.
    PollQueue,
    /// Push this word into the transmit queue; it has room.
    PushWord(u32),
    /// The queue is full: idle briefly, then poll it again.
    SpinWait,
    /// Every word of the frame has been pushed.
    Finished,
}

/// One framed write: the frame's colors together with the phase the write
/// has reached. Words can only ever be pushed in the Transmitting phase,
/// which is reached from a drained queue through an elapsed reset countdown.
pub struct FrameJob {
    phase: FramePhase,
    job: WriteJob,
}

impl FrameJob {
    /// The write's state is consistent: the inner job is, and before the
    /// reset countdown has elapsed nothing has been pushed.
    pub closed spec fn wf(self) -> bool {
        &&& self.job.wf()
        &&& (self.phase is WaitDrain || self.phase is WaitReset)
            ==> self.job.pushed_words().len() == 0
    }

    /// The phase the write has reached.
    pub closed spec fn phase(self) -> FramePhase {
        self.phase
    }

    /// The colors of this frame.
    pub closed spec fn colors(self) -> Seq<Color> {
        self.job.colors()
    }

    /// The words pushed so far, in push order.
    pub closed spec fn pushed_words(self) -> Seq<u32> {
        self.job.pushed_words()
    }

    /// Whether every word of the frame has been pushed.
    pub closed spec fn transmitted(self) -> bool {
        self.job.done()
    }

    /// Start a framed write for one frame of colors.
    pub fn new(colors: Vec<Color>) -> (fw: FrameJob)
        ensures
            fw.wf(),
            fw.phase() is Idle,
            fw.colors() == colors@,
            fw.pushed_words() == Seq::<u32>::empty(),
    {
        FrameJob { phase: FramePhase::Idle, job: WriteJob::new(colors) }
    }

    /// The phase the write has reached.
    pub fn current_phase(&self) -> (p: FramePhase)
        ensures
            p == self.phase(),
    {
        self.phase
    }

    /// Leave Idle: before anything else the stalled flag the previous frame
    /// may have left must be cleared, and the drain wait begins.
    pub fn begin(&mut self) -> (a: FrameAction)
        requires
            old(self).wf(),
            old(self).phase() is Idle,
            old(self).pushed_words().len() == 0,
        ensures
            final(self).wf(),
            a == FrameAction::ClearStall,
            final(self).phase() is WaitDrain,
            final(self).colors() == old(self).colors(),
            final(self).pushed_words() == old(self).pushed_words(),
    {
        self.phase = FramePhase::WaitDrain;
        FrameAction::ClearStall
    }

    /// One decision of the drain wait, given the polled queue status: the
    /// wait goes on exactly while the queue still holds data and the
    /// peripheral has not stalled; the moment the previous frame's words
    /// have left the queue (or the peripheral reports a stall), the reset
    /// countdown is started for the full reset delay.
    pub fn on_status(&mut self, queue_empty: bool, stalled: bool) -> (a: FrameAction)
        requires
            old(self).wf(),
            old(self).phase() is WaitDrain,
        ensures
            final(self).wf(),
            final(self).colors() == old(self).colors(),
            final(self).pushed_words() == old(self).pushed_words(),
            !queue_empty && !stalled ==> a == FrameAction::PollStatus
                && final(self).phase() is WaitDrain,
            queue_empty || stalled ==> a == FrameAction::StartReset(RESET_DELAY_US)
                && final(self).phase() is WaitReset,
    {
        if !queue_empty && !stalled {
            FrameAction::PollStatus
        } else {
            self.phase = FramePhase::WaitReset;
            FrameAction::StartReset(RESET_DELAY_US)
        }
    }

    /// One decision of the reset wait, given the polled countdown state: a
    /// countdown still running keeps the write waiting, and only an elapsed
    /// countdown lets transmission begin.
    pub fn on_timer(&mut self, elapsed: bool) -> (a: FrameAction)
        requires
            old(self).wf(),
            old(self).phase() is WaitReset,
        ensures
            final(self).wf(),
            final(self).colors() == old(self).colors(),
            final(self).pushed_words() == old(self).pushed_words(),
            !elapsed ==> a == FrameAction::PollTimer && final(self).phase() is WaitReset,
            elapsed ==> a == FrameAction::PollQueue && final(self).phase() is Transmitting,
    {
        if !elapsed {
            FrameAction::PollTimer
        } else {
            self.phase = FramePhase::Transmitting;
            FrameAction::PollQueue
        }
    }

    /// One decision of the transmit loop, given the polled queue-full
    /// status: exactly the plain driver's step. A full queue is waited out,
    /// a free slot takes the next color's packed word, and once every word
    /// has been pushed the write returns to Idle.
    pub fn on_queue(&mut self, queue_full: bool) -> (a: FrameAction)
        requires
            old(self).wf(),
            old(self).phase() is Transmitting,
        ensures
            final(self).wf(),
            final(self).colors() == old(self).colors(),
            old(self).transmitted() ==> a == FrameAction::Finished
                && final(self).phase() is Idle
                && final(self).pushed_words() == old(self).pushed_words()
                && final(self).transmitted(),
            !old(self).transmitted() && queue_full ==> a == FrameAction::SpinWait
                && final(self).phase() is Transmitting
                && final(self).pushed_words() == old(self).pushed_words(),
            !old(self).transmitted() && !queue_full ==> {
                let w = spec_pack(old(self).colors()[old(self).pushed_words().len() as int]);
                a == FrameAction::PushWord(w)
                    && final(self).phase() is Transmitting
                    && final(self).pushed_words() == old(self).pushed_words().push(w)
            },
    {
        match self.job.step(queue_full) {
            TxStep::Done => {
                self.phase = FramePhase::Idle;
                FrameAction::Finished
            },
            TxStep::Wait => FrameAction::SpinWait,
            TxStep::Push(w) => FrameAction::PushWord(w),
        }
    }
}

/// Run one framed write against the simulated queue: drain whatever the
/// previous frame left queued (the simulated consumer takes one word per
/// poll), let the reset countdown elapse, then push the frame's words under
/// the same simulated consumer. Every word the previous frame left behind
/// is drained — in order, ahead of everything else — before this frame's
/// words follow, and the drained words together with the words still queued
/// are exactly the leftovers followed by the frame's packed words.
pub fn run_frame(fifo: &mut TxFifo, colors: Vec<Color>) -> (drained: Vec<u32>)
    requires
        old(fifo).wf(),
    ensures
        final(fifo).wf(),
        final(fifo).capacity() == old(fifo).capacity(),
        drained@ + final(fifo)@ == old(fifo)@ + words_of(colors@),
        old(fifo)@.len() <= drained@.len(),
        drained@.take(old(fifo)@.len() as int) == old(fifo)@,
{
    let ghost colors_view = colors@;
    let mut frame = FrameJob::new(colors);
    let mut drained: Vec<u32> = Vec::new();

    // Idle -> WaitDrain. The simulated queue has no stall flag to clear.
    let _ = frame.begin();

    // WaitDrain -> WaitReset: poll until the queue is empty; on every poll
    // that still finds data, the simulated consumer drains one word.
    loop
        invariant_except_break
            frame.phase() is WaitDrain,
        invariant
            frame.wf(),
            frame.colors() == colors_view,
            frame.pushed_words().len() == 0,
            fifo.wf(),
            fifo.capacity() == old(fifo).capacity(),
            drained@ + fifo@ == old(fifo)@,
        ensures
            frame.wf(),
            frame.phase() is WaitReset,
            frame.colors() == colors_view,
            frame.pushed_words().len() == 0,
            fifo.wf(),
            fifo.capacity() == old(fifo).capacity(),
            fifo@.len() == 0,
            drained@ == old(fifo)@,
        decreases fifo@.len(),
    {
        let queue_empty = fifo.len() == 0;
        let ghost pre_drained = drained@;
        let ghost pre_fifo = fifo@;
        match frame.on_status(queue_empty, false) {
            FrameAction::PollStatus => {
                let w = fifo.pop_front();
                drained.push(w);
                proof {
                    assert(pre_drained.push(pre_fifo[0]) + pre_fifo.drop_first() =~= pre_drained
                        + pre_fifo);
                }
            },
            _ => {
                proof {
                    assert(drained@ =~= drained@ + fifo@);
                }
                break;
            },
        }
    }

    // WaitReset -> Transmitting: the simulated countdown elapses at once.
    let _ = frame.on_timer(true);

    let ghost leftover = drained@;

    // Transmitting -> Idle: push word by word; the simulated consumer
    // drains one word whenever the queue is found full.
    loop
        invariant_except_break
            frame.phase() is Transmitting,
        invariant
            frame.wf(),
            frame.colors() == colors_view,
            fifo.wf(),
            fifo.capacity() == old(fifo).capacity(),
            leftover == old(fifo)@,
            leftover.len() <= drained@.len(),
            drained@.take(leftover.len() as int) == leftover,
            drained@ + fifo@ == old(fifo)@ + frame.pushed_words(),
        ensures
            fifo.wf(),
            fifo.capacity() == old(fifo).capacity(),
            leftover.len() <= drained@.len(),
            drained@.take(leftover.len() as int) == leftover,
            drained@ + fifo@ == old(fifo)@ + words_of(colors_view),
        decreases
            colors_view.len() - frame.pushed_words().len(),
            fifo@.len(),
    {
        proof {
            lemma_pushed_bound(frame.job);
            lemma_fifo_wf(*fifo);
        }
        let full = fifo.is_full();
        let ghost pre_drained = drained@;
        let ghost pre_fifo = fifo@;
        let ghost pre_pushed = frame.pushed_words();
        match frame.on_queue(full) {
            FrameAction::PushWord(w) => {
                fifo.push(w);
                proof {
                    assert(pre_drained + pre_fifo.push(w) =~= (pre_drained + pre_fifo).push(w));
                    assert((old(fifo)@ + pre_pushed).push(w) =~= old(fifo)@ + pre_pushed.push(w));
                }
            },
            FrameAction::SpinWait => {
                let w = fifo.pop_front();
                drained.push(w);
                proof {
                    assert(pre_drained.push(pre_fifo[0]) + pre_fifo.drop_first() =~= pre_drained
                        + pre_fifo);
                    assert(pre_drained.push(pre_fifo[0]).take(leftover.len() as int)
                        =~= pre_drained.take(leftover.len() as int));
                }
            },
            _ => {
                proof {
                    lemma_frame_complete(frame);
                }
                break;
            },
        }
    }
    drained
}

/// Before the reset countdown has elapsed — while the write is still
/// draining the previous frame or waiting out the reset period — not one
/// word of the new frame has been pushed: the drain wait of a write can
/// never overlap its own transmission, and transmission starts only on the
/// far side of the full reset delay.
pub proof fn lemma_no_push_before_reset(fw: FrameJob)
    requires
        fw.wf(),
        fw.phase() is WaitDrain || fw.phase() is WaitReset,
    ensures
        fw.pushed_words() == Seq::<u32>::empty(),
{
    assert(fw.pushed_words() =~= Seq::<u32>::empty());
}

/// A frame whose transmission has completed pushed exactly one packed word
/// per input color, in input order.
pub proof fn lemma_frame_complete(fw: FrameJob)
    requires
        fw.wf(),
        fw.transmitted(),
    ensures
        fw.pushed_words() == words_of(fw.colors()),
{
    lemma_write_complete(fw.job);
}

} // verus!
