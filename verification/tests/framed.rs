use ws2812_pio::color::Color;
use ws2812_pio::driver::TxFifo;
use ws2812_pio::framed::run_frame;
use ws2812_pio::framed::FrameAction;
use ws2812_pio::framed::FrameJob;
use ws2812_pio::framed::FramePhase;
use ws2812_pio::framed::RESET_DELAY_US;

#[test]
fn reset_delay_is_seventy_microseconds() {
    assert_eq!(RESET_DELAY_US, 70);
}

#[test]
fn framed_write_runs_through_all_phases() {
    let colors: Vec<Color> = vec![
        Color { r: 1, g: 2, b: 3 },
        Color { r: 4, g: 5, b: 6 },
    ];
    let mut fw = FrameJob::new(colors);
    assert_eq!(fw.current_phase(), FramePhase::Idle);

    // Leaving Idle clears the stalled flag before anything else.
    assert_eq!(fw.begin(), FrameAction::ClearStall);
    assert_eq!(fw.current_phase(), FramePhase::WaitDrain);

    // While the queue still holds the previous frame and nothing stalled,
    // the drain wait goes on: no overlap with the previous transmission.
    assert_eq!(fw.on_status(false, false), FrameAction::PollStatus);
    assert_eq!(fw.current_phase(), FramePhase::WaitDrain);
    assert_eq!(fw.on_status(false, false), FrameAction::PollStatus);

    // The moment the queue is empty, the full reset countdown starts.
    assert_eq!(fw.on_status(true, false), FrameAction::StartReset(70));
    assert_eq!(fw.current_phase(), FramePhase::WaitReset);

    // A still-running countdown keeps the write waiting; no word can be
    // pushed before it has elapsed.
    assert_eq!(fw.on_timer(false), FrameAction::PollTimer);
    assert_eq!(fw.current_phase(), FramePhase::WaitReset);
    assert_eq!(fw.on_timer(true), FrameAction::PollQueue);
    assert_eq!(fw.current_phase(), FramePhase::Transmitting);

    // Transmission proceeds word by word, in input order, waiting out a
    // full queue.
    assert_eq!(fw.on_queue(false), FrameAction::PushWord(0x0201_0300));
    assert_eq!(fw.on_queue(true), FrameAction::SpinWait);
    assert_eq!(fw.current_phase(), FramePhase::Transmitting);
    assert_eq!(fw.on_queue(false), FrameAction::PushWord(0x0504_0600));
    assert_eq!(fw.on_queue(false), FrameAction::Finished);
    assert_eq!(fw.current_phase(), FramePhase::Idle);
}

#[test]
fn stall_also_ends_the_drain_wait() {
    let mut fw = FrameJob::new(vec![Color { r: 9, g: 9, b: 9 }]);
    assert_eq!(fw.begin(), FrameAction::ClearStall);
    // A reported stall means the peripheral ran dry: treated like a
    // drained queue, silently.
    assert_eq!(fw.on_status(false, true), FrameAction::StartReset(70));
    assert_eq!(fw.current_phase(), FramePhase::WaitReset);
}

#[test]
fn run_frame_drains_leftovers_before_new_words() {
    // Two words of the previous frame are still queued; a frame of three
    // colors through a queue of two. The leftovers leave first, in order,
    // then the new words follow with nothing reordered or dropped.
    let mut fifo = TxFifo::new(2);
    fifo.push(0x1111_1100);
    fifo.push(0x2222_2200);
    let colors: Vec<Color> = vec![
        Color { r: 1, g: 2, b: 3 },
        Color { r: 4, g: 5, b: 6 },
        Color { r: 7, g: 8, b: 9 },
    ];
    let mut seen: Vec<u32> = run_frame(&mut fifo, colors);
    assert_eq!(&seen[0..2], &[0x1111_1100, 0x2222_2200]);
    seen.extend(fifo.contents());
    assert_eq!(
        seen,
        vec![0x1111_1100, 0x2222_2200, 0x0201_0300, 0x0504_0600, 0x0807_0900]
    );
}

#[test]
fn run_frame_empty_queue_and_frame() {
    let mut fifo = TxFifo::new(4);
    let drained: Vec<u32> = run_frame(&mut fifo, Vec::new());
    assert_eq!(drained, Vec::<u32>::new());
    assert_eq!(fifo.len(), 0);
}

#[test]
fn empty_frame_still_waits_out_drain_and_reset() {
    let mut fw = FrameJob::new(Vec::new());
    assert_eq!(fw.begin(), FrameAction::ClearStall);
    assert_eq!(fw.on_status(false, false), FrameAction::PollStatus);
    assert_eq!(fw.on_status(true, false), FrameAction::StartReset(70));
    assert_eq!(fw.on_timer(false), FrameAction::PollTimer);
    assert_eq!(fw.on_timer(true), FrameAction::PollQueue);
    // No words: transmission finishes at once, with nothing pushed.
    assert_eq!(fw.on_queue(false), FrameAction::Finished);
    assert_eq!(fw.current_phase(), FramePhase::Idle);
}
