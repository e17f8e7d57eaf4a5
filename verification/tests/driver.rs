use ws2812_pio::color::Color;
use ws2812_pio::driver::push_frame;
use ws2812_pio::driver::TxFifo;
use ws2812_pio::driver::TxStep;
use ws2812_pio::driver::WriteJob;

#[test]
fn write_job_pushes_in_order_under_backpressure() {
    let colors: Vec<Color> = vec![
        Color { r: 1, g: 2, b: 3 },
        Color { r: 4, g: 5, b: 6 },
    ];
    let mut job = WriteJob::new(colors);
    assert!(!job.is_done());
    assert_eq!(job.step(false), TxStep::Push(0x0201_0300));
    // A full queue only makes the job wait; nothing is lost or reordered.
    assert_eq!(job.step(true), TxStep::Wait);
    assert_eq!(job.step(true), TxStep::Wait);
    assert_eq!(job.step(false), TxStep::Push(0x0504_0600));
    assert!(job.is_done());
    assert_eq!(job.step(false), TxStep::Done);
    assert_eq!(job.step(true), TxStep::Done);
}

#[test]
fn empty_write_is_a_no_op() {
    let mut job = WriteJob::new(Vec::new());
    assert!(job.is_done());
    assert_eq!(job.step(false), TxStep::Done);

    let mut fifo = TxFifo::new(4);
    let drained: Vec<u32> = push_frame(&mut fifo, Vec::new());
    assert_eq!(drained, Vec::<u32>::new());
    assert_eq!(fifo.contents(), Vec::<u32>::new());
    assert_eq!(fifo.len(), 0);
}

#[test]
fn fifo_keeps_order_and_capacity() {
    let mut fifo = TxFifo::new(2);
    assert!(!fifo.is_full());
    fifo.push(10);
    fifo.push(20);
    assert!(fifo.is_full());
    assert_eq!(fifo.pop_front(), 10);
    assert!(!fifo.is_full());
    fifo.push(30);
    assert_eq!(fifo.pop_front(), 20);
    assert_eq!(fifo.pop_front(), 30);
    assert_eq!(fifo.len(), 0);
}

#[test]
fn push_frame_small_frame_fits_queue() {
    let colors: Vec<Color> = vec![
        Color { r: 1, g: 2, b: 3 },
        Color { r: 4, g: 5, b: 6 },
        Color { r: 7, g: 8, b: 9 },
    ];
    let mut fifo = TxFifo::new(8);
    let drained: Vec<u32> = push_frame(&mut fifo, colors);
    assert_eq!(drained, Vec::<u32>::new());
    assert_eq!(fifo.contents(), vec![0x0201_0300, 0x0504_0600, 0x0807_0900]);
}

#[test]
fn push_frame_larger_than_queue_drops_nothing() {
    // Ten colors through a queue of two: the simulated consumer drains on
    // every full poll, and drained words followed by queued words are the
    // ten packed words in input order.
    let mut colors: Vec<Color> = Vec::new();
    let mut expected: Vec<u32> = Vec::new();
    for i in 0..10u32 {
        let c = Color { r: i as u8, g: (10 + i) as u8, b: (20 + i) as u8 };
        colors.push(c);
        expected.push(((10 + i) << 24) | (i << 16) | ((20 + i) << 8));
    }
    let mut fifo = TxFifo::new(2);
    let mut seen: Vec<u32> = push_frame(&mut fifo, colors);
    seen.extend(fifo.contents());
    assert_eq!(seen, expected);
}

#[test]
fn push_frame_appends_after_earlier_words() {
    let mut fifo = TxFifo::new(4);
    fifo.push(0xaaaa_aa00);
    let drained: Vec<u32> = push_frame(&mut fifo, vec![Color { r: 1, g: 2, b: 3 }]);
    let mut seen: Vec<u32> = drained;
    seen.extend(fifo.contents());
    assert_eq!(seen, vec![0xaaaa_aa00, 0x0201_0300]);
}
