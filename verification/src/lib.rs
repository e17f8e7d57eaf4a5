//! Protocol encoder for WS2812-style single-wire RGB LEDs driven by a
//! programmable I/O state machine.
//!
//! The crate holds the timing-critical core of such a driver: the fixed-point
//! clock-divisor computation that makes the state machine tick at the wire
//! protocol's rate, the packing of RGB colors into the 32-bit words the
//! peripheral shifts out, and the word-by-word transmit logic — both the plain
//! push-under-backpressure loop and the framed variant that enforces the
//! inter-frame reset period the LEDs need to latch — together with a model
//! of the per-cycle waveform the state machine emits for each word.
//!
//! The hardware itself (peripheral setup, pin configuration, the transmit
//! FIFO's registers and the countdown timer) sits outside this crate; the
//! transmit logic is expressed as step functions from driver state and a
//! polled hardware status to the next state and the action to perform, so a
//! thin hardware shell can run it unchanged.

pub mod color;
pub mod divisor;
pub mod driver;
pub mod framed;
pub mod wire;
