//! The per-cycle wire waveform the state machine emits for a word.
//!
//! Each wire bit is a ternary waveform: the line is high for the start
//! phase, stays high through the data phase only for a one bit, and is low
//! through the stop phase — so both bit values share the same
//! `CYCLES_PER_BIT` period and the stream stays self-clocking. A word's 24
//! data bits go out most-significant-bit first; the shift stops at the
//! 24-bit pull threshold, so the word's lowest byte is never sampled.

use vstd::prelude::*;
use vstd::arithmetic::div_mod::lemma_fundamental_div_mod_converse;
use crate::divisor::T1;
use crate::divisor::T2;
use crate::divisor::T3;
use crate::divisor::CYCLES_PER_BIT;

verus! {

/// Data bits of one wire word: the shift register stops one byte early.
pub const BITS_PER_WORD: u32 = 24;

/// The line level during cycle `i` of a bit's period: high through the
/// start phase, high through the data phase only for a one bit, low through
/// the stop phase.
pub open spec fn bit_level(bit: bool, i: int) -> bool {
    if i < T1 {
        true
    } else if i < T1 + T2 {
        bit
    } else {
        false
    }
}

/// The whole period of one wire bit, one line level per cycle.
pub open spec fn spec_bit_waveform(bit: bool) -> Seq<bool> {
    Seq::new(CYCLES_PER_BIT as nat, |i: int| bit_level(bit, i))
}

/// Bit `i` of a word in wire order: most-significant bit first.
pub open spec fn wire_bit(w: u32, i: int) -> bool {
    (w >> ((31 - i) as u32)) & 1 == 1
}

/// The waveform of one wire word: its 24 data bits in wire order, each
/// expanded to its per-cycle levels.
pub open spec fn spec_word_waveform(w: u32) -> Seq<bool> {
    Seq::new(
        (BITS_PER_WORD * CYCLES_PER_BIT) as nat,
        |i: int| bit_level(
            wire_bit(w, i / (CYCLES_PER_BIT as int)),
            i % (CYCLES_PER_BIT as int),
        ),
    )
}

/// The waveform of one wire bit.
pub fn bit_waveform(bit: bool) -> (v: Vec<bool>)
    ensures
        v@ == spec_bit_waveform(bit),
{
    let mut v: Vec<bool> = Vec::new();
    let mut i: u32 = 0;
    while i < CYCLES_PER_BIT
        invariant
            i <= CYCLES_PER_BIT,
            v@.len() == i,
            forall|k: int| 0 <= k < i ==> v@[k] == bit_level(bit, k),
        decreases CYCLES_PER_BIT - i,
    {
        let level: bool = if i < T1 {
            true
        } else if i < T1 + T2 {
            bit
        } else {
            false
        };
        v.push(level);
        i = i + 1;
    }
    proof {
        assert(v@ =~= spec_bit_waveform(bit));
    }
    v
}

/// The waveform of one wire word.
pub fn word_waveform(w: u32) -> (v: Vec<bool>)
    ensures
        v@ == spec_word_waveform(w),
{
    let mut v: Vec<bool> = Vec::new();
    let mut b: u32 = 0;
    while b < BITS_PER_WORD
        invariant
            b <= BITS_PER_WORD,
            v@.len() == b * CYCLES_PER_BIT,
            forall|k: int| 0 <= k < v@.len() ==> v@[k] == spec_word_waveform(w)[k],
        decreases BITS_PER_WORD - b,
    {
        let shift: u32 = 31 - b;
        let bit: bool = ((w >> shift) & 1) == 1;
        let mut c: u32 = 0;
        while c < CYCLES_PER_BIT
            invariant
                b < BITS_PER_WORD,
                c <= CYCLES_PER_BIT,
                bit == wire_bit(w, b as int),
                v@.len() == b * CYCLES_PER_BIT + c,
                forall|k: int| 0 <= k < v@.len() ==> v@[k] == spec_word_waveform(w)[k],
            decreases CYCLES_PER_BIT - c,
        {
            let level: bool = if c < T1 {
                true
            } else if c < T1 + T2 {
                bit
            } else {
                false
            };
            proof {
                assert((b as int) * (CYCLES_PER_BIT as int) + (c as int) < 240) by (nonlinear_arith)
                    requires
                        0 <= b < 24,
                        0 <= c < 10,
                ;
                lemma_fundamental_div_mod_converse(
                    b as int * CYCLES_PER_BIT as int + c as int,
                    CYCLES_PER_BIT as int,
                    b as int,
                    c as int,
                );
            }
            v.push(level);
            c = c + 1;
        }
        proof {
            assert((b as int + 1) * (CYCLES_PER_BIT as int) == (b as int) * (CYCLES_PER_BIT as int)
                + CYCLES_PER_BIT as int) by (nonlinear_arith);
        }
        b = b + 1;
    }
    proof {
        assert(v@ =~= spec_word_waveform(w));
    }
    v
}

/// Both bit values occupy exactly the same `CYCLES_PER_BIT`-cycle period —
/// the encoding stays self-clocking whatever the data.
pub proof fn lemma_bit_period(bit: bool)
    ensures
        spec_bit_waveform(bit).len() == CYCLES_PER_BIT,
{
}

/// The period of a bit, cycle by cycle: a one bit holds the line high for
/// exactly the start and data phases (T1 + T2 cycles), a zero bit only for
/// the start phase (T1 cycles), and both end low through the stop phase, so
/// every period closes with T3 low cycles.
pub proof fn lemma_bit_levels(i: int)
    requires
        0 <= i < CYCLES_PER_BIT,
    ensures
        spec_bit_waveform(true)[i] == (i < T1 + T2),
        spec_bit_waveform(false)[i] == (i < T1),
        CYCLES_PER_BIT - T3 <= i ==> !spec_bit_waveform(true)[i] && !spec_bit_waveform(false)[i],
{
}

/// A word's waveform covers its 24 data bits, `CYCLES_PER_BIT` cycles each,
/// and within it bit `b` of the word (in wire order) is encoded over cycles
/// [b * CYCLES_PER_BIT, (b+1) * CYCLES_PER_BIT).
pub proof fn lemma_word_waveform_bits(w: u32, b: int, c: int)
    requires
        0 <= b < BITS_PER_WORD,
        0 <= c < CYCLES_PER_BIT,
    ensures
        spec_word_waveform(w).len() == BITS_PER_WORD * CYCLES_PER_BIT,
        spec_word_waveform(w)[b * CYCLES_PER_BIT + c] == bit_level(wire_bit(w, b), c),
{
    assert(b * (CYCLES_PER_BIT as int) + c < 240) by (nonlinear_arith)
        requires
            0 <= b < 24,
            0 <= c < 10,
    ;
    lemma_fundamental_div_mod_converse(
        b * CYCLES_PER_BIT as int + c,
        CYCLES_PER_BIT as int,
        b,
        c,
    );
}

/// The lowest byte of a wire word is never sampled: two words that agree on
/// their top 24 bits are emitted as the same waveform.
pub proof fn lemma_low_byte_never_sampled(w1: u32, w2: u32)
    requires
        w1 >> 8 == w2 >> 8,
    ensures
        spec_word_waveform(w1) == spec_word_waveform(w2),
{
    assert forall|i: int| 0 <= i < BITS_PER_WORD implies wire_bit(w1, i) == wire_bit(w2, i) by {
        let s = (31 - i) as u32;
        assert((w1 >> s) & 1 == (w2 >> s) & 1) by (bit_vector)
            requires
                w1 >> 8 == w2 >> 8,
                8 <= s <= 31,
        ;
    }
    assert forall|i: int| 0 <= i < 240 implies spec_word_waveform(w1)[i] == spec_word_waveform(
        w2,
    )[i] by {
        assert(0 <= i / (CYCLES_PER_BIT as int) < 24) by (nonlinear_arith)
            requires
                0 <= i < 240,
                CYCLES_PER_BIT == 10,
        ;
        assert(wire_bit(w1, i / (CYCLES_PER_BIT as int)) == wire_bit(
            w2,
            i / (CYCLES_PER_BIT as int),
        ));
    }
    assert(spec_word_waveform(w1) =~= spec_word_waveform(w2));
}

} // verus!
