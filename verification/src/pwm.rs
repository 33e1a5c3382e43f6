//! The PWM sequence that clocks one frame out to the strip.
//!
//! One WS2812 data bit is one PWM period of `PWM_TOP` ticks. Each sequence
//! word is a raw duty value whose top bit selects inverted polarity, so that
//! `0x8000 | n` keeps the line high for the first `n` ticks of the period.

use vstd::prelude::*;
use crate::color::Grb;
use crate::indicator::Ws2812Indicator;

verus! {

/// PWM counter top: one period is this many ticks of the 16 MHz clock,
/// which is one WS2812 bit time.
pub const PWM_TOP: u16 = 20;

/// Word for a `0` bit: high for 6 of the 20 ticks.
pub const W0: u16 = 0x8000 | 6;

/// Word for a `1` bit: high for 13 of the 20 ticks.
pub const W1: u16 = 0x8000 | 13;

/// All-low word, used for the reset / latch tail after the data.
pub const WRESET: u16 = 0x8000;

/// Data words of one frame: two pixels, three colour bytes each, eight bits per byte.
pub const SEQ_BITS: usize = 2 * 3 * 8;

/// Reset / latch words after the data.
pub const SEQ_RESET: usize = 40;

/// Words in one PWM sequence.
pub const SEQ_LEN: usize = SEQ_BITS + SEQ_RESET;

/// The six colour bytes of a frame, in transmission order: the inner pixel
/// first, each pixel green, red, blue.
pub open spec fn frame_bytes(inner: Grb, outer: Grb) -> Seq<u8> {
    seq![inner.g, inner.r, inner.b, outer.g, outer.r, outer.b]
}

/// Bit `j` of `byte`, counted from the most significant bit (`j == 0`).
pub open spec fn msb_bit(byte: u8, j: int) -> bool {
    (byte >> ((7 - j) as u8)) & 1u8 == 1u8
}

/// The PWM word that sends one data bit.
pub open spec fn bit_word(bit: bool) -> u16 {
    if bit {
        W1
    } else {
        W0
    }
}

/// Word `k` of the sequence that shows `inner` and `outer`: the frame's
/// bytes most significant bit first, then the all-low latch tail.
pub open spec fn frame_word(inner: Grb, outer: Grb, k: int) -> u16 {
    if k < SEQ_BITS {
        bit_word(msb_bit(frame_bytes(inner, outer)[k / 8], k % 8))
    } else {
        WRESET
    }
}

/// The whole sequence that shows `inner` and `outer`.
pub open spec fn frame_words(inner: Grb, outer: Grb) -> Seq<u16> {
    Seq::new(SEQ_LEN as nat, |k: int| frame_word(inner, outer, k))
}

proof fn lemma_top_bit_after_shift(byte: u8, j: u8)
    requires
        j < 8,
    ensures
        ((byte << j) & 0x80u8 != 0u8) == ((byte >> ((7u8 - j) as u8)) & 1u8 == 1u8),
{
    assert(((byte << j) & 0x80u8 != 0u8) == ((byte >> ((7u8 - j) as u8)) & 1u8 == 1u8)) by (bit_vector)
        requires
            j < 8,
    ;
}

proof fn lemma_shift_step(byte: u8, j: u8)
    requires
        j < 7,
    ensures
        ((byte << j) << 1u8) == byte << ((j + 1) as u8),
{
    assert(((byte << j) << 1u8) == byte << ((j + 1) as u8)) by (bit_vector)
        requires
            j < 7,
    ;
}

proof fn lemma_data_words_differ()
    ensures
        W0 != W1,
{
    assert(0x8000u16 | 6u16 != 0x8000u16 | 13u16) by (bit_vector);
}

proof fn lemma_byte_from_msb_bits(a: u8, b: u8)
    requires
        forall|j: int| 0 <= j < 8 ==> msb_bit(a, j) == msb_bit(b, j),
    ensures
        a == b,
{
    assert(msb_bit(a, 0) == msb_bit(b, 0));
    assert(msb_bit(a, 1) == msb_bit(b, 1));
    assert(msb_bit(a, 2) == msb_bit(b, 2));
    assert(msb_bit(a, 3) == msb_bit(b, 3));
    assert(msb_bit(a, 4) == msb_bit(b, 4));
    assert(msb_bit(a, 5) == msb_bit(b, 5));
    assert(msb_bit(a, 6) == msb_bit(b, 6));
    assert(msb_bit(a, 7) == msb_bit(b, 7));
    assert(a == b) by (bit_vector)
        requires
            ((a >> 7u8) & 1u8 == 1u8) == ((b >> 7u8) & 1u8 == 1u8),
            ((a >> 6u8) & 1u8 == 1u8) == ((b >> 6u8) & 1u8 == 1u8),
            ((a >> 5u8) & 1u8 == 1u8) == ((b >> 5u8) & 1u8 == 1u8),
            ((a >> 4u8) & 1u8 == 1u8) == ((b >> 4u8) & 1u8 == 1u8),
            ((a >> 3u8) & 1u8 == 1u8) == ((b >> 3u8) & 1u8 == 1u8),
            ((a >> 2u8) & 1u8 == 1u8) == ((b >> 2u8) & 1u8 == 1u8),
            ((a >> 1u8) & 1u8 == 1u8) == ((b >> 1u8) & 1u8 == 1u8),
            ((a >> 0u8) & 1u8 == 1u8) == ((b >> 0u8) & 1u8 == 1u8),
    ;
}

/// The encoding loses nothing: two colour pairs that give the same PWM
/// sequence are the same colour pairs, so every frame the strip receives
/// names exactly one pair of pixel colours.
pub proof fn lemma_encoding_injective(inner1: Grb, outer1: Grb, inner2: Grb, outer2: Grb)
    requires
        frame_words(inner1, outer1) == frame_words(inner2, outer2),
    ensures
        inner1 == inner2,
        outer1 == outer2,
{
    lemma_data_words_differ();
    let w1 = frame_words(inner1, outer1);
    let w2 = frame_words(inner2, outer2);
    let b1 = frame_bytes(inner1, outer1);
    let b2 = frame_bytes(inner2, outer2);
    assert forall|p: int| 0 <= p < 6 implies b1[p] == b2[p] by {
        assert forall|j: int| 0 <= j < 8 implies msb_bit(b1[p], j) == msb_bit(b2[p], j) by {
            let k = 8 * p + j;
            assert(k / 8 == p && k % 8 == j) by (nonlinear_arith)
                requires
                    k == 8 * p + j,
                    0 <= j < 8,
            ;
            assert(0 <= k < SEQ_BITS);
            assert(w1[k] == frame_word(inner1, outer1, k));
            assert(w2[k] == frame_word(inner2, outer2, k));
            assert(w1[k] == w2[k]);
        }
        lemma_byte_from_msb_bits(b1[p], b2[p]);
    }
    assert(b1[0] == b2[0] && b1[1] == b2[1] && b1[2] == b2[2]);
    assert(b1[3] == b2[3] && b1[4] == b2[4] && b1[5] == b2[5]);
}

/// What the strip receives, stated from the colour fields themselves: the
/// inner pixel's green, red and blue bytes, then the outer pixel's green, red
/// and blue bytes, each most significant bit first, one `W1` word for a set
/// bit and one `W0` word for a clear one; then `SEQ_RESET` all-low words.
pub proof fn lemma_words_carry_grb_fields(inner: Grb, outer: Grb)
    ensures
        frame_words(inner, outer).len() == SEQ_LEN,
        forall|k: int|
            0 <= k < 8 ==> #[trigger] frame_words(inner, outer)[k] == (if (inner.g >> ((7 - k) as u8)) & 1u8
                == 1u8 {
                W1
            } else {
                W0
            }),
        forall|k: int|
            8 <= k < 16 ==> #[trigger] frame_words(inner, outer)[k] == (if (inner.r >> ((15 - k) as u8)) & 1u8
                == 1u8 {
                W1
            } else {
                W0
            }),
        forall|k: int|
            16 <= k < 24 ==> #[trigger] frame_words(inner, outer)[k] == (if (inner.b >> ((23 - k) as u8)) & 1u8
                == 1u8 {
                W1
            } else {
                W0
            }),
        forall|k: int|
            24 <= k < 32 ==> #[trigger] frame_words(inner, outer)[k] == (if (outer.g >> ((31 - k) as u8)) & 1u8
                == 1u8 {
                W1
            } else {
                W0
            }),
        forall|k: int|
            32 <= k < 40 ==> #[trigger] frame_words(inner, outer)[k] == (if (outer.r >> ((39 - k) as u8)) & 1u8
                == 1u8 {
                W1
            } else {
                W0
            }),
        forall|k: int|
            40 <= k < 48 ==> #[trigger] frame_words(inner, outer)[k] == (if (outer.b >> ((47 - k) as u8)) & 1u8
                == 1u8 {
                W1
            } else {
                W0
            }),
        forall|k: int| SEQ_BITS <= k < SEQ_LEN ==> #[trigger] frame_words(inner, outer)[k] == WRESET,
{
    assert forall|k: int| 0 <= k < 8 implies #[trigger] frame_words(inner, outer)[k] == (if (inner.g >> ((7 - k) as u8))
        & 1u8 == 1u8 {
        W1
    } else {
        W0
    }) by {
        assert(k / 8 == 0 && k % 8 == k - 0) by (nonlinear_arith)
            requires
                0 <= k < 8,
        ;
    }
    assert forall|k: int| 8 <= k < 16 implies #[trigger] frame_words(inner, outer)[k] == (if (inner.r >> ((15 - k) as u8))
        & 1u8 == 1u8 {
        W1
    } else {
        W0
    }) by {
        assert(k / 8 == 1 && k % 8 == k - 8) by (nonlinear_arith)
            requires
                8 <= k < 16,
        ;
    }
    assert forall|k: int| 16 <= k < 24 implies #[trigger] frame_words(inner, outer)[k] == (if (inner.b >> ((23 - k) as u8))
        & 1u8 == 1u8 {
        W1
    } else {
        W0
    }) by {
        assert(k / 8 == 2 && k % 8 == k - 16) by (nonlinear_arith)
            requires
                16 <= k < 24,
        ;
    }
    assert forall|k: int| 24 <= k < 32 implies #[trigger] frame_words(inner, outer)[k] == (if (outer.g >> ((31 - k) as u8))
        & 1u8 == 1u8 {
        W1
    } else {
        W0
    }) by {
        assert(k / 8 == 3 && k % 8 == k - 24) by (nonlinear_arith)
            requires
                24 <= k < 32,
        ;
    }
    assert forall|k: int| 32 <= k < 40 implies #[trigger] frame_words(inner, outer)[k] == (if (outer.r >> ((39 - k) as u8))
        & 1u8 == 1u8 {
        W1
    } else {
        W0
    }) by {
        assert(k / 8 == 4 && k % 8 == k - 32) by (nonlinear_arith)
            requires
                32 <= k < 40,
        ;
    }
    assert forall|k: int| 40 <= k < 48 implies #[trigger] frame_words(inner, outer)[k] == (if (outer.b >> ((47 - k) as u8))
        & 1u8 == 1u8 {
        W1
    } else {
        W0
    }) by {
        assert(k / 8 == 5 && k % 8 == k - 40) by (nonlinear_arith)
            requires
                40 <= k < 48,
        ;
    }
}

/// The outer pixel shown green on profile 0 goes out as its green byte 0x10
/// in the fourth byte slot, with its red byte clear.
pub proof fn lemma_green_outer_on_the_wire()
    ensures
        frame_words(Grb::off(), Grb::green())[27] == W1,
        frame_words(Grb::off(), Grb::green())[35] == W0,
        frame_words(Grb::green(), Grb::off())[3] == W1,
        frame_words(Grb::green(), Grb::off())[11] == W0,
{
    lemma_words_carry_grb_fields(Grb::off(), Grb::green());
    lemma_words_carry_grb_fields(Grb::green(), Grb::off());
    assert((0x10u8 >> 4u8) & 1u8 == 1u8) by (bit_vector);
    assert((0u8 >> 4u8) & 1u8 == 0u8) by (bit_vector);
}

impl Ws2812Indicator {
    /// Encode both pixels (GRB, most significant bit first) into the PWM
    /// sequence buffer, followed by the all-low reset / latch tail.
    pub fn encode(buf: &mut [u16; SEQ_LEN], inner: Grb, outer: Grb)
        ensures
            final(buf)@ == frame_words(inner, outer),
    {
        let bytes: [u8; 6] = [inner.g, inner.r, inner.b, outer.g, outer.r, outer.b];
        assert(bytes@ == frame_bytes(inner, outer));
        let mut k: usize = 0;
        let mut i: usize = 0;
        while i < 6
            invariant
                0 <= i <= 6,
                k == 8 * i,
                bytes@ == frame_bytes(inner, outer),
                forall|m: int| 0 <= m < k ==> buf[m] == frame_word(inner, outer, m),
            decreases 6 - i,
        {
            let byte = bytes[i];
            let mut b: u8 = byte;
            let mut j: u8 = 0;
            assert(byte << 0u8 == byte) by (bit_vector);
            while j < 8
                invariant
                    0 <= i < 6,
                    byte == frame_bytes(inner, outer)[i as int],
                    j <= 8,
                    k == 8 * i + j,
                    j < 8 ==> b == byte << j,
                    forall|m: int| 0 <= m < k ==> buf[m] == frame_word(inner, outer, m),
                decreases 8 - j,
            {
                proof {
                    lemma_top_bit_after_shift(byte, j);
                    if j < 7 {
                        lemma_shift_step(byte, j);
                    }
                }
                buf[k] = if b & 0x80 != 0 { W1 } else { W0 };
                assert(k / 8 == i && k % 8 == j) by (nonlinear_arith)
                    requires k == 8 * i + j, j < 8;
                k += 1;
                b <<= 1;
                j += 1;
            }
            i += 1;
        }
        while k < SEQ_LEN
            invariant
                SEQ_BITS <= k <= SEQ_LEN,
                forall|m: int| 0 <= m < k ==> buf[m] == frame_word(inner, outer, m),
            decreases SEQ_LEN - k,
        {
            buf[k] = WRESET;
            k += 1;
        }
        assert(buf@ =~= frame_words(inner, outer));
    }
}

} // verus!
