//! Pixel colours and the breathing curve.

use vstd::prelude::*;

verus! {

/// Frames per breathing period.
pub const BREATH_FRAMES: u32 = 60;

/// Number of samples in the breathing table.
pub const BREATH_LEN: usize = 60;

/// Dim steady level of a lit pixel.
pub const LEVEL: u8 = 0x10;

/// Brightest sample of the breathing curve.
pub const BREATH_PEAK: u8 = 0x20;

/// A single pixel colour in the WS2812 transmission order (green, red, blue).
#[derive(Clone, Copy, Debug, Default, PartialEq, Eq, Structural)]
pub struct Grb {
    pub g: u8,
    pub r: u8,
    pub b: u8,
}

impl Grb {
    /// All channels dark.
    #[verifier::allow_in_spec]
    pub fn off() -> Grb
        returns
            (Grb { g: 0, r: 0, b: 0 }),
    {
        Grb { g: 0, r: 0, b: 0 }
    }

    /// Dim red.
    #[verifier::allow_in_spec]
    pub fn red() -> Grb
        returns
            (Grb { g: 0, r: LEVEL, b: 0 }),
    {
        Grb { g: 0, r: LEVEL, b: 0 }
    }

    /// Dim green.
    #[verifier::allow_in_spec]
    pub fn green() -> Grb
        returns
            (Grb { g: LEVEL, r: 0, b: 0 }),
    {
        Grb { g: LEVEL, r: 0, b: 0 }
    }

    /// Dim blue.
    #[verifier::allow_in_spec]
    pub fn blue() -> Grb
        returns
            (Grb { g: 0, r: 0, b: LEVEL }),
    {
        Grb { g: 0, r: 0, b: LEVEL }
    }

    /// True when at least one channel is lit.
    #[verifier::allow_in_spec]
    pub fn is_lit(&self) -> bool
        returns
            (self.g != 0 || self.r != 0 || self.b != 0),
    {
        self.g != 0 || self.r != 0 || self.b != 0
    }
}

/// The fixed colours light a single channel at the dim level `LEVEL`
/// (0x10); dark lights nothing.
pub proof fn lemma_fixed_colours()
    ensures
        Grb::off() == (Grb { g: 0, r: 0, b: 0 }),
        Grb::red() == (Grb { g: 0, r: 0x10, b: 0 }),
        Grb::green() == (Grb { g: 0x10, r: 0, b: 0 }),
        Grb::blue() == (Grb { g: 0, r: 0, b: 0x10 }),
        !Grb::off().is_lit(),
        Grb::red().is_lit() && Grb::green().is_lit() && Grb::blue().is_lit(),
        forall|c: Grb| c.is_lit() <==> c != Grb::off(),
{
}

/// Distance of sample `i` from the nearer end of the breathing period:
/// it rises from 0 to half a period and falls back.
pub open spec fn breath_ramp(i: int) -> int {
    if i <= BREATH_FRAMES / 2 {
        i
    } else {
        BREATH_FRAMES - i
    }
}

/// Sample `i` of the breathing curve: the ramp scaled so that its top
/// (half a period) reaches `BREATH_PEAK`.
pub open spec fn breath_value(i: int) -> int {
    (breath_ramp(i) * BREATH_PEAK) / (BREATH_FRAMES / 2) as int
}

/// The breathing curve, one sample per frame: a symmetric triangle that
/// climbs from dark to `BREATH_PEAK` and back.
pub fn breath_table() -> (t: [u8; BREATH_LEN])
    ensures
        forall|i: int| 0 <= i < BREATH_LEN ==> t[i] as int == breath_value(i),
{
    let mut t = [0u8; BREATH_LEN];
    let half: u32 = BREATH_FRAMES / 2;
    let mut i: u32 = 0;
    while i < BREATH_FRAMES
        invariant
            i <= BREATH_FRAMES,
            half == BREATH_FRAMES / 2,
            forall|j: int| 0 <= j < i ==> t[j] as int == breath_value(j),
        decreases BREATH_FRAMES - i,
    {
        let up: u32 = if i <= half { i } else { BREATH_FRAMES - i };
        assert(up * (BREATH_PEAK as u32) <= 30 * 32) by (nonlinear_arith)
            requires up <= 30;
        let v: u32 = (up * BREATH_PEAK as u32) / half;
        assert(v <= 32) by (nonlinear_arith)
            requires v == (up * 32) / 30, up <= 30;
        t[i as usize] = v as u8;
        i += 1;
    }
    t
}

/// The breathing curve is a symmetric triangle with no plateau: it starts
/// dark, never leaves `0..=BREATH_PEAK`, reaches the peak exactly at half a
/// period, rises up to there and falls back the same way after it.
pub proof fn lemma_breath_shape()
    ensures
        breath_value(0) == 0,
        breath_value(30) == BREATH_PEAK,
        forall|i: int| 0 <= i < BREATH_FRAMES ==> 0 <= #[trigger] breath_value(i) <= BREATH_PEAK,
        forall|i: int| 0 < i < BREATH_FRAMES ==> #[trigger] breath_value(i) == breath_value(
            BREATH_FRAMES - i,
        ),
        forall|i: int, j: int|
            0 <= i <= j <= BREATH_FRAMES / 2 ==> #[trigger] breath_value(i) <= #[trigger] breath_value(j),
        forall|i: int| 0 <= i < BREATH_FRAMES && i != 30 ==> #[trigger] breath_value(i) < BREATH_PEAK,
        forall|i: int| 0 <= i <= 30 ==> #[trigger] breath_value(i) == (i * 32) / 30,
        forall|i: int| 30 < i < 60 ==> #[trigger] breath_value(i) == ((60 - i) * 32) / 30,
{
    assert forall|i: int| 0 <= i < BREATH_FRAMES implies 0 <= #[trigger] breath_value(i) <= BREATH_PEAK by {
        let u = breath_ramp(i);
        assert(0 <= (u * 32) / 30 <= 32) by (nonlinear_arith)
            requires
                0 <= u <= 30,
        ;
    }
    assert forall|i: int, j: int|
        0 <= i <= j <= BREATH_FRAMES / 2 implies #[trigger] breath_value(i) <= #[trigger] breath_value(j) by {
        assert((i * 32) / 30 <= (j * 32) / 30) by (nonlinear_arith)
            requires
                0 <= i <= j,
        ;
    }
    assert forall|i: int| 0 <= i < BREATH_FRAMES && i != 30 implies #[trigger] breath_value(i) < BREATH_PEAK by {
        let u = breath_ramp(i);
        assert((u * 32) / 30 < 32) by (nonlinear_arith)
            requires
                0 <= u < 30,
        ;
    }
}

} // verus!
