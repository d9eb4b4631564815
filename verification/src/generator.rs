//! From a seed to a drawing: the numbers that describe one squiggle.
//!
//! The 32 bytes of a seed are carved up once and for all:
//!
//! | bytes   | value                                                        |
//! |---------|--------------------------------------------------------------|
//! | 0       | number of oscillations: 4 + byte mod 12                      |
//! | 1       | stroke width: 10 + byte mod 71                               |
//! | 2       | period: 20 + byte mod 81                                     |
//! | 3, 4    | amplitude: 100 + (256 * byte 3 + byte 4) mod 501             |
//! | 5       | gradient: byte mod 4                                         |
//! | 6..=13  | one half byte for each segment: how far it advances          |
//! | 16..=31 | one byte for each vertex: how far it swings from the centre  |
//!
//! The half bytes of bytes 6 to 13 are taken high half first; bytes 14 and
//! 15 are not used.
//!
//! A squiggle of `n` oscillations is a line through `n + 1` vertices. It
//! starts at the left margin; each segment advances by an even share of the
//! usable width, moved by up to half a period either way, and never past the
//! right margin. The vertices swing above and below the centre line in turn,
//! by at most the amplitude, and never off the canvas.
use vstd::prelude::*;
use crate::primitives::Seed;

verus! {

pub const SVG_WIDTH: i32 = 1000;

pub const SVG_HEIGHT: i32 = 1000;

/// The empty band at the left and at the right of the canvas.
pub const MARGIN: i32 = 50;

pub const MIN_OSCILLATIONS: usize = 4;

pub const MAX_OSCILLATIONS: usize = 15;

pub const MIN_STROKE_WIDTH: usize = 10;

pub const MAX_STROKE_WIDTH: usize = 80;

pub const MIN_PERIOD: usize = 20;

pub const MAX_PERIOD: usize = 100;

pub const MIN_AMPLITUDE: usize = 100;

pub const MAX_AMPLITUDE: usize = 600;

/// The number of gradients in the palette.
pub const GRADIENTS: u8 = 4;

/// The width between the margins.
pub open spec fn usable_width() -> int {
    SVG_WIDTH - 2 * MARGIN
}

/// The number of oscillations of the squiggle, from byte 0.
pub open spec fn oscillations(seed: Seq<u8>) -> int {
    4 + seed[0] as int % 12
}

/// The width of the stroke, from byte 1.
pub open spec fn stroke_width(seed: Seq<u8>) -> int {
    10 + seed[1] as int % 71
}

/// The period, from byte 2: how much the spacing of the vertices varies.
pub open spec fn period(seed: Seq<u8>) -> int {
    20 + seed[2] as int % 81
}

/// The amplitude, from bytes 3 and 4: the largest swing from the centre line.
pub open spec fn amplitude(seed: Seq<u8>) -> int {
    100 + (256 * seed[3] as int + seed[4] as int) % 501
}

/// The gradient of the stroke, from byte 5.
pub open spec fn gradient_type(seed: Seq<u8>) -> int {
    seed[5] as int % 4
}

/// The half byte that belongs to segment `i`: the high half of byte
/// `6 + i / 2` for an even `i`, the low half for an odd one.
pub open spec fn segment_nibble(seed: Seq<u8>, i: int) -> int {
    let byte = seed[6 + i / 2] as int;
    if i % 2 == 0 {
        byte / 16
    } else {
        byte % 16
    }
}

/// How far segment `i` advances to the right.
pub open spec fn advance(seed: Seq<u8>, i: int) -> int {
    usable_width() / oscillations(seed) - period(seed) / 2 + period(seed) * segment_nibble(seed, i)
        / 15
}

/// The distance of vertex `k` from the left margin.
pub open spec fn x_offset(seed: Seq<u8>, k: nat) -> int
    decreases k,
{
    if k == 0 {
        0
    } else {
        let reach = x_offset(seed, (k - 1) as nat) + advance(seed, k - 1);
        if reach < usable_width() {
            reach
        } else {
            usable_width()
        }
    }
}

/// How far vertex `k` swings from the centre line, from byte `16 + k`.
pub open spec fn swing(seed: Seq<u8>, k: int) -> int {
    amplitude(seed) * (seed[16 + k] as int + 1) / 256
}

/// The height of vertex `k`: above the centre line for an even `k`, below it
/// for an odd one, and within the canvas.
pub open spec fn y_coordinate(seed: Seq<u8>, k: int) -> int {
    if k % 2 == 0 {
        if swing(seed, k) > SVG_HEIGHT / 2 {
            0
        } else {
            SVG_HEIGHT / 2 - swing(seed, k)
        }
    } else {
        if swing(seed, k) > SVG_HEIGHT / 2 {
            SVG_HEIGHT as int
        } else {
            SVG_HEIGHT / 2 + swing(seed, k)
        }
    }
}

/// A drawing as numbers: what `SquiggleParameters` holds.
pub struct Drawing {
    /// For each vertex but the first, its distance from the left margin.
    pub x_offsets: Seq<int>,
    /// For each vertex, its height.
    pub y_coordinates: Seq<int>,
    pub stroke_width: int,
    /// How much the spacing of the vertices varies.
    pub period: int,
    /// The largest swing of a vertex from the centre line.
    pub amplitude: int,
    pub gradient_type: int,
}

impl Drawing {
    /// Whether the drawing can be rendered: between 4 and 15 segments, one
    /// height for each vertex, every vertex between the margins and on the
    /// canvas, a stroke width between 10 and 80, a period between 20 and 100,
    /// an amplitude between 100 and 600, a gradient of the palette.
    pub open spec fn well_formed(self) -> bool {
        &&& MIN_OSCILLATIONS <= self.x_offsets.len() <= MAX_OSCILLATIONS
        &&& self.y_coordinates.len() == self.x_offsets.len() + 1
        &&& forall|i: int|
            0 <= i < self.x_offsets.len() ==> 0 <= #[trigger] self.x_offsets[i] <= usable_width()
        &&& forall|k: int|
            0 <= k < self.y_coordinates.len() ==> 0 <= #[trigger] self.y_coordinates[k]
                <= SVG_HEIGHT
        &&& MIN_STROKE_WIDTH <= self.stroke_width <= MAX_STROKE_WIDTH
        &&& MIN_PERIOD <= self.period <= MAX_PERIOD
        &&& MIN_AMPLITUDE <= self.amplitude <= MAX_AMPLITUDE
        &&& 0 <= self.gradient_type < GRADIENTS
    }

    /// The horizontal position of vertex `k` on the canvas.
    pub open spec fn vertex_x(self, k: int) -> int {
        if k == 0 {
            MARGIN as int
        } else {
            MARGIN + self.x_offsets[k - 1]
        }
    }
}

/// The drawing that a seed determines.
pub open spec fn drawing(seed: Seq<u8>) -> Drawing {
    Drawing {
        x_offsets: Seq::new(oscillations(seed) as nat, |i: int| x_offset(seed, (i + 1) as nat)),
        y_coordinates: Seq::new((oscillations(seed) + 1) as nat, |k: int| y_coordinate(seed, k)),
        stroke_width: stroke_width(seed),
        period: period(seed),
        amplitude: amplitude(seed),
        gradient_type: gradient_type(seed),
    }
}

/// The numbers of one drawing.
#[derive(Clone, Debug, PartialEq, Eq)]
pub struct SquiggleParameters {
    pub x_offsets: Vec<i32>,
    pub y_coordinates: Vec<i32>,
    pub stroke_width: i32,
    pub period: i32,
    pub amplitude: i32,
    pub gradient_type: u8,
}

impl View for SquiggleParameters {
    type V = Drawing;

    open spec fn view(&self) -> Drawing {
        Drawing {
            x_offsets: self.x_offsets@.map_values(|x: i32| x as int),
            y_coordinates: self.y_coordinates@.map_values(|y: i32| y as int),
            stroke_width: self.stroke_width as int,
            period: self.period as int,
            amplitude: self.amplitude as int,
            gradient_type: self.gradient_type as int,
        }
    }
}

impl SquiggleParameters {
    /// Whether the drawing can be rendered.
    pub fn is_well_formed(&self) -> (ok: bool)
        ensures
            ok == self@.well_formed(),
    {
        let segments = self.x_offsets.len();
        if segments < MIN_OSCILLATIONS || segments > MAX_OSCILLATIONS || self.y_coordinates.len()
            != segments + 1 {
            return false;
        }
        if self.stroke_width < MIN_STROKE_WIDTH as i32 || self.stroke_width
            > MAX_STROKE_WIDTH as i32 || self.gradient_type >= GRADIENTS {
            return false;
        }
        if self.period < MIN_PERIOD as i32 || self.period > MAX_PERIOD as i32 || self.amplitude
            < MIN_AMPLITUDE as i32 || self.amplitude > MAX_AMPLITUDE as i32 {
            return false;
        }
        let mut i: usize = 0;
        while i < segments
            invariant
                segments == self.x_offsets@.len(),
                i <= segments,
                forall|j: int| 0 <= j < i ==> 0 <= #[trigger] self@.x_offsets[j] <= usable_width(),
            decreases segments - i,
        {
            if self.x_offsets[i] < 0 || self.x_offsets[i] > SVG_WIDTH - 2 * MARGIN {
                assert(!(0 <= self@.x_offsets[i as int] <= usable_width()));
                return false;
            }
            i += 1;
        }
        let mut k: usize = 0;
        while k <= segments
            invariant
                segments <= MAX_OSCILLATIONS,
                segments + 1 == self.y_coordinates@.len(),
                k <= segments + 1,
                forall|j: int| 0 <= j < k ==> 0 <= #[trigger] self@.y_coordinates[j] <= SVG_HEIGHT,
            decreases segments + 1 - k,
        {
            if self.y_coordinates[k] < 0 || self.y_coordinates[k] > SVG_HEIGHT {
                assert(!(0 <= self@.y_coordinates[k as int] <= SVG_HEIGHT));
                return false;
            }
            k += 1;
        }
        true
    }
}

/// Every seed gives between 4 and 15 oscillations, a stroke width between 10
/// and 80, a period between 20 and 100, an amplitude between 100 and 600 and
/// a gradient of the palette.
pub proof fn lemma_parameter_ranges(seed: Seq<u8>)
    ensures
        MIN_OSCILLATIONS <= oscillations(seed) <= MAX_OSCILLATIONS,
        MIN_STROKE_WIDTH <= stroke_width(seed) <= MAX_STROKE_WIDTH,
        MIN_PERIOD <= period(seed) <= MAX_PERIOD,
        MIN_AMPLITUDE <= amplitude(seed) <= MAX_AMPLITUDE,
        0 <= gradient_type(seed) < GRADIENTS,
{
}

/// Every segment advances to the right, by at least 10 and at most 275.
pub proof fn lemma_advance_range(seed: Seq<u8>, i: int)
    ensures
        10 <= advance(seed, i) <= 275,
{
    let n = oscillations(seed);
    let p = period(seed);
    let nibble = segment_nibble(seed, i);
    assert(0 <= nibble <= 15);
    assert(60 <= 900int / n <= 225) by (nonlinear_arith)
        requires
            4 <= n <= 15,
    ;
    assert(0 <= p * nibble <= 15 * p) by (nonlinear_arith)
        requires
            0 <= nibble <= 15,
            20 <= p <= 100,
    ;
}

/// Every vertex lies between the margins, and no vertex lies to the left of
/// the one before it.
pub proof fn lemma_x_offset_range(seed: Seq<u8>, k: nat)
    ensures
        0 <= x_offset(seed, k) <= usable_width(),
        k > 0 ==> x_offset(seed, (k - 1) as nat) <= x_offset(seed, k),
    decreases k,
{
    if k > 0 {
        lemma_x_offset_range(seed, (k - 1) as nat);
        lemma_advance_range(seed, k - 1);
    }
}

/// No vertex swings further than the amplitude.
pub proof fn lemma_swing_range(seed: Seq<u8>, k: int)
    ensures
        0 <= swing(seed, k) <= amplitude(seed),
{
    let a = amplitude(seed);
    let m = seed[16 + k] as int + 1;
    assert(0 <= a * m / 256 <= a) by (nonlinear_arith)
        requires
            0 <= a,
            1 <= m <= 256,
    ;
}

/// Every vertex lies on the canvas, and no further from the centre line
/// than the amplitude.
pub proof fn lemma_y_coordinate_range(seed: Seq<u8>, k: int)
    ensures
        0 <= y_coordinate(seed, k) <= SVG_HEIGHT,
        SVG_HEIGHT / 2 - amplitude(seed) <= y_coordinate(seed, k) <= SVG_HEIGHT / 2 + amplitude(
            seed,
        ),
{
    lemma_swing_range(seed, k);
}

/// The drawing of every seed is well formed: its numbers are in their
/// ranges and all its vertices lie on the canvas, between the margins.
pub proof fn lemma_drawing_well_formed(seed: Seq<u8>)
    ensures
        drawing(seed).well_formed(),
        forall|k: int|
            0 <= k <= oscillations(seed) ==> MARGIN <= #[trigger] drawing(seed).vertex_x(k)
                <= SVG_WIDTH - MARGIN,
{
    let d = drawing(seed);
    lemma_parameter_ranges(seed);
    assert forall|i: int| 0 <= i < d.x_offsets.len() implies 0 <= #[trigger] d.x_offsets[i]
        <= usable_width() by {
        lemma_x_offset_range(seed, (i + 1) as nat);
    }
    assert forall|k: int| 0 <= k < d.y_coordinates.len() implies 0 <= #[trigger] d.y_coordinates[k]
        <= SVG_HEIGHT by {
        lemma_y_coordinate_range(seed, k);
    }
    assert forall|k: int| 0 <= k <= oscillations(seed) implies MARGIN <= #[trigger] d.vertex_x(k)
        <= SVG_WIDTH - MARGIN by {
        if k > 0 {
            assert(0 <= d.x_offsets[k - 1] <= usable_width());
        }
    }
}

/// The source of one token's artwork: its seed.
pub struct SquiggleGenerator {
    seed: Seed,
}

impl View for SquiggleGenerator {
    type V = Seq<u8>;

    closed spec fn view(&self) -> Seq<u8> {
        self.seed@
    }
}

impl SquiggleGenerator {
    /// The generator for the token with the given seed.
    pub fn new(seed: Seed) -> (generator: SquiggleGenerator)
        ensures
            generator@ == seed@,
    {
        SquiggleGenerator { seed }
    }

    /// The seed that the artwork is generated from.
    pub fn seed(&self) -> (seed: Seed)
        ensures
            seed@ == self@,
    {
        self.seed
    }

    /// Maps the seed to its drawing.
    pub fn parameters(&self) -> (params: SquiggleParameters)
        ensures
            params@ == drawing(self@),
            params@.well_formed(),
    {
        let seed = &self.seed;
        let count: usize = MIN_OSCILLATIONS + (seed[0] as usize) % (MAX_OSCILLATIONS
            - MIN_OSCILLATIONS + 1);
        let stroke_width: usize = MIN_STROKE_WIDTH + (seed[1] as usize) % (MAX_STROKE_WIDTH
            - MIN_STROKE_WIDTH + 1);
        let period: usize = MIN_PERIOD + (seed[2] as usize) % (MAX_PERIOD - MIN_PERIOD + 1);
        let amplitude: usize = MIN_AMPLITUDE + (256 * (seed[3] as usize) + seed[4] as usize) % (
        MAX_AMPLITUDE - MIN_AMPLITUDE + 1);
        let gradient_type: u8 = seed[5] % GRADIENTS;
        let x_offsets = x_offsets(seed, count as i32, period as i32);
        let y_coordinates = y_coordinates(seed, count, amplitude as i32);
        let params = SquiggleParameters {
            x_offsets,
            y_coordinates,
            stroke_width: stroke_width as i32,
            period: period as i32,
            amplitude: amplitude as i32,
            gradient_type,
        };
        proof {
            lemma_drawing_well_formed(seed@);
            assert(params@.x_offsets =~= drawing(seed@).x_offsets);
            assert(params@.y_coordinates =~= drawing(seed@).y_coordinates);
        }
        params
    }
}

/// The distances of the vertices after the first from the left margin.
fn x_offsets(seed: &Seed, count: i32, period: i32) -> (offsets: Vec<i32>)
    requires
        count == oscillations(seed@),
        period == self::period(seed@),
    ensures
        offsets@.len() == count,
        forall|i: int| 0 <= i < count ==> offsets@[i] == x_offset(seed@, (i + 1) as nat),
{
    proof {
        lemma_parameter_ranges(seed@);
    }
    let usable: i32 = SVG_WIDTH - 2 * MARGIN;
    let spacing: i32 = usable / count;
    let mut offsets: Vec<i32> = Vec::new();
    let mut reach: i32 = 0;
    let mut i: usize = 0;
    while i < count as usize
        invariant
            count == oscillations(seed@),
            period == self::period(seed@),
            usable == usable_width(),
            spacing == usable_width() / oscillations(seed@),
            i <= count,
            offsets@.len() == i,
            reach == x_offset(seed@, i as nat),
            forall|j: int| 0 <= j < i ==> offsets@[j] == x_offset(seed@, (j + 1) as nat),
        decreases count - i,
    {
        proof {
            lemma_parameter_ranges(seed@);
            lemma_advance_range(seed@, i as int);
            lemma_x_offset_range(seed@, i as nat);
        }
        let byte = seed[6 + i / 2];
        let nibble: i32 = if i % 2 == 0 {
            (byte / 16) as i32
        } else {
            (byte % 16) as i32
        };
        assert(0 <= period * nibble <= 1500) by (nonlinear_arith)
            requires
                0 <= nibble <= 15,
                20 <= period <= 100,
        ;
        let step = spacing - period / 2 + period * nibble / 15;
        assert(step == advance(seed@, i as int));
        reach = if reach + step < usable {
            reach + step
        } else {
            usable
        };
        offsets.push(reach);
        i += 1;
    }
    offsets
}

/// The heights of the vertices.
fn y_coordinates(seed: &Seed, count: usize, amplitude: i32) -> (heights: Vec<i32>)
    requires
        count == oscillations(seed@),
        amplitude == self::amplitude(seed@),
    ensures
        heights@.len() == count + 1,
        forall|k: int| 0 <= k <= count ==> heights@[k] == y_coordinate(seed@, k),
{
    proof {
        lemma_parameter_ranges(seed@);
    }
    let centre: i32 = SVG_HEIGHT / 2;
    let mut heights: Vec<i32> = Vec::new();
    let mut k: usize = 0;
    while k <= count
        invariant
            count == oscillations(seed@),
            count <= MAX_OSCILLATIONS,
            amplitude == self::amplitude(seed@),
            centre == SVG_HEIGHT / 2,
            k <= count + 1,
            heights@.len() == k,
            forall|j: int| 0 <= j < k ==> heights@[j] == y_coordinate(seed@, j),
        decreases count + 1 - k,
    {
        proof {
            lemma_parameter_ranges(seed@);
            lemma_swing_range(seed@, k as int);
        }
        let weight: i32 = seed[16 + k] as i32 + 1;
        assert(0 <= amplitude * weight <= 153600) by (nonlinear_arith)
            requires
                1 <= weight <= 256,
                100 <= amplitude <= 600,
        ;
        let swing = amplitude * weight / 256;
        let height = if k % 2 == 0 {
            if swing > centre {
                0
            } else {
                centre - swing
            }
        } else {
            if swing > centre {
                SVG_HEIGHT
            } else {
                centre + swing
            }
        };
        heights.push(height);
        k += 1;
    }
    heights
}

} // verus!
