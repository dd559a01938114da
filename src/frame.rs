use rand::rngs::SmallRng;
use rand::SeedableRng;
use vstd::arithmetic::div_mod::lemma_fundamental_div_mod_converse;
use vstd::prelude::*;

verus! {

/// rand's `SmallRng`, carried opaquely: each image row owns one.
#[verifier::external_type_specification]
#[verifier::external_body]
pub struct ExSmallRng(SmallRng);

/// The seed of the generator that renders row `row` of a frame started with `seed`.
pub open spec fn row_seed_of(seed: u64, row: int) -> int {
    (seed + row) % 0x1_0000_0000_0000_0000
}

/// The seed handed to the generator of one image row: the frame's seed plus
/// the row index, wrapping at 2^64.
pub fn row_seed(seed: u64, row: usize) -> (r: u64)
    ensures
        r as int == row_seed_of(seed, row as int),
{
    seed.wrapping_add(row as u64)
}

/// The generator of one image row, with the seed it was made from.
pub struct RowRng {
    pub rng: SmallRng,
    pub seed: Ghost<u64>,
}

/// Relies on rand's `SeedableRng::seed_from_u64` for `SmallRng`, which
/// expands the 64-bit seed into the generator's state.
#[verifier::external_body]
fn seeded_rng(seed: u64) -> (r: RowRng)
    ensures
        r.seed@ == seed,
{
    RowRng { rng: SmallRng::seed_from_u64(seed), seed: Ghost(seed) }
}

/// The private generator of one image row, seeded with `row_seed(seed, row)`.
pub fn row_rng(seed: u64, row: usize) -> (r: RowRng)
    ensures
        r.seed@ as int == row_seed_of(seed, row as int),
{
    seeded_rng(row_seed(seed, row))
}

/// The 8-bit value of a quantised channel: values above 255 saturate.
pub open spec fn clamp_channel(v: int) -> int {
    if v > 255 { 255 } else { v }
}

/// The packed `0x00RRGGBB` value of three 8-bit channels.
pub open spec fn packed(r: int, g: int, b: int) -> int {
    r * 0x10000 + g * 0x100 + b
}

/// Clamps a quantised channel value into the 8-bit range.
pub fn channel_byte(v: u32) -> (r: u8)
    ensures
        r as int == clamp_channel(v as int),
{
    if v > 255 {
        255
    } else {
        v as u8
    }
}

/// Packs three 8-bit channels into one pixel, red in the high byte.
pub fn pack_rgb(r: u8, g: u8, b: u8) -> (p: u32)
    ensures
        p as int == packed(r as int, g as int, b as int),
        p < 0x100_0000,
{
    (r as u32) * 0x10000 + (g as u32) * 0x100 + (b as u32)
}

/// Every row holds `width` pixels.
pub open spec fn rows_of_width(rows: Seq<Vec<u32>>, width: int) -> bool {
    forall|y: int| 0 <= y < rows.len() ==> (#[trigger] rows[y])@.len() == width
}

/// `f` is the row-major frame made of `rows`: pixel `x` of row `y` stands at
/// index `y * width + x`.
pub open spec fn is_frame(rows: Seq<Vec<u32>>, width: int, f: Seq<u32>) -> bool {
    &&& f.len() == rows.len() * width
    &&& forall|i: int| 0 <= i < f.len() ==> #[trigger] f[i] == rows[i / width]@[i % width]
}

/// Lays rendered rows out one after the other into the row-major pixel buffer.
pub fn frame_from_rows(rows: &Vec<Vec<u32>>, width: usize) -> (f: Vec<u32>)
    requires
        rows_of_width(rows@, width as int),
        rows@.len() * width <= usize::MAX,
    ensures
        is_frame(rows@, width as int, f@),
{
    let mut f: Vec<u32> = Vec::new();
    let mut y: usize = 0;
    while y < rows.len()
        invariant
            y <= rows@.len(),
            rows_of_width(rows@, width as int),
            rows@.len() * width <= usize::MAX,
            f@.len() == y * width,
            forall|i: int| 0 <= i < f@.len() ==> #[trigger] f@[i] == rows@[i / width as int]@[i
                % width as int],
        decreases rows@.len() - y,
    {
        let row = &rows[y];
        assert(row@.len() == width);
        proof {
            assert((y + 1) * width <= rows@.len() * width) by (nonlinear_arith)
                requires
                    y + 1 <= rows@.len(),
            ;
            assert((y + 1) * width == y * width + width) by (nonlinear_arith);
        }
        let mut x: usize = 0;
        while x < width
            invariant
                y < rows@.len(),
                x <= width,
                row@ == rows@[y as int]@,
                row@.len() == width,
                f@.len() == y * width + x,
                y * width + width <= usize::MAX,
                forall|i: int| 0 <= i < f@.len() ==> #[trigger] f@[i] == rows@[i / width as int]@[i
                    % width as int],
            decreases width - x,
        {
            proof {
                lemma_fundamental_div_mod_converse(
                    y * width + x,
                    width as int,
                    y as int,
                    x as int,
                );
            }
            f.push(row[x]);
            x = x + 1;
        }
        y = y + 1;
    }
    f
}

/// A frame is fixed by its rows alone: whatever order the rows were rendered
/// in, and however many workers rendered them, laying out the same rows gives
/// the same pixel buffer.
pub proof fn lemma_frame_determined(rows: Seq<Vec<u32>>, width: int, a: Seq<u32>, b: Seq<u32>)
    requires
        is_frame(rows, width, a),
        is_frame(rows, width, b),
    ensures
        a == b,
{
    assert(a =~= b);
}

/// Distinct rows of one frame draw from generators with distinct seeds.
pub proof fn lemma_row_seeds_distinct(seed: u64, row1: usize, row2: usize)
    requires
        row1 != row2,
    ensures
        row_seed_of(seed, row1 as int) != row_seed_of(seed, row2 as int),
{
}

} // verus!
