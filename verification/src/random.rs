//! Random headings for wandering pigs, drawn from a generator that the
//! caller seeds and owns.

use vstd::prelude::*;
use rand::rngs::StdRng;
use rand::Rng;
use crate::motion::Direction;

verus! {

/// How many steps make up one unit on either axis of a drawn heading: an
/// axis value `n` stands for `n / HEADING_SCALE`. At two to the power of 22
/// steps to the unit a host can turn every axis value into a single-precision
/// number without rounding.
pub const HEADING_SCALE: i32 = 4_194_304;

/// `rand::rngs::StdRng`, the generator that headings are drawn from. It is
/// handed through as it is; nothing is said of its state.
#[verifier::external_type_specification]
#[verifier::external_body]
pub struct ExStdRng(StdRng);

/// `rand::Rng::gen_range` for `rand::rngs::StdRng`, on the half-open range
/// `low..high` of `i32`. The range must not be empty, else the call panics;
/// the value lies in the range. Which value it is depends on the generator
/// and is not said.
#[verifier::external_body]
fn gen_range_i32(rng: &mut StdRng, low: i32, high: i32) -> (value: i32)
    requires
        low < high,
    ensures
        low <= value < high,
{
    rng.gen_range(low..high)
}

impl Direction {
    /// Whether both axes lie in the range that headings are drawn from:
    /// from -1 inclusive to 1 exclusive, in steps of `1 / HEADING_SCALE`.
    pub open spec fn is_draw(self) -> bool {
        &&& -HEADING_SCALE <= self.x < HEADING_SCALE
        &&& -HEADING_SCALE <= self.y < HEADING_SCALE
    }
}

/// Draws a heading: two independent draws, one for each axis. The zero
/// vector can come out.
pub fn draw_direction(rng: &mut StdRng) -> (direction: Direction)
    ensures
        direction.is_draw(),
{
    let x: i32 = gen_range_i32(rng, -HEADING_SCALE, HEADING_SCALE);
    let y: i32 = gen_range_i32(rng, -HEADING_SCALE, HEADING_SCALE);
    Direction { x, y }
}

} // verus!
