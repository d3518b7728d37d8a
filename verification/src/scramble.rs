//! The scramble sequencer's own state, the seeded generator behind it and the
//! moves it draws.

use crate::geometry::{Angle, Axis, Sign};
use crate::moves::{mode_angle, LayerSelector, MoveDescriptor};
use crate::turn::SCRAMBLE_SPEED;
use bevy_prng::ChaCha8Rng;
use rand_core::RngCore;
use rand_core::SeedableRng;
use vstd::prelude::*;

verus! {

/// The number of moves of a scramble, unless the command says otherwise.
pub const SCRAMBLE_NUM: i32 = 3;

/// `bevy_prng::ChaCha8Rng`, the ChaCha generator with eight rounds. Nothing
/// of its inside is known here; what is said of it is said through
/// [`upcoming_word`].
#[verifier::external_type_specification]
#[verifier::external_body]
pub struct ExChaCha8Rng(bevy_prng::ChaCha8Rng);

/// The word that the generator hands out at its `k`-th next call of
/// `next_u32`, counted from zero.
pub uninterp spec fn upcoming_word(rng: ChaCha8Rng, k: nat) -> u32;

/// The `k`-th word, counted from zero, of the stream that a ChaCha8
/// generator seeded with `seed` hands out.
pub uninterp spec fn seeded_word(seed: u64, k: nat) -> u32;

/// `SeedableRng::seed_from_u64` of `bevy_prng::ChaCha8Rng`: a fresh generator
/// at the start of the stream that belongs to `seed`. The claim is that the
/// stream depends on the seed alone.
#[verifier::external_body]
pub(crate) fn seed_from_u64(seed: u64) -> (rng: ChaCha8Rng)
    ensures
        forall|k: nat| upcoming_word(rng, k) == seeded_word(seed, k),
{
    ChaCha8Rng::seed_from_u64(seed)
}

/// `RngCore::next_u32` of `bevy_prng::ChaCha8Rng`: hands out the next word of
/// the stream and moves the generator on by one word. The claim is that the
/// words to come depend on the generator's state alone.
#[verifier::external_body]
pub(crate) fn next_u32(rng: &mut ChaCha8Rng) -> (word: u32)
    ensures
        word == upcoming_word(*old(rng), 0),
        forall|k: nat| upcoming_word(*final(rng), k) == upcoming_word(*old(rng), k + 1),
{
    rng.next_u32()
}

/// The axis, the side and the sense that three drawn words stand for: the
/// side is positive for an even first word, the axis is x, y or z as the
/// second word leaves 0, 1 or 2 on division by three, and the sense is
/// positive for an even third word.
pub open spec fn spec_vars_from_words(positive_word: u32, axis_word: u32, direction_word: u32) -> (
    Axis,
    bool,
    Sign,
) {
    (
        if axis_word % 3 == 0 {
            Axis::X
        } else if axis_word % 3 == 1 {
            Axis::Y
        } else {
            Axis::Z
        },
        positive_word % 2 == 0,
        if direction_word % 2 == 0 {
            Sign::Positive
        } else {
            Sign::Negative
        },
    )
}

/// The axis, the side and the sense that three drawn words stand for.
#[verifier::when_used_as_spec(spec_vars_from_words)]
pub fn vars_from_words(positive_word: u32, axis_word: u32, direction_word: u32) -> (r: (
    Axis,
    bool,
    Sign,
))
    ensures
        r == spec_vars_from_words(positive_word, axis_word, direction_word),
{
    let positive = positive_word % 2 == 0;
    let axis = match axis_word % 3 {
        0 => Axis::X,
        1 => Axis::Y,
        _ => Axis::Z,
    };
    let direction = if direction_word % 2 == 0 {
        Sign::Positive
    } else {
        Sign::Negative
    };
    (axis, positive, direction)
}

/// Draws the axis, the side and the sense of a scramble move: three words
/// off the generator, read by [`vars_from_words`].
pub fn randomize_vars(rng: &mut ChaCha8Rng) -> (r: (Axis, bool, Sign))
    ensures
        r == spec_vars_from_words(
            upcoming_word(*old(rng), 0),
            upcoming_word(*old(rng), 1),
            upcoming_word(*old(rng), 2),
        ),
        forall|k: nat| upcoming_word(*final(rng), k) == upcoming_word(*old(rng), k + 3),
{
    let positive_word: u32 = next_u32(rng);
    let axis_word: u32 = next_u32(rng);
    let direction_word: u32 = next_u32(rng);
    vars_from_words(positive_word, axis_word, direction_word)
}

/// The scramble move that drawn variables stand for: a turn of the face
/// layer on the drawn side of the drawn axis, in the drawn sense, by the
/// angle of the mode.
pub open spec fn spec_move_from_vars(vars: (Axis, bool, Sign), double: bool) -> MoveDescriptor {
    MoveDescriptor {
        axis: vars.0,
        layer_selector: if vars.1 {
            LayerSelector::Positive
        } else {
            LayerSelector::Negative
        },
        angle: mode_angle(double),
        sign: vars.2,
    }
}

/// The scramble move that drawn variables stand for.
#[verifier::when_used_as_spec(spec_move_from_vars)]
pub fn move_from_vars(vars: (Axis, bool, Sign), double: bool) -> (r: MoveDescriptor)
    ensures
        r == spec_move_from_vars(vars, double),
{
    MoveDescriptor {
        axis: vars.0,
        layer_selector: if vars.1 {
            LayerSelector::Positive
        } else {
            LayerSelector::Negative
        },
        angle: if double {
            Angle::Half
        } else {
            Angle::Quarter
        },
        sign: vars.2,
    }
}

/// The move that a scramble seeded with `seed` draws once `drawn` words of
/// its stream are used up.
pub open spec fn scramble_move(seed: u64, drawn: nat, double: bool) -> MoveDescriptor {
    spec_move_from_vars(
        spec_vars_from_words(
            seeded_word(seed, drawn),
            seeded_word(seed, drawn + 1),
            seeded_word(seed, drawn + 2),
        ),
        double,
    )
}

/// The model of a [`ScrambleState`].
pub struct ScrambleView {
    pub remaining_moves: int,
    pub speed: nat,
    pub seed: u64,
    pub drawn: nat,
}

impl ScrambleView {
    /// The count of moves left is not negative, the speed is the scramble
    /// rate, and the words used and still to be used can be counted.
    pub open spec fn valid(self) -> bool {
        &&& 0 <= self.remaining_moves <= i32::MAX
        &&& self.speed == SCRAMBLE_SPEED
        &&& self.drawn + 3 * self.remaining_moves <= 3 * i32::MAX
    }

    /// The state before any scramble: nothing to do, at the start of the
    /// stream of seed zero.
    pub open spec fn fresh() -> ScrambleView {
        ScrambleView { remaining_moves: 0, speed: SCRAMBLE_SPEED as nat, seed: 0, drawn: 0 }
    }

    /// The state at the start of a scramble of `n_moves` moves seeded with
    /// `seed`.
    pub open spec fn begun(self, n_moves: int, seed: u64) -> ScrambleView {
        ScrambleView { remaining_moves: n_moves, speed: self.speed, seed, drawn: 0 }
    }

    /// The state once one more move is drawn: one move less to go, three
    /// words further down the stream.
    pub open spec fn drawn_one(self) -> ScrambleView {
        ScrambleView {
            remaining_moves: self.remaining_moves - 1,
            drawn: self.drawn + 3,
            ..self
        }
    }

    /// The state with the scramble called off.
    pub open spec fn cancelled(self) -> ScrambleView {
        ScrambleView { remaining_moves: 0, ..self }
    }
}

/// What the scramble sequencer holds: `remaining_moves` moves are still to
/// be drawn, at `speed` degrees per second; the generator was seeded with
/// `seed` and has handed out `drawn` words since.
#[derive(Clone, Copy, Debug, PartialEq, Eq, Structural)]
pub struct ScrambleState {
    pub remaining_moves: i32,
    pub speed: u32,
    pub seed: u64,
    pub drawn: u64,
}

impl View for ScrambleState {
    type V = ScrambleView;

    open spec fn view(&self) -> ScrambleView {
        ScrambleView {
            remaining_moves: self.remaining_moves as int,
            speed: self.speed as nat,
            seed: self.seed,
            drawn: self.drawn as nat,
        }
    }
}

} // verus!
