use bevy_prng::ChaCha8Rng;
use rand_core::{RngCore, SeedableRng};
use rubiks_cube::geometry::{Angle, Axis, Sign};
use rubiks_cube::moves::{LayerSelector, MoveDescriptor};
use rubiks_cube::scramble::{move_from_vars, randomize_vars, vars_from_words, SCRAMBLE_NUM};

#[test]
fn scramble_num_is_three() {
    assert_eq!(SCRAMBLE_NUM, 3);
}

#[test]
fn the_first_word_picks_the_side() {
    assert_eq!(vars_from_words(0, 0, 0).1, true);
    assert_eq!(vars_from_words(1, 0, 0).1, false);
    assert_eq!(vars_from_words(4_294_967_294, 0, 0).1, true);
    assert_eq!(vars_from_words(4_294_967_295, 0, 0).1, false);
}

#[test]
fn the_second_word_picks_the_axis() {
    assert_eq!(vars_from_words(0, 0, 0).0, Axis::X);
    assert_eq!(vars_from_words(0, 1, 0).0, Axis::Y);
    assert_eq!(vars_from_words(0, 2, 0).0, Axis::Z);
    assert_eq!(vars_from_words(0, 3, 0).0, Axis::X);
    assert_eq!(vars_from_words(0, 4_294_967_295, 0).0, Axis::X);
    assert_eq!(vars_from_words(0, 4_294_967_294, 0).0, Axis::Z);
}

#[test]
fn the_third_word_picks_the_sense() {
    assert_eq!(vars_from_words(0, 0, 0).2, Sign::Positive);
    assert_eq!(vars_from_words(0, 0, 1).2, Sign::Negative);
    assert_eq!(vars_from_words(0, 0, 10).2, Sign::Positive);
    assert_eq!(vars_from_words(0, 0, 11).2, Sign::Negative);
}

#[test]
fn vars_become_a_face_move() {
    let m = move_from_vars((Axis::Y, true, Sign::Negative), false);
    assert_eq!(
        m,
        MoveDescriptor {
            axis: Axis::Y,
            layer_selector: LayerSelector::Positive,
            angle: Angle::Quarter,
            sign: Sign::Negative,
        }
    );
    let m = move_from_vars((Axis::Z, false, Sign::Positive), true);
    assert_eq!(
        m,
        MoveDescriptor {
            axis: Axis::Z,
            layer_selector: LayerSelector::Negative,
            angle: Angle::Half,
            sign: Sign::Positive,
        }
    );
}

#[test]
fn randomize_vars_reads_three_words_off_the_generator() {
    for seed in [0u64, 1, 7, 42, 1_000_003] {
        let mut mine = ChaCha8Rng::seed_from_u64(seed);
        let mut theirs = mine.clone();
        for _ in 0..20 {
            let w0 = theirs.next_u32();
            let w1 = theirs.next_u32();
            let w2 = theirs.next_u32();
            assert_eq!(randomize_vars(&mut mine), vars_from_words(w0, w1, w2));
            assert_eq!(mine, theirs);
        }
    }
}

#[test]
fn randomize_vars_draws_every_axis_side_and_sense() {
    let mut rng = ChaCha8Rng::seed_from_u64(0);
    let mut axes = [false; 3];
    let mut sides = [false; 2];
    let mut senses = [false; 2];
    for _ in 0..200 {
        let (axis, positive, sign) = randomize_vars(&mut rng);
        axes[match axis {
            Axis::X => 0,
            Axis::Y => 1,
            Axis::Z => 2,
        }] = true;
        sides[positive as usize] = true;
        senses[(sign == Sign::Positive) as usize] = true;
    }
    assert_eq!(axes, [true; 3]);
    assert_eq!(sides, [true; 2]);
    assert_eq!(senses, [true; 2]);
}

#[test]
fn equal_seeds_draw_equal_vars() {
    let mut a = ChaCha8Rng::seed_from_u64(99);
    let mut b = ChaCha8Rng::seed_from_u64(99);
    for _ in 0..50 {
        assert_eq!(randomize_vars(&mut a), randomize_vars(&mut b));
    }
}
