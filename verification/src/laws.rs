//! Laws of the puzzle: what holds of every pose, every layout and every run
//! of the simulation.

use crate::cubie::{layout_solved, on_lattice, CubieView};
use crate::geometry::{Angle, Axis, PoseView, Sign};
use crate::moves::{
    any_active, apply_move, commit, lemma_commit_keeps_valid, lemma_commit_resolve,
    lemma_move_keeps_valid, resolve, MoveDescriptor,
};
use crate::scramble::scramble_move;
use crate::sim::{lemma_reset_valid, SimView};
use crate::turn::{DOUBLE_DELAY, SCRAMBLE_SPEED};
use vstd::prelude::*;

verus! {

/// Four quarter turns about one axis in one sense bring every pose back to
/// where it was.
pub proof fn law_four_quarter_turns(pose: PoseView, axis: Axis, sign: Sign)
    ensures
        pose.turn(axis, sign, Angle::Quarter).turn(axis, sign, Angle::Quarter).turn(
            axis,
            sign,
            Angle::Quarter,
        ).turn(axis, sign, Angle::Quarter) == pose,
{
}

/// A half turn is two quarter turns in either sense, and two half turns
/// bring every pose back to where it was, as four quarter turns do.
pub proof fn law_two_half_turns(pose: PoseView, axis: Axis, sign: Sign)
    ensures
        pose.turn(axis, sign, Angle::Half) == pose.turn(axis, sign, Angle::Quarter).turn(
            axis,
            sign,
            Angle::Quarter,
        ),
        pose.turn(axis, sign, Angle::Half).turn(axis, sign, Angle::Half) == pose,
        pose.turn(axis, sign, Angle::Half).turn(axis, sign, Angle::Half) == pose.turn(
            axis,
            sign,
            Angle::Quarter,
        ).turn(axis, sign, Angle::Quarter).turn(axis, sign, Angle::Quarter).turn(
            axis,
            sign,
            Angle::Quarter,
        ),
{
}

/// A turn followed by the same turn in the opposite sense brings every pose
/// back to where it was.
pub proof fn law_turn_then_back(pose: PoseView, axis: Axis, sign: Sign, angle: Angle)
    ensures
        pose.turn(axis, sign, angle).turn(axis, sign.spec_flipped(), angle) == pose,
{
}

/// A move leaves every cubie in the layer it was in: the cubies that the
/// move takes along are the same before and after it.
pub proof fn law_move_keeps_its_layer(cubie: CubieView, descriptor: MoveDescriptor)
    ensures
        descriptor.affects(descriptor.apply(cubie)) == descriptor.affects(cubie),
        descriptor.spec_inverse().affects(descriptor.apply(cubie)) == descriptor.affects(cubie),
        descriptor.apply(cubie).default_position == cubie.default_position,
{
}

/// The same quarter move made four times brings every cubie of a layout back
/// to its pose.
pub proof fn law_four_quarter_moves(cubies: Seq<CubieView>, descriptor: MoveDescriptor)
    requires
        descriptor.angle == Angle::Quarter,
    ensures
        apply_move(
            apply_move(apply_move(apply_move(cubies, descriptor), descriptor), descriptor),
            descriptor,
        ) == cubies,
{
    let once = apply_move(cubies, descriptor);
    let twice = apply_move(once, descriptor);
    let thrice = apply_move(twice, descriptor);
    let back = apply_move(thrice, descriptor);
    assert forall|i: int| 0 <= i < cubies.len() implies #[trigger] back[i] == cubies[i] by {
        let c = cubies[i];
        law_move_keeps_its_layer(c, descriptor);
        law_move_keeps_its_layer(once[i], descriptor);
        law_move_keeps_its_layer(twice[i], descriptor);
        law_four_quarter_turns(c.pose(), descriptor.axis, descriptor.sign);
    }
}

/// The same half move made twice brings every cubie of a layout back to its
/// pose, which is what the quarter move of the same axis, layer and sense
/// does when it is made four times.
pub proof fn law_two_half_moves(cubies: Seq<CubieView>, descriptor: MoveDescriptor)
    requires
        descriptor.angle == Angle::Half,
    ensures
        apply_move(apply_move(cubies, descriptor), descriptor) == cubies,
        apply_move(apply_move(cubies, descriptor), descriptor) == apply_move(
            apply_move(
                apply_move(
                    apply_move(cubies, MoveDescriptor { angle: Angle::Quarter, ..descriptor }),
                    MoveDescriptor { angle: Angle::Quarter, ..descriptor },
                ),
                MoveDescriptor { angle: Angle::Quarter, ..descriptor },
            ),
            MoveDescriptor { angle: Angle::Quarter, ..descriptor },
        ),
{
    let once = apply_move(cubies, descriptor);
    let back = apply_move(once, descriptor);
    assert forall|i: int| 0 <= i < cubies.len() implies #[trigger] back[i] == cubies[i] by {
        let c = cubies[i];
        law_move_keeps_its_layer(c, descriptor);
        law_two_half_turns(c.pose(), descriptor.axis, descriptor.sign);
    }
    law_four_quarter_moves(cubies, MoveDescriptor { angle: Angle::Quarter, ..descriptor });
}

/// A move followed by its inverse brings every cubie of a layout back to its
/// pose.
pub proof fn law_move_then_inverse(cubies: Seq<CubieView>, descriptor: MoveDescriptor)
    ensures
        apply_move(apply_move(cubies, descriptor), descriptor.spec_inverse()) == cubies,
{
    let once = apply_move(cubies, descriptor);
    let back = apply_move(once, descriptor.spec_inverse());
    assert forall|i: int| 0 <= i < cubies.len() implies #[trigger] back[i] == cubies[i] by {
        let c = cubies[i];
        law_move_keeps_its_layer(c, descriptor);
        law_turn_then_back(c.pose(), descriptor.axis, descriptor.sign, descriptor.angle);
    }
}

/// One thing that happens to the simulation: a tick, or one of the commands.
pub enum Event {
    Tick { dt: nat },
    Move { descriptor: MoveDescriptor },
    ToggleDouble,
    Scramble { n_moves: i32, seed: u64 },
    Reset,
}

/// The state after the event.
pub open spec fn step(s: SimView, event: Event) -> SimView {
    match event {
        Event::Tick { dt } => s.tick(dt),
        Event::Move { descriptor } => s.request_turn(descriptor),
        Event::ToggleDouble => s.toggle_double_turn(),
        Event::Scramble { n_moves, seed } => s.start_scramble(n_moves as int, seed),
        Event::Reset => s.reset_cube(),
    }
}

/// The state after the events, one after the other.
pub open spec fn play(s: SimView, events: Seq<Event>) -> SimView
    decreases events.len(),
{
    if events.len() == 0 {
        s
    } else {
        step(play(s, events.drop_last()), events.last())
    }
}

/// The state after the ticks of the given lengths, one after the other.
pub open spec fn run(s: SimView, dts: Seq<nat>) -> SimView
    decreases dts.len(),
{
    if dts.len() == 0 {
        s
    } else {
        run(s, dts.drop_last()).tick(dts.last())
    }
}

/// A manual move command leaves a valid state valid.
pub proof fn law_request_keeps_valid(s: SimView, descriptor: MoveDescriptor)
    requires
        s.valid(),
    ensures
        s.request_turn(descriptor).valid(),
{
    if s.accepts_moves() {
        lemma_begin_keeps_valid(s, descriptor, false);
    }
}

/// The commands that toggle the mode, start a scramble and reset the puzzle
/// leave a valid state valid.
pub proof fn law_commands_keep_valid(s: SimView, n_moves: int, seed: u64)
    requires
        s.valid(),
        n_moves <= i32::MAX,
    ensures
        s.toggle_double_turn().valid(),
        s.start_scramble(n_moves, seed).valid(),
        s.reset_cube().valid(),
{
    lemma_reset_valid(s);
}

/// Beginning a turn from an idle valid state leaves the state valid.
pub proof fn lemma_begin_keeps_valid(s: SimView, descriptor: MoveDescriptor, scramble: bool)
    requires
        s.valid(),
        !s.turn.active,
    ensures
        s.begin_turn(descriptor, scramble).valid(),
{
    lemma_move_keeps_valid(s.cubies, descriptor);
    lemma_commit_resolve(s.cubies, descriptor);
}

/// Animating the turn in flight leaves a valid state valid.
pub proof fn lemma_advance_keeps_valid(s: SimView, dt: nat)
    requires
        s.valid(),
    ensures
        s.advance(dt).valid(),
{
    lemma_commit_keeps_valid(s.cubies, s.nodes);
    if s.turn.active && !s.turn.completes(dt, s.double) {
        let speed = s.turn.angular_speed as int;
        let time = dt as int;
        assert(0 <= speed * time <= SCRAMBLE_SPEED * time) by (nonlinear_arith)
            requires
                0 <= speed <= SCRAMBLE_SPEED,
                0 <= time,
        ;
    }
}

/// A tick leaves a valid state valid: every cubie stays on the lattice,
/// whatever the tick does.
pub proof fn law_tick_keeps_valid(s: SimView, dt: nat)
    requires
        s.valid(),
    ensures
        s.tick(dt).valid(),
        s.animate(dt).valid(),
{
    let a = s.pregame(dt);
    if a.scramble.remaining_moves > 0 && !a.turn.active {
        let drawn = SimView { scramble: a.scramble.drawn_one(), ..a };
        lemma_begin_keeps_valid(drawn, a.next_scramble_move(), true);
    }
    let d = a.draw_move();
    lemma_advance_keeps_valid(d, dt);
    let b = a.rotate_scramble(dt);
    lemma_advance_keeps_valid(b, dt);
}

/// Whatever happens, in whatever order, a valid state stays valid and keeps
/// its cubies: at all times every cubie is at one of the points of the
/// lattice.
pub proof fn law_positions_stay_on_lattice(s: SimView, events: Seq<Event>)
    requires
        s.valid(),
    ensures
        play(s, events).valid(),
        play(s, events).cubies.len() == s.cubies.len(),
        forall|i: int|
            0 <= i < s.cubies.len() ==> on_lattice(
                (#[trigger] play(s, events).cubies[i]).position,
            ),
    decreases events.len(),
{
    if events.len() > 0 {
        law_positions_stay_on_lattice(s, events.drop_last());
        let before = play(s, events.drop_last());
        match events.last() {
            Event::Tick { dt } => {
                law_tick_keeps_valid(before, dt);
            },
            Event::Move { descriptor } => {
                law_request_keeps_valid(before, descriptor);
            },
            Event::ToggleDouble => {
                law_commands_keep_valid(before, 0, 0);
            },
            Event::Scramble { n_moves, seed } => {
                law_commands_keep_valid(before, n_moves as int, seed);
            },
            Event::Reset => {
                law_commands_keep_valid(before, 0, 0);
            },
        }
    }
    assert forall|i: int| 0 <= i < s.cubies.len() implies on_lattice(
        (#[trigger] play(s, events).cubies[i]).position,
    ) by {
        assert(play(s, events).cubies[i].valid());
    }
}

/// The default positions of two layouts are the same, cubie by cubie.
pub open spec fn same_defaults(a: Seq<CubieView>, b: Seq<CubieView>) -> bool {
    &&& a.len() == b.len()
    &&& forall|i: int|
        0 <= i < a.len() ==> (#[trigger] a[i]).default_position == (#[trigger] b[i]).default_position
}

/// Cubies are only ever repositioned. Whatever happens, in whatever order,
/// no cubie is made or lost and each keeps its default position.
pub proof fn law_cubies_are_only_repositioned(s: SimView, events: Seq<Event>)
    ensures
        same_defaults(play(s, events).cubies, s.cubies),
    decreases events.len(),
{
    if events.len() > 0 {
        law_cubies_are_only_repositioned(s, events.drop_last());
        let before = play(s, events.drop_last());
        assert(same_defaults(step(before, events.last()).cubies, before.cubies));
    }
}

/// A run of ticks is what happens when nothing but ticks does.
pub proof fn lemma_run_is_play(s: SimView, dts: Seq<nat>)
    ensures
        run(s, dts) == play(s, dts.map_values(|dt: nat| Event::Tick { dt })),
    decreases dts.len(),
{
    let events = dts.map_values(|dt: nat| Event::Tick { dt });
    if dts.len() > 0 {
        lemma_run_is_play(s, dts.drop_last());
        assert(events.drop_last() =~= dts.drop_last().map_values(|dt: nat| Event::Tick { dt }));
    }
}

/// Every run of ticks leaves a valid state valid.
pub proof fn lemma_run_keeps_valid(s: SimView, dts: Seq<nat>)
    requires
        s.valid(),
    ensures
        run(s, dts).valid(),
{
    lemma_run_is_play(s, dts);
    law_positions_stay_on_lattice(s, dts.map_values(|dt: nat| Event::Tick { dt }));
}

/// Reset after a scramble: whatever state the puzzle is in, a scramble of
/// any length followed by whatever happens next and then the reset command
/// leaves every cubie at its default position with the identity orientation,
/// none has been lost, no turn is in flight and no scramble move is left.
pub proof fn law_reset_after_scramble(s: SimView, n_moves: i32, seed: u64, events: Seq<Event>)
    requires
        s.valid(),
    ensures
        layout_solved(play(s.start_scramble(n_moves as int, seed), events).reset_cube().cubies),
        play(s.start_scramble(n_moves as int, seed), events).reset_cube().cubies.len()
            == s.cubies.len(),
        play(s.start_scramble(n_moves as int, seed), events).reset_cube().valid(),
        !play(s.start_scramble(n_moves as int, seed), events).reset_cube().turn.active,
        play(s.start_scramble(n_moves as int, seed), events).reset_cube().scramble.remaining_moves
            == 0,
{
    let begun = s.start_scramble(n_moves as int, seed);
    law_commands_keep_valid(s, n_moves as int, seed);
    law_positions_stay_on_lattice(begun, events);
    lemma_reset_valid(play(begun, events));
}

/// The layout that the cubies are in once the turn in flight has ended: the
/// layout itself when none is in flight.
pub open spec fn settled(s: SimView) -> Seq<CubieView> {
    if s.turn.active {
        commit(s.cubies, s.nodes)
    } else {
        s.cubies
    }
}

/// The layout after the next `moves` moves of the scramble seeded with
/// `seed`, made one after the other from `drawn` words down its stream.
pub open spec fn scrambled(
    cubies: Seq<CubieView>,
    seed: u64,
    drawn: nat,
    moves: nat,
    double: bool,
) -> Seq<CubieView>
    decreases moves,
{
    if moves == 0 {
        cubies
    } else {
        scrambled(
            apply_move(cubies, scramble_move(seed, drawn, double)),
            seed,
            drawn + 3,
            (moves - 1) as nat,
            double,
        )
    }
}

/// The layout that the state is heading for: the settled layout with the
/// moves made that the scrambler has yet to draw.
pub open spec fn outlook(s: SimView) -> Seq<CubieView> {
    scrambled(
        settled(s),
        s.scramble.seed,
        s.scramble.drawn,
        s.scramble.remaining_moves as nat,
        s.double,
    )
}

/// A move that takes no cubie along leaves the layout as it is.
pub proof fn lemma_idle_move(cubies: Seq<CubieView>, descriptor: MoveDescriptor)
    requires
        !any_active(resolve(cubies, descriptor)),
    ensures
        apply_move(cubies, descriptor) == cubies,
{
    assert forall|i: int| 0 <= i < cubies.len() implies #[trigger] apply_move(
        cubies,
        descriptor,
    )[i] == cubies[i] by {
        assert(!resolve(cubies, descriptor)[i].active);
    }
}

/// Animating the turn in flight does not change what the state is heading
/// for.
pub proof fn lemma_advance_keeps_outlook(s: SimView, dt: nat)
    requires
        s.valid(),
    ensures
        outlook(s.advance(dt)) == outlook(s),
{
    if s.turn.active && s.turn.completes(dt, s.double) {
        assert(settled(s.advance(dt)) == settled(s));
    }
}

/// A tick does not change what the state is heading for: the timing of the
/// ticks has no part in where a scramble ends.
pub proof fn lemma_tick_keeps_outlook(s: SimView, dt: nat)
    requires
        s.valid(),
    ensures
        outlook(s.tick(dt)) == outlook(s),
{
    let a = s.pregame(dt);
    let d = a.draw_move();
    if a.scramble.remaining_moves > 0 && !a.turn.active {
        let next = a.next_scramble_move();
        let drawn = SimView { scramble: a.scramble.drawn_one(), ..a };
        lemma_begin_keeps_valid(drawn, next, true);
        lemma_commit_resolve(a.cubies, next);
        if !a.moves_any(next) {
            lemma_idle_move(a.cubies, next);
        }
        assert(settled(d) == apply_move(a.cubies, next));
        assert(outlook(a) == scrambled(
            apply_move(a.cubies, next),
            a.scramble.seed,
            a.scramble.drawn + 3,
            (a.scramble.remaining_moves - 1) as nat,
            a.double,
        ));
    }
    assert(outlook(d) == outlook(a));
    lemma_advance_keeps_outlook(d, dt);
    lemma_advance_keeps_valid(d, dt);
    lemma_advance_keeps_outlook(a.rotate_scramble(dt), dt);
}

/// No run of ticks changes what the state is heading for.
pub proof fn lemma_run_keeps_outlook(s: SimView, dts: Seq<nat>)
    requires
        s.valid(),
    ensures
        outlook(run(s, dts)) == outlook(s),
    decreases dts.len(),
{
    if dts.len() > 0 {
        lemma_run_keeps_outlook(s, dts.drop_last());
        lemma_run_keeps_valid(s, dts.drop_last());
        lemma_tick_keeps_outlook(run(s, dts.drop_last()), dts.last());
    }
}

/// A scramble is reproducible. A scramble of `n_moves` moves seeded with
/// `seed` ends, whatever the lengths of the ticks that animate it, in the
/// layout that the moves of the seed's stream give when they are made one
/// after the other, from the layout that the puzzle was in or, with a turn in
/// flight, was about to be in. The `k`-th move is the one that the words
/// `3k`, `3k + 1` and `3k + 2` of the stream stand for.
pub proof fn law_scramble_is_reproducible(s: SimView, n_moves: int, seed: u64, dts: Seq<nat>)
    requires
        s.valid(),
        0 < n_moves <= i32::MAX,
        !run(s.start_scramble(n_moves, seed), dts).turn.active,
        run(s.start_scramble(n_moves, seed), dts).scramble.remaining_moves == 0,
    ensures
        run(s.start_scramble(n_moves, seed), dts).cubies == scrambled(
            settled(s),
            seed,
            0,
            n_moves as nat,
            s.double,
        ),
{
    let begun = s.start_scramble(n_moves, seed);
    law_commands_keep_valid(s, n_moves, seed);
    lemma_run_keeps_outlook(begun, dts);
    assert(outlook(run(begun, dts)) == settled(run(begun, dts)));
}

/// A tick that is long enough for a turn in any mode draws one scramble move
/// and ends its turn: from an idle state with moves left, the state after it
/// is idle again with one move less.
pub proof fn lemma_long_tick_makes_one_move(s: SimView, dt: nat)
    requires
        s.valid(),
        !s.turn.active,
        s.scramble.remaining_moves > 0,
        dt >= DOUBLE_DELAY,
    ensures
        !s.tick(dt).turn.active,
        s.tick(dt).scramble.remaining_moves == s.scramble.remaining_moves - 1,
        s.tick(dt).valid(),
{
    law_tick_keeps_valid(s, dt);
}

/// Long ticks make one scramble move each.
pub proof fn lemma_long_ticks_make_their_moves(s: SimView, dts: Seq<nat>)
    requires
        s.valid(),
        !s.turn.active,
        s.scramble.remaining_moves >= dts.len(),
        forall|i: int| 0 <= i < dts.len() ==> dts[i] >= DOUBLE_DELAY,
    ensures
        !run(s, dts).turn.active,
        run(s, dts).scramble.remaining_moves == s.scramble.remaining_moves - dts.len(),
        run(s, dts).valid(),
    decreases dts.len(),
{
    if dts.len() > 0 {
        lemma_long_ticks_make_their_moves(s, dts.drop_last());
        lemma_long_tick_makes_one_move(run(s, dts.drop_last()), dts.last());
    }
}

/// A scramble runs out. From an idle state, a scramble of `n_moves` moves
/// has completed after `n_moves` ticks that are each long enough for a turn
/// in any mode: no turn is in flight, no move is left, and the layout is the
/// one that the seed's moves give.
pub proof fn law_scramble_completes(s: SimView, n_moves: int, seed: u64, dts: Seq<nat>)
    requires
        s.valid(),
        !s.turn.active,
        0 < n_moves <= i32::MAX,
        dts.len() == n_moves,
        forall|i: int| 0 <= i < dts.len() ==> dts[i] >= DOUBLE_DELAY,
    ensures
        !run(s.start_scramble(n_moves, seed), dts).turn.active,
        run(s.start_scramble(n_moves, seed), dts).scramble.remaining_moves == 0,
        run(s.start_scramble(n_moves, seed), dts).cubies == scrambled(
            s.cubies,
            seed,
            0,
            n_moves as nat,
            s.double,
        ),
{
    law_commands_keep_valid(s, n_moves, seed);
    lemma_long_ticks_make_their_moves(s.start_scramble(n_moves, seed), dts);
    law_scramble_is_reproducible(s, n_moves, seed, dts);
}

/// Two runs with one seed end in one layout: from equal layouts in the same
/// mode, scrambles of the same length with the same seed end in identical
/// layouts, however differently the two runs are ticked.
pub proof fn law_same_seed_same_layout(
    a: SimView,
    b: SimView,
    n_moves: int,
    seed: u64,
    dts_a: Seq<nat>,
    dts_b: Seq<nat>,
)
    requires
        a.valid(),
        b.valid(),
        settled(a) == settled(b),
        a.double == b.double,
        0 < n_moves <= i32::MAX,
        !run(a.start_scramble(n_moves, seed), dts_a).turn.active,
        run(a.start_scramble(n_moves, seed), dts_a).scramble.remaining_moves == 0,
        !run(b.start_scramble(n_moves, seed), dts_b).turn.active,
        run(b.start_scramble(n_moves, seed), dts_b).scramble.remaining_moves == 0,
    ensures
        run(a.start_scramble(n_moves, seed), dts_a).cubies == run(
            b.start_scramble(n_moves, seed),
            dts_b,
        ).cubies,
{
    law_scramble_is_reproducible(a, n_moves, seed, dts_a);
    law_scramble_is_reproducible(b, n_moves, seed, dts_b);
}

/// A manual turn makes its move. From a state that listens to moves, the
/// command followed by a tick that is long enough for the turn in any mode
/// leaves the layout that the move gives, in a state that listens again.
pub proof fn law_manual_turn_makes_its_move(s: SimView, descriptor: MoveDescriptor, dt: nat)
    requires
        s.valid(),
        s.accepts_moves(),
        dt >= DOUBLE_DELAY,
    ensures
        s.request_turn(descriptor).tick(dt).cubies == apply_move(s.cubies, descriptor),
        s.request_turn(descriptor).tick(dt).accepts_moves(),
        s.request_turn(descriptor).tick(dt).valid(),
{
    law_request_keeps_valid(s, descriptor);
    law_tick_keeps_valid(s.request_turn(descriptor), dt);
    lemma_commit_resolve(s.cubies, descriptor);
    if !s.moves_any(descriptor) {
        lemma_idle_move(s.cubies, descriptor);
    }
}

/// A manual turn and the same turn with the prime modifier, each given the
/// time to end, bring every cubie back to the pose it had.
pub proof fn law_turn_then_inverse_turn(s: SimView, descriptor: MoveDescriptor, dt: nat)
    requires
        s.valid(),
        s.accepts_moves(),
        dt >= DOUBLE_DELAY,
    ensures
        s.request_turn(descriptor).tick(dt).request_turn(descriptor.spec_inverse()).tick(
            dt,
        ).cubies == s.cubies,
{
    law_manual_turn_makes_its_move(s, descriptor, dt);
    let there = s.request_turn(descriptor).tick(dt);
    law_manual_turn_makes_its_move(there, descriptor.spec_inverse(), dt);
    law_move_then_inverse(s.cubies, descriptor);
}

/// While a turn is in flight a move command changes nothing: not the
/// targets, not the axis, nor anything else of the state.
pub proof fn law_mutual_exclusion(s: SimView, descriptor: MoveDescriptor)
    requires
        s.turn.active,
    ensures
        s.request_turn(descriptor) == s,
{
}

} // verus!
