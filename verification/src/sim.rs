//! The simulation: one owned state that every command and every tick is
//! applied to, and the function from state and event to the next state.

use crate::clock::{ClockView, SolveClock};
use crate::cubie::{
    all_solved, all_valid, layout, layout_reset, layout_solved, layout_valid, reset_cubies,
    setup_cube, solved_cube, Cubie, CubieView,
};
use crate::geometry::{lemma_identity_is_rotation, Axis};
use crate::moves::{
    any_active, commit, lemma_commit_keeps_valid, lemma_commit_resolve, lemma_move_keeps_valid,
    node_views, nodes_valid, release_nodes, released, resolve, resolve_move, snap_to_targets,
    Face, MoveDescriptor, MovementNode, NodeView,
};
use crate::scramble::{
    move_from_vars, randomize_vars, scramble_move, seed_from_u64, seeded_word, upcoming_word,
    ScrambleState, ScrambleView,
};
use crate::turn::{
    mode_speed, TurnOutcome, TurnState, TurnView, DOUBLE_SPEED, SCRAMBLE_SPEED, TURN_SPEED,
};
use bevy_prng::ChaCha8Rng;
use vstd::prelude::*;

verus! {

/// The model of a [`SimulationState`]: the layout, the node of every cubie,
/// the turn in flight, the double-turn mode, the scrambler and the clock.
pub struct SimView {
    pub cubies: Seq<CubieView>,
    pub nodes: Seq<NodeView>,
    pub turn: TurnView,
    pub double: bool,
    pub scramble: ScrambleView,
    pub clock: ClockView,
}

impl SimView {
    /// What holds of the state at all times. Every cubie is on the lattice,
    /// every cubie has a node and every node a target on the lattice, and a
    /// turn is in flight exactly when some node is active.
    pub open spec fn valid(self) -> bool {
        &&& layout_valid(self.cubies)
        &&& self.nodes.len() == self.cubies.len()
        &&& nodes_valid(self.nodes)
        &&& self.turn.valid()
        &&& self.scramble.valid()
        &&& self.clock.valid()
        &&& self.turn.active == any_active(self.nodes)
    }

    /// The state at the start of a run on the given layout: idle, in
    /// quarter-turn mode, with nothing to scramble and the clock not running.
    pub open spec fn initial(cubies: Seq<CubieView>) -> SimView {
        SimView {
            cubies,
            nodes: Seq::new(cubies.len(), |i: int| NodeView::idle()),
            turn: TurnView::idle(TURN_SPEED as nat),
            double: false,
            scramble: ScrambleView::fresh(),
            clock: ClockView::fresh(),
        }
    }

    /// Whether a manual move is listened to: no turn is in flight and no
    /// scramble move is left to draw.
    pub open spec fn accepts_moves(self) -> bool {
        !self.turn.active && self.scramble.remaining_moves == 0
    }

    /// Whether the move would take any cubie along.
    pub open spec fn moves_any(self, descriptor: MoveDescriptor) -> bool {
        any_active(resolve(self.cubies, descriptor))
    }

    /// Whether a manual move command begins a turn: the state listens to
    /// moves and the move takes some cubie along.
    pub open spec fn turn_begins(self, descriptor: MoveDescriptor) -> bool {
        self.accepts_moves() && self.moves_any(descriptor)
    }

    /// The state with the turn that `descriptor` asks for begun: every
    /// affected cubie's target is fixed and the timer starts at zero. A move
    /// that takes no cubie along begins nothing.
    pub open spec fn begin_turn(self, descriptor: MoveDescriptor, scramble: bool) -> SimView {
        if self.moves_any(descriptor) {
            SimView {
                nodes: resolve(self.cubies, descriptor),
                turn: self.turn.started(descriptor, scramble),
                ..self
            }
        } else {
            self
        }
    }

    /// The state after a manual move command. While a turn is in flight or a
    /// scramble has moves left the command is ignored, and so is a move that
    /// takes no cubie along. Otherwise the turn begins, and the clock starts
    /// anew if a solve had been reported.
    pub open spec fn request_turn(self, descriptor: MoveDescriptor) -> SimView {
        if self.accepts_moves() && self.moves_any(descriptor) {
            SimView { clock: self.clock.manual_turn(), ..self.begin_turn(descriptor, false) }
        } else {
            self
        }
    }

    /// The state after the command that toggles double-turn mode: ignored
    /// while a scramble has moves left, else the mode flips and the speed
    /// becomes that of the new mode.
    pub open spec fn toggle_double_turn(self) -> SimView {
        if self.scramble.remaining_moves > 0 {
            self
        } else {
            SimView {
                double: !self.double,
                turn: self.turn.at_speed(mode_speed(!self.double)),
                ..self
            }
        }
    }

    /// The state after the command to scramble by `n_moves` moves seeded
    /// with `seed`: that many moves are left to draw from the start of the
    /// seed's stream, and the speed is the scramble rate. A count that is not
    /// positive is ignored.
    pub open spec fn start_scramble(self, n_moves: int, seed: u64) -> SimView {
        if n_moves <= 0 {
            self
        } else {
            SimView {
                scramble: self.scramble.begun(n_moves, seed),
                turn: self.turn.at_speed(self.scramble.speed),
                ..self
            }
        }
    }

    /// The state after the reset command: no turn in flight, no scramble
    /// move left, every cubie in its solved pose, the speed that of the mode.
    pub open spec fn reset_cube(self) -> SimView {
        SimView {
            cubies: layout_reset(self.cubies),
            nodes: released(self.nodes),
            turn: self.turn.stopped().at_speed(mode_speed(self.double)),
            scramble: self.scramble.cancelled(),
            ..self
        }
    }

    /// The state after the clock's part of a tick: the clock goes on by `dt`
    /// unless a turn is in flight.
    pub open spec fn pregame(self, dt: nat) -> SimView {
        if self.turn.active {
            self
        } else {
            SimView { clock: self.clock.ticked(dt), ..self }
        }
    }

    /// The state when a scramble has completed: quarter-turn mode at its
    /// speed, and the clock running from zero.
    pub open spec fn finish_scramble(self) -> SimView {
        SimView {
            double: false,
            turn: self.turn.at_speed(TURN_SPEED as nat),
            clock: ClockView::restarted(),
            ..self
        }
    }

    /// The move that the scrambler draws next.
    pub open spec fn next_scramble_move(self) -> MoveDescriptor {
        scramble_move(self.scramble.seed, self.scramble.drawn, self.double)
    }

    /// The state after the scrambler's draw: while moves are left and no
    /// turn is in flight, the next move is drawn and its turn begun. If the
    /// last move drawn takes no cubie along, the scramble completes at once.
    pub open spec fn draw_move(self) -> SimView {
        if self.scramble.remaining_moves > 0 && !self.turn.active {
            let drawn = SimView { scramble: self.scramble.drawn_one(), ..self };
            let begun = drawn.begin_turn(self.next_scramble_move(), true);
            if !begun.turn.active && begun.scramble.remaining_moves == 0 {
                begun.finish_scramble()
            } else {
                begun
            }
        } else {
            self
        }
    }

    /// The state after `dt` microseconds of animation. A turn whose timer
    /// runs out ends: its cubies are snapped to their targets, and if it was
    /// the last turn of a scramble the scramble completes. Else the turn
    /// goes on by `dt`.
    pub open spec fn advance(self, dt: nat) -> SimView {
        if !self.turn.active {
            self
        } else if self.turn.completes(dt, self.double) {
            let snapped = SimView {
                cubies: commit(self.cubies, self.nodes),
                nodes: released(self.nodes),
                turn: self.turn.stopped(),
                ..self
            };
            if self.turn.scramble && self.scramble.remaining_moves == 0 {
                snapped.finish_scramble()
            } else {
                snapped
            }
        } else {
            SimView { turn: self.turn.advanced(dt), ..self }
        }
    }

    /// What [`SimView::advance`] does to the turn in flight.
    pub open spec fn advance_outcome(self, dt: nat) -> TurnOutcome {
        if !self.turn.active {
            TurnOutcome::Idle
        } else if self.turn.completes(dt, self.double) {
            TurnOutcome::JustCompleted
        } else {
            TurnOutcome::Continuing
        }
    }

    /// The state after the scrambler's part of a tick: the draw, then `dt`
    /// microseconds of animation of a scramble turn.
    pub open spec fn rotate_scramble(self, dt: nat) -> SimView {
        let drawn = self.draw_move();
        if drawn.turn.active && drawn.turn.scramble {
            drawn.advance(dt)
        } else {
            drawn
        }
    }

    /// What the scrambler's part of a tick does to the turn in flight.
    pub open spec fn scramble_outcome(self, dt: nat) -> TurnOutcome {
        let drawn = self.draw_move();
        if drawn.turn.active && drawn.turn.scramble {
            drawn.advance_outcome(dt)
        } else {
            TurnOutcome::Idle
        }
    }

    /// The state after the manual turn's part of a tick: `dt` microseconds
    /// of animation of a manual turn.
    pub open spec fn rotate_cube(self, dt: nat) -> SimView {
        if self.turn.active && !self.turn.scramble {
            self.advance(dt)
        } else {
            self
        }
    }

    /// What the manual turn's part of a tick does to the turn in flight.
    pub open spec fn cube_outcome(self, dt: nat) -> TurnOutcome {
        if self.turn.active && !self.turn.scramble {
            self.advance_outcome(dt)
        } else {
            TurnOutcome::Idle
        }
    }

    /// The solved check: with no turn in flight and the clock past zero, a
    /// layout with every cubie in its solved pose gives the clock's count;
    /// anything else gives nothing.
    pub open spec fn check_cube(self) -> Option<nat> {
        if !self.turn.active && self.clock.elapsed > 0 && layout_solved(self.cubies) {
            Some(self.clock.elapsed)
        } else {
            None
        }
    }

    /// The solved event that is due: the result of the solved check, unless
    /// this solve has been reported already.
    pub open spec fn solved_event(self) -> Option<nat> {
        if self.clock.solved {
            None
        } else {
            self.check_cube()
        }
    }

    /// The state once the solved event that is due has been reported.
    pub open spec fn report_solved(self) -> SimView {
        if self.solved_event().is_some() {
            SimView { clock: self.clock.reported(), ..self }
        } else {
            self
        }
    }

    /// The state before the solved check of a tick of `dt` microseconds: the
    /// clock's part, then the scrambler's, then the manual turn's.
    pub open spec fn animate(self, dt: nat) -> SimView {
        self.pregame(dt).rotate_scramble(dt).rotate_cube(dt)
    }

    /// The state after a tick of `dt` microseconds.
    pub open spec fn tick(self, dt: nat) -> SimView {
        self.animate(dt).report_solved()
    }

    /// What a tick of `dt` microseconds does to the turn in flight.
    pub open spec fn tick_outcome(self, dt: nat) -> TurnOutcome {
        let first = self.pregame(dt).scramble_outcome(dt);
        if first != TurnOutcome::Idle {
            first
        } else {
            self.pregame(dt).rotate_scramble(dt).cube_outcome(dt)
        }
    }
}

/// A count of microseconds, if there is one, as a number.
pub open spec fn micros(count: Option<u64>) -> Option<nat> {
    match count {
        Some(t) => Some(t as nat),
        None => None,
    }
}

/// What a tick reports: what became of the turn in flight, and the solved
/// event with the clock's count in microseconds, if one is due.
#[derive(Clone, Copy, Debug, PartialEq, Eq)]
pub struct TickReport {
    pub outcome: TurnOutcome,
    pub solved: Option<u64>,
}

/// The parts of a simulation, with nothing yet said of how they hang
/// together.
struct Parts {
    cubies: Vec<Cubie>,
    nodes: Vec<MovementNode>,
    turn: TurnState,
    double: bool,
    scramble: ScrambleState,
    rng: Option<ChaCha8Rng>,
    clock: SolveClock,
}

impl Parts {
    /// The model of the parts.
    spec fn view(&self) -> SimView {
        SimView {
            cubies: layout(self.cubies@),
            nodes: node_views(self.nodes@),
            turn: self.turn@,
            double: self.double,
            scramble: self.scramble@,
            clock: self.clock@,
        }
    }

    /// The generator stands where the scrambler's count says: the words it
    /// hands out next are those of the seed's stream from `drawn` on. There
    /// is a generator whenever there are moves to draw.
    spec fn generator_in_step(&self) -> bool {
        &&& self.scramble.remaining_moves > 0 ==> self.rng.is_some()
        &&& self.rng matches Some(rng) ==> forall|k: nat|
            upcoming_word(rng, k) == seeded_word(
                self.scramble.seed,
                self.scramble.drawn as nat + k,
            )
    }

    /// The parts make up a simulation: their model is valid and the
    /// generator is in step.
    spec fn wf(&self) -> bool {
        &&& self.view().valid()
        &&& self.generator_in_step()
    }

    /// The parts of a simulation at the start of a run on valid cubies.
    fn new(cubies: Vec<Cubie>) -> (parts: Parts)
        requires
            layout_valid(layout(cubies@)),
        ensures
            parts.wf(),
            parts.view() == SimView::initial(layout(cubies@)),
    {
        let mut nodes: Vec<MovementNode> = Vec::new();
        let mut i: usize = 0;
        while i < cubies.len()
            invariant
                i <= cubies.len(),
                nodes@.len() == i,
                forall|j: int| 0 <= j < i ==> (#[trigger] nodes@[j])@ == NodeView::idle(),
            decreases cubies.len() - i,
        {
            nodes.push(MovementNode::default());
            i += 1;
        }
        let parts = Parts {
            cubies,
            nodes,
            turn: TurnState::new(),
            double: false,
            scramble: ScrambleState {
                remaining_moves: 0,
                speed: SCRAMBLE_SPEED,
                seed: 0,
                drawn: 0,
            },
            rng: None,
            clock: SolveClock::new(),
        };
        proof {
            lemma_identity_is_rotation();
            assert(parts.view().nodes =~= SimView::initial(layout(cubies@)).nodes);
        }
        parts
    }

    /// The parts of a simulation without cubies: what stands in for the
    /// parts of a simulation while they are being worked on.
    fn empty() -> (parts: Parts)
        ensures
            parts.wf(),
    {
        let cubies: Vec<Cubie> = Vec::new();
        Parts::new(cubies)
    }

    /// Resolves the move and, if it takes any cubie along, begins its turn.
    fn begin_turn(&mut self, descriptor: &MoveDescriptor, scramble: bool) -> (begun: bool)
        requires
            old(self).wf(),
            !old(self).view().turn.active,
        ensures
            final(self).wf(),
            final(self).view() == old(self).view().begin_turn(*descriptor, scramble),
            begun == old(self).view().moves_any(*descriptor),
    {
        let (nodes, any) = resolve_move(&self.cubies, descriptor);
        proof {
            lemma_move_keeps_valid(self.view().cubies, *descriptor);
            lemma_commit_resolve(self.view().cubies, *descriptor);
        }
        if any {
            self.nodes = nodes;
            self.turn = self.turn.started(descriptor, scramble);
        }
        any
    }

    fn request_turn(&mut self, descriptor: MoveDescriptor) -> (begun: bool)
        requires
            old(self).wf(),
        ensures
            final(self).wf(),
            final(self).view() == old(self).view().request_turn(descriptor),
            begun == old(self).view().turn_begins(descriptor),
    {
        if self.turn.active || self.scramble.remaining_moves != 0 {
            return false;
        }
        let begun = self.begin_turn(&descriptor, false);
        if begun {
            self.clock = self.clock.manual_turn();
        }
        begun
    }

    fn toggle_double_turn(&mut self)
        requires
            old(self).wf(),
        ensures
            final(self).wf(),
            final(self).view() == old(self).view().toggle_double_turn(),
    {
        if self.scramble.remaining_moves > 0 {
            return;
        }
        self.double = !self.double;
        self.turn.angular_speed = if self.double {
            DOUBLE_SPEED
        } else {
            TURN_SPEED
        };
    }

    fn start_scramble(&mut self, n_moves: i32, seed: u64)
        requires
            old(self).wf(),
        ensures
            final(self).wf(),
            final(self).view() == old(self).view().start_scramble(n_moves as int, seed),
    {
        if n_moves <= 0 {
            return;
        }
        self.rng = Some(seed_from_u64(seed));
        self.scramble = ScrambleState {
            remaining_moves: n_moves,
            speed: self.scramble.speed,
            seed,
            drawn: 0,
        };
        self.turn.angular_speed = self.scramble.speed;
    }

    fn reset_cube(&mut self)
        requires
            old(self).wf(),
        ensures
            final(self).wf(),
            final(self).view() == old(self).view().reset_cube(),
    {
        proof {
            lemma_reset_valid(self.view());
        }
        reset_cubies(&mut self.cubies);
        release_nodes(&mut self.nodes);
        self.turn = self.turn.stopped();
        self.turn.angular_speed = if self.double {
            DOUBLE_SPEED
        } else {
            TURN_SPEED
        };
        self.scramble.remaining_moves = 0;
    }

    fn pregame(&mut self, dt: u64)
        requires
            old(self).wf(),
        ensures
            final(self).wf(),
            final(self).view() == old(self).view().pregame(dt as nat),
    {
        if !self.turn.active {
            self.clock = self.clock.ticked(dt);
        }
    }

    /// What is done when the last turn of a scramble has ended.
    fn finish_scramble(&mut self)
        requires
            old(self).wf(),
        ensures
            final(self).wf(),
            final(self).view() == old(self).view().finish_scramble(),
    {
        self.double = false;
        self.turn.angular_speed = TURN_SPEED;
        self.clock = SolveClock::restarted();
    }

    /// The scrambler's draw: with moves left and no turn in flight, the next
    /// move comes off the generator and its turn begins.
    fn draw_move(&mut self)
        requires
            old(self).wf(),
        ensures
            final(self).wf(),
            final(self).view() == old(self).view().draw_move(),
    {
        if self.scramble.remaining_moves > 0 && !self.turn.active {
            let drawn = match &mut self.rng {
                Some(rng) => Some(randomize_vars(rng)),
                None => None,
            };
            if let Some(vars) = drawn {
                let descriptor = move_from_vars(vars, self.double);
                self.scramble.remaining_moves = self.scramble.remaining_moves - 1;
                self.scramble.drawn = self.scramble.drawn + 3;
                let begun = self.begin_turn(&descriptor, true);
                if !begun && self.scramble.remaining_moves == 0 {
                    self.finish_scramble();
                }
            }
        }
    }

    fn advance(&mut self, dt: u64) -> (outcome: TurnOutcome)
        requires
            old(self).wf(),
        ensures
            final(self).wf(),
            final(self).view() == old(self).view().advance(dt as nat),
            outcome == old(self).view().advance_outcome(dt as nat),
    {
        if !self.turn.active {
            return TurnOutcome::Idle;
        }
        if self.turn.completes(dt, self.double) {
            let last_of_scramble = self.turn.scramble && self.scramble.remaining_moves == 0;
            proof {
                lemma_commit_keeps_valid(self.view().cubies, self.view().nodes);
            }
            snap_to_targets(&mut self.cubies, &mut self.nodes);
            self.turn = self.turn.stopped();
            if last_of_scramble {
                self.finish_scramble();
            }
            TurnOutcome::JustCompleted
        } else {
            self.turn = self.turn.advanced(dt, self.double);
            TurnOutcome::Continuing
        }
    }

    fn rotate_scramble(&mut self, dt: u64) -> (outcome: TurnOutcome)
        requires
            old(self).wf(),
        ensures
            final(self).wf(),
            final(self).view() == old(self).view().rotate_scramble(dt as nat),
            outcome == old(self).view().scramble_outcome(dt as nat),
    {
        self.draw_move();
        if self.turn.active && self.turn.scramble {
            self.advance(dt)
        } else {
            TurnOutcome::Idle
        }
    }

    fn rotate_cube(&mut self, dt: u64) -> (outcome: TurnOutcome)
        requires
            old(self).wf(),
        ensures
            final(self).wf(),
            final(self).view() == old(self).view().rotate_cube(dt as nat),
            outcome == old(self).view().cube_outcome(dt as nat),
    {
        if self.turn.active && !self.turn.scramble {
            self.advance(dt)
        } else {
            TurnOutcome::Idle
        }
    }

    fn check_cube(&self) -> (r: Option<u64>)
        ensures
            micros(r) == self.view().check_cube(),
    {
        if !self.turn.active && self.clock.elapsed > 0 && all_solved(&self.cubies) {
            Some(self.clock.elapsed)
        } else {
            None
        }
    }

    fn tick(&mut self, dt: u64) -> (report: TickReport)
        requires
            old(self).wf(),
        ensures
            final(self).wf(),
            final(self).view() == old(self).view().tick(dt as nat),
            report.outcome == old(self).view().tick_outcome(dt as nat),
            micros(report.solved) == old(self).view().animate(dt as nat).solved_event(),
    {
        self.pregame(dt);
        let first = self.rotate_scramble(dt);
        let second = self.rotate_cube(dt);
        let outcome = match first {
            TurnOutcome::Idle => second,
            _ => first,
        };
        let solved = if self.clock.solved {
            None
        } else {
            self.check_cube()
        };
        if solved.is_some() {
            self.clock = self.clock.reported();
        }
        TickReport { outcome, solved }
    }
}

/// The whole state of the simulation. It is valid at all times: whoever
/// holds one may rely on [`SimView::valid`] of its model.
pub struct SimulationState {
    parts: Parts,
}

impl View for SimulationState {
    type V = SimView;

    closed spec fn view(&self) -> SimView {
        self.parts.view()
    }
}

impl SimulationState {
    /// What holds of every simulation there is.
    #[verifier::type_invariant]
    spec fn well_formed(self) -> bool {
        self.parts.wf()
    }

    /// A simulation of the given cubies, if every one of them is on the
    /// lattice with a rotation of the cube as its orientation.
    pub fn new(cubies: Vec<Cubie>) -> (r: Option<SimulationState>)
        ensures
            r.is_some() == layout_valid(layout(cubies@)),
            r matches Some(state) ==> state@ == SimView::initial(layout(cubies@))
                && state@.valid(),
    {
        if all_valid(&cubies) {
            Some(SimulationState { parts: Parts::new(cubies) })
        } else {
            None
        }
    }

    /// A simulation of the solved puzzle.
    pub fn solved() -> (state: SimulationState)
        ensures
            state@ == SimView::initial(solved_cube()),
            state@.valid(),
    {
        SimulationState { parts: Parts::new(setup_cube()) }
    }

    /// The number of cubies.
    pub fn len(&self) -> (n: usize)
        ensures
            n == self@.cubies.len(),
            self@.valid(),
    {
        proof {
            use_type_invariant(self);
        }
        self.parts.cubies.len()
    }

    /// The cubie with the given index, if there is one.
    pub fn cubie(&self, index: usize) -> (r: Option<Cubie>)
        ensures
            r.is_some() == (index < self@.cubies.len()),
            r matches Some(c) ==> c@ == self@.cubies[index as int] && c@.valid(),
    {
        proof {
            use_type_invariant(self);
        }
        if index < self.parts.cubies.len() {
            Some(self.parts.cubies[index])
        } else {
            None
        }
    }

    /// The node of the cubie with the given index, if there is one.
    pub fn node(&self, index: usize) -> (r: Option<MovementNode>)
        ensures
            r.is_some() == (index < self@.nodes.len()),
            r matches Some(n) ==> n@ == self@.nodes[index as int],
    {
        if index < self.parts.nodes.len() {
            Some(self.parts.nodes[index])
        } else {
            None
        }
    }

    /// The turn in flight, or the last one if none is.
    pub fn turn(&self) -> (r: TurnState)
        ensures
            r@ == self@.turn,
    {
        self.parts.turn
    }

    /// Whether double-turn mode is on.
    pub fn double(&self) -> (r: bool)
        ensures
            r == self@.double,
    {
        self.parts.double
    }

    /// The scrambler's state.
    pub fn scramble(&self) -> (r: ScrambleState)
        ensures
            r@ == self@.scramble,
    {
        self.parts.scramble
    }

    /// The solve clock.
    pub fn clock(&self) -> (r: SolveClock)
        ensures
            r@ == self@.clock,
    {
        self.parts.clock
    }

    /// A manual move command. It is ignored while a turn is in flight or a
    /// scramble has moves left, and a move that takes no cubie along is a
    /// no-op. Else the turn begins. Says whether it did.
    pub fn request_turn(&mut self, descriptor: MoveDescriptor) -> (begun: bool)
        ensures
            final(self)@ == old(self)@.request_turn(descriptor),
            final(self)@.valid(),
            begun == old(self)@.turn_begins(descriptor),
            old(self)@.turn.active ==> final(self)@ == old(self)@,
    {
        proof {
            use_type_invariant(&*self);
        }
        let mut parts = Parts::empty();
        std::mem::swap(&mut parts, &mut self.parts);
        let begun = parts.request_turn(descriptor);
        self.parts = parts;
        begun
    }

    /// The command to turn a face: `prime` reverses the sense, `wide` takes
    /// the whole puzzle along and `middle` turns the middle slice instead. The
    /// angle is that of the mode. Says whether the turn began.
    pub fn cube_control(&mut self, face: Face, prime: bool, wide: bool, middle: bool) -> (begun:
        bool)
        ensures
            final(self)@ == old(self)@.request_turn(
                MoveDescriptor::spec_for_face(face, prime, wide, middle, old(self)@.double),
            ),
            final(self)@.valid(),
            begun == old(self)@.turn_begins(
                MoveDescriptor::spec_for_face(face, prime, wide, middle, old(self)@.double),
            ),
    {
        let descriptor = MoveDescriptor::for_face(face, prime, wide, middle, self.parts.double);
        self.request_turn(descriptor)
    }

    /// The command to turn the whole puzzle about an axis, in the negative
    /// sense or with `prime` in the positive one. Says whether the turn began.
    pub fn adjust_cube(&mut self, axis: Axis, prime: bool) -> (begun: bool)
        ensures
            final(self)@ == old(self)@.request_turn(
                MoveDescriptor::spec_for_cube(axis, prime, old(self)@.double),
            ),
            final(self)@.valid(),
            begun == old(self)@.turn_begins(
                MoveDescriptor::spec_for_cube(axis, prime, old(self)@.double),
            ),
    {
        let descriptor = MoveDescriptor::for_cube(axis, prime, self.parts.double);
        self.request_turn(descriptor)
    }

    /// The command that toggles double-turn mode.
    pub fn toggle_double_turn(&mut self)
        ensures
            final(self)@ == old(self)@.toggle_double_turn(),
            final(self)@.valid(),
    {
        proof {
            use_type_invariant(&*self);
        }
        let mut parts = Parts::empty();
        std::mem::swap(&mut parts, &mut self.parts);
        parts.toggle_double_turn();
        self.parts = parts;
    }

    /// The command to scramble by `n_moves` moves with a generator seeded
    /// with `seed`.
    pub fn start_scramble(&mut self, n_moves: i32, seed: u64)
        ensures
            final(self)@ == old(self)@.start_scramble(n_moves as int, seed),
            final(self)@.valid(),
    {
        proof {
            use_type_invariant(&*self);
        }
        let mut parts = Parts::empty();
        std::mem::swap(&mut parts, &mut self.parts);
        parts.start_scramble(n_moves, seed);
        self.parts = parts;
    }

    /// The reset command. It is obeyed at any time.
    pub fn reset_cube(&mut self)
        ensures
            final(self)@ == old(self)@.reset_cube(),
            final(self)@.valid(),
            layout_solved(final(self)@.cubies),
    {
        proof {
            use_type_invariant(&*self);
            lemma_reset_valid(self@);
        }
        let mut parts = Parts::empty();
        std::mem::swap(&mut parts, &mut self.parts);
        parts.reset_cube();
        self.parts = parts;
    }

    /// The clock's part of a tick of `dt` microseconds.
    pub fn pregame(&mut self, dt: u64)
        ensures
            final(self)@ == old(self)@.pregame(dt as nat),
            final(self)@.valid(),
    {
        proof {
            use_type_invariant(&*self);
        }
        let mut parts = Parts::empty();
        std::mem::swap(&mut parts, &mut self.parts);
        parts.pregame(dt);
        self.parts = parts;
    }

    /// Animates the turn in flight by `dt` microseconds and says what became
    /// of it.
    pub fn advance(&mut self, dt: u64) -> (outcome: TurnOutcome)
        ensures
            final(self)@ == old(self)@.advance(dt as nat),
            final(self)@.valid(),
            outcome == old(self)@.advance_outcome(dt as nat),
    {
        proof {
            use_type_invariant(&*self);
        }
        let mut parts = Parts::empty();
        std::mem::swap(&mut parts, &mut self.parts);
        let outcome = parts.advance(dt);
        self.parts = parts;
        outcome
    }

    /// The scrambler's part of a tick of `dt` microseconds: the draw of the
    /// next move if one is due, then the animation of a scramble turn.
    pub fn rotate_scramble(&mut self, dt: u64) -> (outcome: TurnOutcome)
        ensures
            final(self)@ == old(self)@.rotate_scramble(dt as nat),
            final(self)@.valid(),
            outcome == old(self)@.scramble_outcome(dt as nat),
    {
        proof {
            use_type_invariant(&*self);
        }
        let mut parts = Parts::empty();
        std::mem::swap(&mut parts, &mut self.parts);
        let outcome = parts.rotate_scramble(dt);
        self.parts = parts;
        outcome
    }

    /// The manual turn's part of a tick of `dt` microseconds: the animation
    /// of a manual turn.
    pub fn rotate_cube(&mut self, dt: u64) -> (outcome: TurnOutcome)
        ensures
            final(self)@ == old(self)@.rotate_cube(dt as nat),
            final(self)@.valid(),
            outcome == old(self)@.cube_outcome(dt as nat),
    {
        proof {
            use_type_invariant(&*self);
        }
        let mut parts = Parts::empty();
        std::mem::swap(&mut parts, &mut self.parts);
        let outcome = parts.rotate_cube(dt);
        self.parts = parts;
        outcome
    }

    /// The solved check: the clock's count in microseconds if the puzzle is
    /// solved, no turn is in flight and the clock is past zero. It changes
    /// nothing.
    pub fn check_cube(&self) -> (r: Option<u64>)
        ensures
            micros(r) == self@.check_cube(),
    {
        self.parts.check_cube()
    }

    /// One tick of `dt` microseconds: the clock's part, the scrambler's, the
    /// manual turn's, and the solved check.
    pub fn tick(&mut self, dt: u64) -> (report: TickReport)
        ensures
            final(self)@ == old(self)@.tick(dt as nat),
            final(self)@.valid(),
            report.outcome == old(self)@.tick_outcome(dt as nat),
            micros(report.solved) == old(self)@.animate(dt as nat).solved_event(),
    {
        proof {
            use_type_invariant(&*self);
        }
        let mut parts = Parts::empty();
        std::mem::swap(&mut parts, &mut self.parts);
        let report = parts.tick(dt);
        self.parts = parts;
        report
    }
}

/// The reset command leaves a valid state valid, with every cubie solved.
pub proof fn lemma_reset_valid(s: SimView)
    requires
        s.valid(),
    ensures
        s.reset_cube().valid(),
        layout_solved(s.reset_cube().cubies),
{
    let after = s.reset_cube();
    assert forall|i: int| 0 <= i < after.cubies.len() implies (#[trigger] after.cubies[i]).valid()
        && after.cubies[i].is_solved() by {
        assert(s.cubies[i].valid());
    }
    assert forall|i: int| 0 <= i < after.nodes.len() implies (#[trigger] after.nodes[i]).valid()
        && !after.nodes[i].active by {
        assert(s.nodes[i].valid());
    }
}

} // verus!
