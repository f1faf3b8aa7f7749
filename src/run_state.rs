//! The run-state machine: pause toggling, the end of the game, and what each
//! frame ticks and shows.
use vstd::prelude::*;
use crate::draw::{
    game_over_text, paused_text, shows_banner, shows_game, Draw, DrawCommand, EndScreen, PauseScreen,
    GAME_OVER_X, PAUSED_X,
};
use crate::game::{ends_game, is_new_game, ticked, Game};
use crate::Tick;

verus! {

/// Whether the game runs, waits paused, or is over for good.
#[derive(Clone, Copy, Debug, PartialEq, Eq, Structural)]
pub enum GameRunState {
    Running,
    Paused,
    GameOver,
}

/// The state after a frame's pause input: an edge toggles between running
/// and paused and leaves a finished game finished.
pub open spec fn after_pause_edge(s: GameRunState, pause_edge: bool) -> GameRunState {
    if !pause_edge {
        s
    } else {
        match s {
            GameRunState::Running => GameRunState::Paused,
            GameRunState::Paused => GameRunState::Running,
            GameRunState::GameOver => GameRunState::GameOver,
        }
    }
}

/// The state after a sequence of frames' pause inputs, first to last.
pub open spec fn after_pause_edges(s: GameRunState, edges: Seq<bool>) -> GameRunState
    decreases edges.len(),
{
    if edges.len() == 0 {
        s
    } else {
        after_pause_edge(after_pause_edges(s, edges.drop_last()), edges.last())
    }
}

/// Applies one frame's pause input.
pub fn apply_pause_edge(s: GameRunState, pause_edge: bool) -> (r: GameRunState)
    ensures
        r == after_pause_edge(s, pause_edge),
{
    if pause_edge {
        match s {
            GameRunState::Running => GameRunState::Paused,
            GameRunState::Paused => GameRunState::Running,
            GameRunState::GameOver => GameRunState::GameOver,
        }
    } else {
        s
    }
}

/// The pause input of a frame from the edge events queued since the last
/// one: the last event, or none if there was none.
pub open spec fn last_edge(events: Seq<bool>) -> bool {
    if events.len() == 0 {
        false
    } else {
        events.last()
    }
}

/// Folds the queued pause events of a frame to the most recent one.
pub fn collapse_edges(events: &Vec<bool>) -> (r: bool)
    ensures
        r == last_edge(events@),
{
    let mut pressed = false;
    let mut i: usize = 0;
    while i < events.len()
        invariant
            i <= events@.len(),
            pressed == last_edge(events@.subrange(0, i as int)),
        decreases events@.len() - i,
    {
        pressed = events[i];
        i = i + 1;
    }
    assert(events@.subrange(0, i as int) =~= events@);
    pressed
}

/// The value of the first `n` bits, most significant first.
pub open spec fn bits_value(bits: Seq<bool>, n: nat) -> nat
    decreases n,
{
    if n == 0 {
        0
    } else {
        2 * bits_value(bits, (n - 1) as nat) + if bits[n - 1] { 1nat } else { 0nat }
    }
}

/// A byte made of eight random bits, the first one most significant.
pub fn random_byte_from_bits(bits: &[bool; 8]) -> (r: u8)
    ensures
        r == bits_value(bits@, 8),
{
    let mut value: u8 = 0;
    let mut i: usize = 0;
    while i < 8
        invariant
            i <= 8,
            value == bits_value(bits@, i as nat),
            value < pow2_nat(i as nat),
        decreases 8 - i,
    {
        proof {
            reveal_with_fuel(pow2_nat, 8);
            assert(pow2_nat(i as nat) <= 128);
        }
        value = if bits[i] { value * 2 + 1 } else { value * 2 };
        i = i + 1;
    }
    value
}

/// `2` to the `n`.
pub open spec fn pow2_nat(n: nat) -> nat
    decreases n,
{
    if n == 0 {
        1
    } else {
        2 * pow2_nat((n - 1) as nat)
    }
}

/// What the display does in a frame.
pub struct FramePlan {
    /// Whether the frame starts from a blank screen.
    pub clear_first: bool,
    /// The shapes to draw, in order.
    pub commands: Vec<DrawCommand>,
    /// Whether the loop idles until an interrupt after showing the frame.
    pub wait_for_interrupt: bool,
}

/// The run state, the game it gates, and the number of ticks so far.
pub struct RunStateMachine {
    pub state: GameRunState,
    pub game: Game,
    pub frame_count: u32,
}

/// Whether a frame from state `s` with pause input `pause_edge` ticks the
/// game: only a running game without a pause edge in the frame does.
pub open spec fn frame_ticks(s: GameRunState, pause_edge: bool) -> bool {
    s == GameRunState::Running && !pause_edge
}

/// Whether `m2` is what one frame makes of `m` on the given input.
pub open spec fn framed(
    m: RunStateMachine,
    m2: RunStateMachine,
    pause_edge: bool,
    random_byte: u8,
    random_bool: bool,
    boop: bool,
) -> bool {
    if frame_ticks(m.state, pause_edge) {
        &&& ticked(m.game, m2.game, random_byte, random_bool, boop)
        &&& m2.state == if ends_game(m.game) { GameRunState::GameOver } else { GameRunState::Running }
        &&& m2.frame_count == (if m.frame_count == u32::MAX { 0 } else { m.frame_count + 1 })
    } else {
        &&& m2.game == m.game
        &&& m2.state == after_pause_edge(m.state, pause_edge)
        &&& m2.frame_count == m.frame_count
    }
}

/// Pausing and then resuming, one pause edge each, returns to running with
/// the game exactly as it was: no tick happens in between.
pub proof fn lemma_pause_round_trip(
    m: RunStateMachine,
    m1: RunStateMachine,
    m2: RunStateMachine,
    inputs1: (u8, bool, bool),
    inputs2: (u8, bool, bool),
)
    requires
        m.state == GameRunState::Running,
        framed(m, m1, true, inputs1.0, inputs1.1, inputs1.2),
        framed(m1, m2, true, inputs2.0, inputs2.1, inputs2.2),
    ensures
        m1.state == GameRunState::Paused,
        m2.state == GameRunState::Running,
        m2.game == m.game,
        m2.frame_count == m.frame_count,
{
}

/// A finished game stays finished: any sequence of pause edges leaves the
/// state at game over.
pub proof fn lemma_game_over_absorbs_edges(edges: Seq<bool>)
    ensures
        after_pause_edges(GameRunState::GameOver, edges) == GameRunState::GameOver,
    decreases edges.len(),
{
    if edges.len() > 0 {
        lemma_game_over_absorbs_edges(edges.drop_last());
    }
}

/// A frame of a finished game, whatever its input, keeps the state at game
/// over and the game untouched.
pub proof fn lemma_game_over_frame(
    m: RunStateMachine,
    m2: RunStateMachine,
    pause_edge: bool,
    random_byte: u8,
    random_bool: bool,
    boop: bool,
)
    requires
        m.state == GameRunState::GameOver,
        framed(m, m2, pause_edge, random_byte, random_bool, boop),
    ensures
        m2.state == GameRunState::GameOver,
        m2.game == m.game,
{
}

impl RunStateMachine {
    pub open spec fn wf(&self) -> bool {
        self.game.wf()
    }

    /// A running new game at frame zero.
    pub fn new() -> (r: Self)
        ensures
            r.wf(),
            r.state == GameRunState::Running,
            is_new_game(r.game),
            r.frame_count == 0,
    {
        RunStateMachine { state: GameRunState::Running, game: Game::new(), frame_count: 0 }
    }

    /// One frame: the pause input first, then a tick if the game runs and no
    /// pause edge came, then the shapes of the screen for the new state: the
    /// game on a cleared screen while running, otherwise the pause or end
    /// banner, after which the loop idles.
    pub fn frame(&mut self, pause_edge: bool, random_byte: u8, random_bool: bool, boop: bool) -> (plan: FramePlan)
        requires
            old(self).wf(),
        ensures
            final(self).wf(),
            framed(*old(self), *final(self), pause_edge, random_byte, random_bool, boop),
            plan.clear_first == (after_pause_edge(old(self).state, pause_edge) == GameRunState::Running),
            plan.wait_for_interrupt == !plan.clear_first,
            plan.clear_first ==> shows_game(final(self).game, plan.commands@),
            final(self).state == GameRunState::Paused && !plan.clear_first ==> shows_banner(
                plan.commands@,
                paused_text(),
                PAUSED_X,
            ),
            final(self).state == GameRunState::GameOver && !plan.clear_first ==> shows_banner(
                plan.commands@,
                game_over_text(),
                GAME_OVER_X,
            ),
    {
        let ticks = pause_edge == false && self.state == GameRunState::Running;
        if ticks {
            let over = self.game.tick(self.frame_count, random_byte, random_bool, boop);
            if over {
                self.state = GameRunState::GameOver;
            }
            self.frame_count = if self.frame_count == u32::MAX { 0 } else { self.frame_count + 1 };
        } else {
            self.state = apply_pause_edge(self.state, pause_edge);
        }
        let ran = ticks || self.state == GameRunState::Running;
        let commands = if ran {
            self.game.draw()
        } else if self.state == GameRunState::Paused {
            PauseScreen::new().draw()
        } else {
            EndScreen::new().draw()
        };
        FramePlan { clear_first: ran, commands, wait_for_interrupt: !ran }
    }
}

} // verus!
