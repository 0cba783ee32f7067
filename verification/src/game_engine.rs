//! The game-state machine and the per-tick decision procedure of the
//! simulation loop.
//!
//! The unverified shell owns the wall clock and the two channels; once per
//! tick it polls the command channel and hands the outcome to
//! [`Engine::on_tick`], which applies at most one command, advances a
//! generation when one is due, and says which event (if any) to emit on the
//! event channel. The update frequency is a positive number of generations
//! per second with one decimal place, stored exactly as integer tenths.

use vstd::arithmetic::div_mod::{
    lemma_div_is_ordered,
    lemma_div_is_ordered_by_denominator,
    lemma_div_pos_is_pos,
};
use vstd::prelude::*;

use crate::grid::{
    diff_count,
    in_bounds,
    pattern_matches,
    spec_next_generation,
    spec_toggle,
    Grid,
    Pattern,
    CELL_COUNT,
};
use crate::input::InputEvent;

verus! {

/// Lowest selectable update frequency, in tenths of a generation per
/// second (0.2 generations per second).
pub const MIN_UPDATE_FREQUENCE_TENTHS: u32 = 2;

/// Highest selectable update frequency, in tenths of a generation per
/// second (5.0 generations per second).
pub const MAX_UPDATE_FREQUENCE_TENTHS: u32 = 50;

/// Update frequency of a fresh game, in tenths of a generation per second
/// (1.0 generations per second).
pub const DEFAULT_UPDATE_FREQUENCE_TENTHS: u32 = 10;

/// What the simulation loop emits on the event channel: a snapshot of the
/// whole state after a visible change, or the terminal signal.
pub enum GameEvent {
    StateUpdated(GameState),
    Quit,
}

/// The grid together with the simulation metadata. All mutation goes
/// through the command and tick transitions, which keep `wf`.
pub struct GameState {
    pub grid: Grid,
    /// Generations per second, in exact tenths.
    pub update_frequence_tenths: u32,
    /// Cached flag: the frequency sits at its lower clamp bound.
    pub is_min_update_frequence: bool,
    /// Cached flag: the frequency sits at its upper clamp bound.
    pub is_max_update_frequence: bool,
    pub paused: bool,
    /// Number of applied generation steps; increases by exactly one per
    /// step and never decreases.
    pub generation: u64,
}

impl GameState {
    /// The grid has its fixed size, the frequency lies within its clamp
    /// bounds, and the two cached flags match the bounds exactly.
    pub open spec fn wf(&self) -> bool {
        &&& self.grid.wf()
        &&& MIN_UPDATE_FREQUENCE_TENTHS <= self.update_frequence_tenths
            <= MAX_UPDATE_FREQUENCE_TENTHS
        &&& self.is_min_update_frequence == (self.update_frequence_tenths
            == MIN_UPDATE_FREQUENCE_TENTHS)
        &&& self.is_max_update_frequence == (self.update_frequence_tenths
            == MAX_UPDATE_FREQUENCE_TENTHS)
    }

    /// Wraps a grid in a fresh, paused state at generation zero and the
    /// default update frequency.
    pub fn new(grid: Grid) -> (state: GameState)
        requires
            grid.wf(),
        ensures
            state.wf(),
            state.grid@ == grid@,
            state.update_frequence_tenths == DEFAULT_UPDATE_FREQUENCE_TENTHS,
            !state.is_min_update_frequence,
            !state.is_max_update_frequence,
            state.paused,
            state.generation == 0,
    {
        GameState {
            grid,
            update_frequence_tenths: DEFAULT_UPDATE_FREQUENCE_TENTHS,
            is_min_update_frequence: false,
            is_max_update_frequence: false,
            paused: true,
            generation: 0,
        }
    }

    /// An independent copy of the state, field for field: the snapshot a
    /// render sink receives, with no way back into the live state.
    pub fn snapshot(&self) -> (copy: GameState)
        ensures
            states_equal(copy, *self),
    {
        GameState {
            grid: self.grid.duplicate(),
            update_frequence_tenths: self.update_frequence_tenths,
            is_min_update_frequence: self.is_min_update_frequence,
            is_max_update_frequence: self.is_max_update_frequence,
            paused: self.paused,
            generation: self.generation,
        }
    }
}

/// Two states agree on every observable field.
pub open spec fn states_equal(a: GameState, b: GameState) -> bool {
    &&& a.grid@ == b.grid@
    &&& a.update_frequence_tenths == b.update_frequence_tenths
    &&& a.is_min_update_frequence == b.is_min_update_frequence
    &&& a.is_max_update_frequence == b.is_max_update_frequence
    &&& a.paused == b.paused
    &&& a.generation == b.generation
}

/// The frequency after one increment request: refused at the maximum;
/// otherwise a fine step of 0.2 below 1.0 generations per second and a
/// coarse step of 0.5 at or above it, clamped to the maximum.
pub open spec fn freq_after_increment(f: int) -> int {
    if f >= MAX_UPDATE_FREQUENCE_TENTHS as int {
        f
    } else {
        let step: int = if f < DEFAULT_UPDATE_FREQUENCE_TENTHS as int {
            2
        } else {
            5
        };
        if f + step > MAX_UPDATE_FREQUENCE_TENTHS as int {
            MAX_UPDATE_FREQUENCE_TENTHS as int
        } else {
            f + step
        }
    }
}

/// The frequency after one decrement request: refused at the minimum;
/// otherwise the mirror of the increment rule, clamped to the minimum.
pub open spec fn freq_after_decrement(f: int) -> int {
    if f <= MIN_UPDATE_FREQUENCE_TENTHS as int {
        f
    } else {
        let step: int = if f <= DEFAULT_UPDATE_FREQUENCE_TENTHS as int {
            2
        } else {
            5
        };
        if f - step < MIN_UPDATE_FREQUENCE_TENTHS as int {
            MIN_UPDATE_FREQUENCE_TENTHS as int
        } else {
            f - step
        }
    }
}

/// The pause flag after a command.
pub open spec fn spec_paused_after(s: GameState, command: InputEvent) -> bool {
    match command {
        InputEvent::TogglePause => !s.paused,
        _ => s.paused,
    }
}

/// The update frequency after a command, in tenths.
pub open spec fn spec_freq_after(s: GameState, command: InputEvent) -> int {
    match command {
        InputEvent::IncrementUpdateFrequence => freq_after_increment(
            s.update_frequence_tenths as int,
        ),
        InputEvent::DecrementUpdateFrequence => freq_after_decrement(
            s.update_frequence_tenths as int,
        ),
        _ => s.update_frequence_tenths as int,
    }
}

/// Whether a command visibly changes the state: a toggle only when it hits
/// the grid, a frequency adjustment only away from its clamp bound, a
/// pause toggle and a reset always, and a quit never (it terminates the
/// loop instead).
pub open spec fn spec_command_changes(s: GameState, command: InputEvent) -> bool {
    match command {
        InputEvent::GridClicked(coords) => in_bounds(coords.x as int, coords.y as int),
        InputEvent::TogglePause => true,
        InputEvent::IncrementUpdateFrequence => s.update_frequence_tenths
            < MAX_UPDATE_FREQUENCE_TENTHS,
        InputEvent::DecrementUpdateFrequence => s.update_frequence_tenths
            > MIN_UPDATE_FREQUENCE_TENTHS,
        InputEvent::Reset(_) => true,
        InputEvent::Quit => false,
    }
}

/// How the grid relates to its pre-command value: toggled by a click,
/// freshly generated by a reset (for a random pattern only the live-cell
/// count is determined), untouched by everything else.
pub open spec fn spec_grid_after(s: GameState, command: InputEvent, g: Seq<bool>) -> bool {
    match command {
        InputEvent::GridClicked(coords) => g == spec_toggle(
            s.grid@,
            coords.x as int,
            coords.y as int,
        ),
        InputEvent::Reset(pattern) => g.len() == CELL_COUNT && pattern_matches(pattern, g),
        _ => g == s.grid@,
    }
}

impl GameState {
    /// Applies one command from the transition table and reports whether
    /// the state visibly changed (the signal for emitting a snapshot).
    /// Rejected requests — an out-of-bounds toggle, an adjustment at a
    /// clamp bound — are absorbed, never an error. The generation counter
    /// is never touched by a command, a reset included.
    pub fn apply_command(&mut self, command: InputEvent) -> (changed: bool)
        requires
            old(self).wf(),
            command.valid(),
            !(command is Quit),
        ensures
            final(self).wf(),
            changed == spec_command_changes(*old(self), command),
            final(self).generation == old(self).generation,
            final(self).paused == spec_paused_after(*old(self), command),
            final(self).update_frequence_tenths == spec_freq_after(*old(self), command),
            spec_grid_after(*old(self), command, final(self).grid@),
    {
        match command {
            InputEvent::GridClicked(coords) => self.grid.toggle_cell(coords.x, coords.y),
            InputEvent::TogglePause => {
                self.paused = !self.paused;
                true
            },
            InputEvent::IncrementUpdateFrequence => {
                if self.update_frequence_tenths >= MAX_UPDATE_FREQUENCE_TENTHS {
                    false
                } else {
                    let step: u32 = if self.update_frequence_tenths
                        < DEFAULT_UPDATE_FREQUENCE_TENTHS {
                        2
                    } else {
                        5
                    };
                    let mut new_frequence = self.update_frequence_tenths + step;
                    if new_frequence > MAX_UPDATE_FREQUENCE_TENTHS {
                        new_frequence = MAX_UPDATE_FREQUENCE_TENTHS;
                    }
                    self.set_frequence(new_frequence);
                    true
                }
            },
            InputEvent::DecrementUpdateFrequence => {
                if self.update_frequence_tenths <= MIN_UPDATE_FREQUENCE_TENTHS {
                    false
                } else {
                    let step: u32 = if self.update_frequence_tenths
                        <= DEFAULT_UPDATE_FREQUENCE_TENTHS {
                        2
                    } else {
                        5
                    };
                    let mut new_frequence = self.update_frequence_tenths - step;
                    if new_frequence < MIN_UPDATE_FREQUENCE_TENTHS {
                        new_frequence = MIN_UPDATE_FREQUENCE_TENTHS;
                    }
                    self.set_frequence(new_frequence);
                    true
                }
            },
            InputEvent::Reset(pattern) => {
                self.grid.reset(pattern);
                true
            },
            InputEvent::Quit => false,
        }
    }

    /// Stores an adjusted frequency and recomputes the two cached clamp
    /// flags, as every adjustment must.
    fn set_frequence(&mut self, frequence_tenths: u32)
        requires
            MIN_UPDATE_FREQUENCE_TENTHS <= frequence_tenths <= MAX_UPDATE_FREQUENCE_TENTHS,
        ensures
            *final(self) == (GameState {
                update_frequence_tenths: frequence_tenths,
                is_min_update_frequence: frequence_tenths == MIN_UPDATE_FREQUENCE_TENTHS,
                is_max_update_frequence: frequence_tenths == MAX_UPDATE_FREQUENCE_TENTHS,
                ..*old(self)
            }),
    {
        self.update_frequence_tenths = frequence_tenths;
        self.is_min_update_frequence = frequence_tenths == MIN_UPDATE_FREQUENCE_TENTHS;
        self.is_max_update_frequence = frequence_tenths == MAX_UPDATE_FREQUENCE_TENTHS;
    }
}

/// The frequency never escapes its clamp bounds: at the maximum an
/// increment is refused, at the minimum a decrement is refused, and any
/// other adjustment moves strictly toward the requested direction while
/// staying within the bounds — so repeated increments stop increasing
/// exactly at the maximum, and repeated decrements at the minimum.
pub proof fn lemma_frequence_clamped(f: int)
    requires
        MIN_UPDATE_FREQUENCE_TENTHS <= f <= MAX_UPDATE_FREQUENCE_TENTHS,
    ensures
        MIN_UPDATE_FREQUENCE_TENTHS <= freq_after_increment(f) <= MAX_UPDATE_FREQUENCE_TENTHS,
        MIN_UPDATE_FREQUENCE_TENTHS <= freq_after_decrement(f) <= MAX_UPDATE_FREQUENCE_TENTHS,
        f == MAX_UPDATE_FREQUENCE_TENTHS as int ==> freq_after_increment(f) == f,
        f < MAX_UPDATE_FREQUENCE_TENTHS as int ==> freq_after_increment(f) > f,
        f == MIN_UPDATE_FREQUENCE_TENTHS as int ==> freq_after_decrement(f) == f,
        f > MIN_UPDATE_FREQUENCE_TENTHS as int ==> freq_after_decrement(f) < f,
{
}

/// What a non-blocking poll of the command channel produced: one command,
/// nothing, or the news that the input source is permanently closed.
pub enum PollResult {
    Received(InputEvent),
    Empty,
    Disconnected,
}

/// A rejected configuration, fatal before the loop starts: a tick rate of
/// zero, or a random pattern asking for more cells than the grid has.
#[derive(Debug, PartialEq, Eq, Structural)]
pub enum ConfigError {
    InvalidTickRate,
    InvalidPatternCount,
}

/// The simulation loop's state between ticks: the game state it owns
/// exclusively, the configured wall-clock tick rate, and the tick counter
/// against the threshold of ticks per generation step.
pub struct Engine {
    pub game_state: GameState,
    /// Wall-clock ticks per second; fixed at construction, at least one.
    pub tick_rate: u32,
    /// Ticks seen since the last generation step while running.
    pub tick_counter: u64,
    /// Current threshold: the tick count at which a step is due.
    pub ticks_per_update: u64,
}

/// Ticks between generation steps: the tick rate divided by the update
/// frequency, rounded to the nearest whole tick (`f` is in tenths, so the
/// quotient is `10 * tick_rate / f`, and adding half the divisor before a
/// floor division rounds it).
pub open spec fn spec_ticks_per_update(tick_rate: int, f: int) -> int {
    (20 * tick_rate + f) / (2 * f)
}

/// Largest threshold any legal frequency can produce for this tick rate;
/// the tick counter never exceeds it.
pub open spec fn max_tick_counter(tick_rate: int) -> int {
    (20 * tick_rate + 50) / 4
}

proof fn lemma_ticks_per_update_bounds(tick_rate: int, f: int)
    requires
        tick_rate >= 1,
        MIN_UPDATE_FREQUENCE_TENTHS <= f <= MAX_UPDATE_FREQUENCE_TENTHS,
    ensures
        0 <= spec_ticks_per_update(tick_rate, f) <= max_tick_counter(tick_rate),
{
    lemma_div_pos_is_pos(20 * tick_rate + f, 2 * f);
    lemma_div_is_ordered_by_denominator(20 * tick_rate + f, 4, 2 * f);
    lemma_div_is_ordered(20 * tick_rate + f, 20 * tick_rate + 50, 4);
}

fn compute_ticks_per_update(tick_rate: u32, frequence_tenths: u32) -> (ticks: u64)
    requires
        tick_rate >= 1,
        MIN_UPDATE_FREQUENCE_TENTHS <= frequence_tenths <= MAX_UPDATE_FREQUENCE_TENTHS,
    ensures
        ticks as int == spec_ticks_per_update(tick_rate as int, frequence_tenths as int),
{
    ((tick_rate as u64) * 20 + (frequence_tenths as u64)) / ((frequence_tenths as u64) * 2)
}

/// Whether this poll outcome terminates the loop: an explicit quit, or a
/// closed command channel treated as an implicit quit.
pub open spec fn poll_is_quit(poll: PollResult) -> bool {
    match poll {
        PollResult::Received(command) => command is Quit,
        PollResult::Empty => false,
        PollResult::Disconnected => true,
    }
}

/// A received command must be valid; an empty or closed poll always is.
pub open spec fn poll_valid(poll: PollResult) -> bool {
    match poll {
        PollResult::Received(command) => command.valid(),
        _ => true,
    }
}

/// Whether the polled command (if any) visibly changes the state.
pub open spec fn poll_changes(s: GameState, poll: PollResult) -> bool {
    match poll {
        PollResult::Received(command) => spec_command_changes(s, command),
        _ => false,
    }
}

/// The pause flag after the command phase of a tick.
pub open spec fn poll_paused_after(s: GameState, poll: PollResult) -> bool {
    match poll {
        PollResult::Received(command) => spec_paused_after(s, command),
        _ => s.paused,
    }
}

/// The update frequency after the command phase of a tick, in tenths.
pub open spec fn poll_freq_after(s: GameState, poll: PollResult) -> int {
    match poll {
        PollResult::Received(command) => spec_freq_after(s, command),
        _ => s.update_frequence_tenths as int,
    }
}

/// How the grid after the command phase relates to its value before it.
pub open spec fn poll_grid_after(s: GameState, poll: PollResult, g: Seq<bool>) -> bool {
    match poll {
        PollResult::Received(command) => spec_grid_after(s, command, g),
        _ => g == s.grid@,
    }
}

/// Whether this tick performs a generation step: the state is running
/// after the command phase and this tick's count — the counter advances
/// once per running tick before the comparison — reaches the threshold
/// (recomputed from the frequency the command phase left behind), so
/// consecutive steps are exactly one threshold's worth of ticks apart.
pub open spec fn step_due(o: Engine, poll: PollResult) -> bool {
    &&& !poll_paused_after(o.game_state, poll)
    &&& o.tick_counter + 1 >= spec_ticks_per_update(
        o.tick_rate as int,
        poll_freq_after(o.game_state, poll),
    )
}

/// The complete tick transition, relating the engine before a tick, the
/// polled command, the engine after the tick and the emitted event.
///
/// A quit (explicit or by channel closure) leaves the state untouched and
/// emits the terminal signal. Otherwise the polled command (at most one
/// per tick) is applied first; then, if running, the tick counter
/// advances, and once it reaches the threshold the grid advances one
/// generation computed from the post-command grid, the generation counter
/// increases by exactly one, the tick counter resets to zero, and a step
/// that changed no cell forces a pause (auto-pause on stasis). A snapshot
/// equal to the final state is emitted exactly when the command or the
/// step changed something.
pub open spec fn on_tick_spec(
    o: Engine,
    poll: PollResult,
    s: Engine,
    event: Option<GameEvent>,
) -> bool {
    if poll_is_quit(poll) {
        &&& s == o
        &&& event == Some(GameEvent::Quit)
    } else {
        &&& s.tick_rate == o.tick_rate
        &&& s.game_state.update_frequence_tenths == poll_freq_after(o.game_state, poll)
        &&& s.game_state.generation == o.game_state.generation + (if step_due(o, poll) {
            1int
        } else {
            0
        })
        &&& s.tick_counter == (if step_due(o, poll) {
            0int
        } else if poll_paused_after(o.game_state, poll) {
            o.tick_counter as int
        } else {
            o.tick_counter + 1
        })
        &&& (exists|mid: Seq<bool>|
            {
                &&& #[trigger] poll_grid_after(o.game_state, poll, mid)
                &&& if step_due(o, poll) {
                    &&& s.game_state.grid@ == spec_next_generation(mid)
                    &&& s.game_state.paused == (diff_count(mid, spec_next_generation(mid)) == 0)
                } else {
                    &&& s.game_state.grid@ == mid
                    &&& s.game_state.paused == poll_paused_after(o.game_state, poll)
                }
            })
        &&& match event {
            Some(GameEvent::StateUpdated(snap)) => states_equal(snap, s.game_state) && (
            poll_changes(o.game_state, poll) || step_due(o, poll)),
            Some(GameEvent::Quit) => false,
            None => !(poll_changes(o.game_state, poll) || step_due(o, poll)),
        }
    }
}

impl Engine {
    /// The owned state is well formed, the threshold always matches the
    /// current frequency, and the counter never exceeds the largest
    /// possible threshold.
    pub open spec fn wf(&self) -> bool {
        &&& self.game_state.wf()
        &&& self.tick_rate >= 1
        &&& self.ticks_per_update == spec_ticks_per_update(
            self.tick_rate as int,
            self.game_state.update_frequence_tenths as int,
        )
        &&& self.tick_counter <= max_tick_counter(self.tick_rate as int)
    }

    /// Builds the loop state around an existing game state, rejecting a
    /// tick rate of zero before the loop starts.
    pub fn new(game_state: GameState, tick_rate: u32) -> (result: Result<Engine, ConfigError>)
        requires
            game_state.wf(),
        ensures
            match result {
                Ok(engine) => {
                    &&& tick_rate >= 1
                    &&& engine.wf()
                    &&& states_equal(engine.game_state, game_state)
                    &&& engine.tick_rate == tick_rate
                    &&& engine.tick_counter == 0
                },
                Err(err) => tick_rate == 0 && err == ConfigError::InvalidTickRate,
            },
    {
        if tick_rate == 0 {
            return Err(ConfigError::InvalidTickRate);
        }
        let ticks_per_update = compute_ticks_per_update(
            tick_rate,
            game_state.update_frequence_tenths,
        );
        proof {
            lemma_ticks_per_update_bounds(
                tick_rate as int,
                game_state.update_frequence_tenths as int,
            );
        }
        Ok(Engine { game_state, tick_rate, tick_counter: 0, ticks_per_update })
    }

    /// One tick of the simulation loop, everything but the clock and the
    /// channels: applies the polled command (at most one per tick),
    /// advances a generation when one is due, and returns the event the
    /// shell must emit — the terminal signal on quit or closure, a
    /// snapshot after any visible change, nothing otherwise.
    pub fn on_tick(&mut self, poll: PollResult) -> (event: Option<GameEvent>)
        requires
            old(self).wf(),
            poll_valid(poll),
            old(self).game_state.generation < u64::MAX,
        ensures
            final(self).wf(),
            on_tick_spec(*old(self), poll, *final(self), event),
    {
        let mut state_updated = false;
        match poll {
            PollResult::Received(command) => {
                match command {
                    InputEvent::Quit => {
                        return Some(GameEvent::Quit);
                    },
                    other => {
                        state_updated = self.game_state.apply_command(other);
                        if state_updated {
                            self.ticks_per_update = compute_ticks_per_update(
                                self.tick_rate,
                                self.game_state.update_frequence_tenths,
                            );
                        }
                    },
                }
            },
            PollResult::Empty => {},
            PollResult::Disconnected => {
                return Some(GameEvent::Quit);
            },
        }

        let ghost mid = self.game_state.grid@;

        if !self.game_state.paused {
            proof {
                lemma_ticks_per_update_bounds(
                    self.tick_rate as int,
                    self.game_state.update_frequence_tenths as int,
                );
            }
            let ticks_this_update = self.tick_counter + 1;
            if ticks_this_update >= self.ticks_per_update {
                let update_count = self.game_state.grid.next_generation();
                if update_count == 0 {
                    self.game_state.paused = true;
                }
                self.game_state.generation = self.game_state.generation + 1;
                state_updated = true;
                self.tick_counter = 0;
            } else {
                self.tick_counter = ticks_this_update;
            }
        }

        proof {
            assert(poll_grid_after(old(self).game_state, poll, mid));
        }

        if state_updated {
            Some(GameEvent::StateUpdated(self.game_state.snapshot()))
        } else {
            None
        }
    }
}

/// Builds the engine for a fresh game: validates the whole configuration
/// before the loop starts — a zero tick rate and an oversized random
/// pattern are fatal — then generates the initial grid and wraps it in a
/// paused state at generation zero and the default frequency.
pub fn new_game(pattern: Pattern, tick_rate: u32) -> (result: Result<Engine, ConfigError>)
    ensures
        match result {
            Ok(engine) => {
                &&& tick_rate >= 1
                &&& pattern.valid()
                &&& engine.wf()
                &&& engine.tick_rate == tick_rate
                &&& engine.tick_counter == 0
                &&& engine.game_state.paused
                &&& engine.game_state.generation == 0
                &&& engine.game_state.update_frequence_tenths == DEFAULT_UPDATE_FREQUENCE_TENTHS
                &&& pattern_matches(pattern, engine.game_state.grid@)
            },
            Err(err) => {
                ||| (tick_rate == 0 && err == ConfigError::InvalidTickRate)
                ||| (tick_rate >= 1 && !pattern.valid() && err == ConfigError::InvalidPatternCount)
            },
        },
{
    if tick_rate == 0 {
        return Err(ConfigError::InvalidTickRate);
    }
    if !pattern.is_valid() {
        return Err(ConfigError::InvalidPatternCount);
    }
    let grid = Grid::new(pattern);
    let game_state = GameState::new(grid);
    Engine::new(game_state, tick_rate)
}

/// Auto-pause on stasis: when a running engine reaches its update time on
/// a stable grid (one that a generation step maps to itself), the tick
/// performs the step, flips no cell, forces the pause flag on, and still
/// emits a snapshot — the pause itself is the visible change.
pub proof fn lemma_stasis_auto_pauses(o: Engine, s: Engine, event: Option<GameEvent>)
    requires
        o.wf(),
        !o.game_state.paused,
        o.tick_counter + 1 >= o.ticks_per_update,
        spec_next_generation(o.game_state.grid@) == o.game_state.grid@,
        on_tick_spec(o, PollResult::Empty, s, event),
    ensures
        s.game_state.paused,
        s.game_state.grid@ == o.game_state.grid@,
        diff_count(o.game_state.grid@, s.game_state.grid@) == 0,
        s.game_state.generation == o.game_state.generation + 1,
        event matches Some(GameEvent::StateUpdated(snap)) && states_equal(snap, s.game_state),
{
    let g = o.game_state.grid@;
    assert(step_due(o, PollResult::Empty));
    let mid = choose|mid: Seq<bool>|
        {
            &&& #[trigger] poll_grid_after(o.game_state, PollResult::Empty, mid)
            &&& s.game_state.grid@ == spec_next_generation(mid)
            &&& s.game_state.paused == (diff_count(mid, spec_next_generation(mid)) == 0)
        };
    assert(mid == g);
    crate::grid::lemma_diff_count_self(g);
}

} // verus!
