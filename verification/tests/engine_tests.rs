use game_of_life::game_engine::{
    new_game, ConfigError, Engine, GameEvent, GameState, PollResult,
    DEFAULT_UPDATE_FREQUENCE_TENTHS, MAX_UPDATE_FREQUENCE_TENTHS, MIN_UPDATE_FREQUENCE_TENTHS,
};
use game_of_life::grid::{Grid, Pattern, CELL_COUNT, HEIGHT, WIDTH};
use game_of_life::input::{Coordinates, InputEvent};

fn paused_engine_with_empty_grid() -> Engine {
    new_game(Pattern::Random(0), 20).unwrap()
}

fn count_live(grid: &Grid) -> usize {
    let mut count: usize = 0;
    for y in 0..HEIGHT {
        for x in 0..WIDTH {
            if grid.is_alive(x, y) {
                count += 1;
            }
        }
    }
    count
}

#[test]
fn new_game_rejects_zero_tick_rate() {
    match new_game(Pattern::Random(5), 0) {
        Err(ConfigError::InvalidTickRate) => {}
        _ => panic!("a zero tick rate must be rejected at construction"),
    }
}

#[test]
fn new_game_rejects_oversized_pattern() {
    match new_game(Pattern::Random(CELL_COUNT + 1), 20) {
        Err(ConfigError::InvalidPatternCount) => {}
        _ => panic!("a pattern beyond grid capacity must be rejected at construction"),
    }
}

#[test]
fn new_game_starts_paused_at_defaults() {
    let engine = new_game(Pattern::Random(7), 20).unwrap();
    assert!(engine.game_state.paused);
    assert_eq!(engine.game_state.generation, 0);
    assert_eq!(
        engine.game_state.update_frequence_tenths,
        DEFAULT_UPDATE_FREQUENCE_TENTHS
    );
    assert!(!engine.game_state.is_min_update_frequence);
    assert!(!engine.game_state.is_max_update_frequence);
    assert_eq!(engine.tick_counter, 0);
    assert_eq!(count_live(&engine.game_state.grid), 7);
}

#[test]
fn paused_engine_does_nothing_on_empty_tick() {
    let mut engine = paused_engine_with_empty_grid();
    let event = engine.on_tick(PollResult::Empty);
    assert!(event.is_none());
    assert_eq!(engine.game_state.generation, 0);
    assert_eq!(engine.tick_counter, 0);
}

#[test]
fn toggle_pause_command_always_changes() {
    let mut engine = paused_engine_with_empty_grid();
    let event = engine.on_tick(PollResult::Received(InputEvent::TogglePause));
    assert!(!engine.game_state.paused);
    match event {
        Some(GameEvent::StateUpdated(snapshot)) => assert!(!snapshot.paused),
        _ => panic!("a pause toggle must emit a snapshot"),
    }
    let event = engine.on_tick(PollResult::Received(InputEvent::TogglePause));
    assert!(engine.game_state.paused);
    assert!(matches!(event, Some(GameEvent::StateUpdated(_))));
}

#[test]
fn increment_stops_exactly_at_max_frequency() {
    let mut engine = paused_engine_with_empty_grid();
    // 1.0 rises in 0.5 steps: 1.5, 2.0, ..., 5.0 — eight applied steps
    let expected = [15u32, 20, 25, 30, 35, 40, 45, 50];
    for expected_tenths in expected {
        let event = engine.on_tick(PollResult::Received(InputEvent::IncrementUpdateFrequence));
        assert!(matches!(event, Some(GameEvent::StateUpdated(_))));
        assert_eq!(engine.game_state.update_frequence_tenths, expected_tenths);
    }
    assert!(engine.game_state.is_max_update_frequence);
    assert!(!engine.game_state.is_min_update_frequence);
    // at the bound the request is refused: no change, no snapshot
    let event = engine.on_tick(PollResult::Received(InputEvent::IncrementUpdateFrequence));
    assert!(event.is_none());
    assert_eq!(
        engine.game_state.update_frequence_tenths,
        MAX_UPDATE_FREQUENCE_TENTHS
    );
    assert!(engine.game_state.is_max_update_frequence);
}

#[test]
fn decrement_stops_exactly_at_min_frequency() {
    let mut engine = paused_engine_with_empty_grid();
    // 1.0 falls in 0.2 steps: 0.8, 0.6, 0.4, 0.2 — four applied steps
    let expected = [8u32, 6, 4, 2];
    for expected_tenths in expected {
        let event = engine.on_tick(PollResult::Received(InputEvent::DecrementUpdateFrequence));
        assert!(matches!(event, Some(GameEvent::StateUpdated(_))));
        assert_eq!(engine.game_state.update_frequence_tenths, expected_tenths);
    }
    assert!(engine.game_state.is_min_update_frequence);
    assert!(!engine.game_state.is_max_update_frequence);
    let event = engine.on_tick(PollResult::Received(InputEvent::DecrementUpdateFrequence));
    assert!(event.is_none());
    assert_eq!(
        engine.game_state.update_frequence_tenths,
        MIN_UPDATE_FREQUENCE_TENTHS
    );
    assert!(engine.game_state.is_min_update_frequence);
}

#[test]
fn frequency_steps_are_fine_below_one() {
    let mut engine = paused_engine_with_empty_grid();
    engine.on_tick(PollResult::Received(InputEvent::DecrementUpdateFrequence));
    assert_eq!(engine.game_state.update_frequence_tenths, 8);
    // below 1.0 the increment uses the fine 0.2 step again
    engine.on_tick(PollResult::Received(InputEvent::IncrementUpdateFrequence));
    assert_eq!(engine.game_state.update_frequence_tenths, 10);
}

#[test]
fn generation_steps_follow_tick_cadence() {
    let mut engine = paused_engine_with_empty_grid();
    for (x, y) in [(10usize, 10usize), (11, 10), (12, 10)] {
        let event = engine.on_tick(PollResult::Received(InputEvent::GridClicked(Coordinates {
            x,
            y,
        })));
        assert!(matches!(event, Some(GameEvent::StateUpdated(_))));
    }
    // the unpausing tick already counts as the first tick of the cadence
    engine.on_tick(PollResult::Received(InputEvent::TogglePause));
    assert_eq!(engine.tick_counter, 1);
    // tick rate 20, frequency 1.0: a step is due on every 20th running
    // tick, so the 19th empty tick after the unpausing one steps
    for _ in 0..18 {
        let event = engine.on_tick(PollResult::Empty);
        assert!(event.is_none());
        assert_eq!(engine.game_state.generation, 0);
    }
    let event = engine.on_tick(PollResult::Empty);
    assert_eq!(engine.game_state.generation, 1);
    match event {
        Some(GameEvent::StateUpdated(snapshot)) => {
            assert_eq!(snapshot.generation, 1);
            assert!(!snapshot.paused);
        }
        _ => panic!("a generation step must emit a snapshot"),
    }
    assert_eq!(engine.tick_counter, 0);
    // the next step comes exactly one threshold's worth of ticks later
    for _ in 0..19 {
        let event = engine.on_tick(PollResult::Empty);
        assert!(event.is_none());
        assert_eq!(engine.game_state.generation, 1);
    }
    let event = engine.on_tick(PollResult::Empty);
    assert_eq!(engine.game_state.generation, 2);
    assert!(matches!(event, Some(GameEvent::StateUpdated(_))));
}

#[test]
fn stasis_forces_auto_pause() {
    let mut engine = paused_engine_with_empty_grid();
    for (x, y) in [(5usize, 5usize), (6, 5), (5, 6), (6, 6)] {
        engine.on_tick(PollResult::Received(InputEvent::GridClicked(Coordinates { x, y })));
    }
    engine.on_tick(PollResult::Received(InputEvent::TogglePause));
    assert!(!engine.game_state.paused);
    // drive empty ticks until the generation step happens
    let mut steps: usize = 0;
    while engine.game_state.generation == 0 {
        let event = engine.on_tick(PollResult::Empty);
        steps += 1;
        assert!(steps < 100, "a generation step never became due");
        if let Some(GameEvent::StateUpdated(snapshot)) = event {
            // the stable block changed no cell, so the step paused the game,
            // and that pause is the visible change the snapshot reports
            assert_eq!(snapshot.generation, 1);
            assert!(snapshot.paused);
        }
    }
    assert!(engine.game_state.paused);
    assert_eq!(engine.game_state.generation, 1);
    assert_eq!(count_live(&engine.game_state.grid), 4);
}

#[test]
fn command_burst_applies_one_toggle_per_tick() {
    let mut engine = paused_engine_with_empty_grid();
    // five toggles of the same cell arrive within one tick window; the
    // channel holds them and the loop applies exactly one per tick
    let mut queued: Vec<InputEvent> = (0..5)
        .map(|_| InputEvent::GridClicked(Coordinates { x: 3, y: 3 }))
        .collect();
    let mut expected_alive = false;
    while !queued.is_empty() {
        let command = queued.remove(0);
        let event = engine.on_tick(PollResult::Received(command));
        expected_alive = !expected_alive;
        assert_eq!(engine.game_state.grid.is_alive(3, 3), expected_alive);
        assert!(matches!(event, Some(GameEvent::StateUpdated(_))));
    }
    assert!(engine.game_state.grid.is_alive(3, 3));
    assert_eq!(engine.game_state.generation, 0);
}

#[test]
fn out_of_bounds_click_changes_nothing() {
    let mut engine = paused_engine_with_empty_grid();
    let event = engine.on_tick(PollResult::Received(InputEvent::GridClicked(Coordinates {
        x: WIDTH,
        y: 0,
    })));
    assert!(event.is_none());
    assert_eq!(count_live(&engine.game_state.grid), 0);
}

#[test]
fn reset_command_replaces_grid_but_keeps_generation() {
    let mut engine = paused_engine_with_empty_grid();
    let event = engine.on_tick(PollResult::Received(InputEvent::Reset(Pattern::Random(9))));
    assert!(matches!(event, Some(GameEvent::StateUpdated(_))));
    assert_eq!(count_live(&engine.game_state.grid), 9);
    assert_eq!(engine.game_state.generation, 0);
}

#[test]
fn quit_command_emits_terminal_signal() {
    let mut engine = paused_engine_with_empty_grid();
    let event = engine.on_tick(PollResult::Received(InputEvent::Quit));
    assert!(matches!(event, Some(GameEvent::Quit)));
    assert_eq!(engine.game_state.generation, 0);
    assert!(engine.game_state.paused);
}

#[test]
fn closed_channel_acts_as_quit() {
    let mut engine = paused_engine_with_empty_grid();
    let event = engine.on_tick(PollResult::Disconnected);
    assert!(matches!(event, Some(GameEvent::Quit)));
}

#[test]
fn snapshot_is_independent_of_live_state() {
    let grid = Grid::new(Pattern::Random(0));
    let mut state = GameState::new(grid);
    state.grid.toggle_cell(1, 1);
    let snapshot = state.snapshot();
    state.grid.toggle_cell(1, 1);
    assert!(snapshot.grid.is_alive(1, 1));
    assert!(!state.grid.is_alive(1, 1));
    assert_eq!(snapshot.generation, state.generation);
    assert_eq!(snapshot.paused, state.paused);
}

#[test]
fn engine_new_accepts_existing_state() {
    let state = GameState::new(Grid::new(Pattern::Random(3)));
    let engine = Engine::new(state, 40).unwrap();
    assert_eq!(engine.tick_rate, 40);
    assert_eq!(engine.tick_counter, 0);
    assert_eq!(count_live(&engine.game_state.grid), 3);
}

#[test]
fn snapshots_report_nondecreasing_generations() {
    let mut engine = new_game(Pattern::Random(40), 20).unwrap();
    engine.on_tick(PollResult::Received(InputEvent::TogglePause));
    let mut last_generation: u64 = 0;
    for _ in 0..200 {
        if let Some(GameEvent::StateUpdated(snapshot)) = engine.on_tick(PollResult::Empty) {
            assert!(snapshot.generation >= last_generation);
            last_generation = snapshot.generation;
        }
    }
    assert!(last_generation >= 1);
}
