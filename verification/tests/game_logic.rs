use guess_hue::color::PaletteColor;
use guess_hue::color::Rgb;
use guess_hue::color::palette;
use guess_hue::game::GameOptions;
use guess_hue::game::GameState;
use guess_hue::game::LevelEvent;
use guess_hue::game::LevelState;
use guess_hue::game::NUM_OBJECTIVES;
use guess_hue::game::check_level_finished;
use guess_hue::game::prepare_level;

fn rgb(r: u8, g: u8, b: u8) -> Rgb {
    Rgb { r, g, b }
}

#[test]
fn palette_has_the_five_base_colors() {
    let colors = palette();
    assert_eq!(
        colors,
        vec![
            PaletteColor::White,
            PaletteColor::Red,
            PaletteColor::Yellow,
            PaletteColor::Blue,
            PaletteColor::Black,
        ]
    );
}

#[test]
fn palette_colors_display_as_pure_rgb() {
    assert_eq!(PaletteColor::White.rgb(), rgb(255, 255, 255));
    assert_eq!(PaletteColor::Red.rgb(), rgb(255, 0, 0));
    assert_eq!(PaletteColor::Yellow.rgb(), rgb(255, 255, 0));
    assert_eq!(PaletteColor::Blue.rgb(), rgb(0, 0, 255));
    assert_eq!(PaletteColor::Black.rgb(), rgb(0, 0, 0));
}

#[test]
fn fresh_game_has_one_life() {
    let game = GameState::new();
    assert_eq!(game.lives_remaining, 1);
    assert!(!game.is_lost());
}

#[test]
fn game_is_lost_without_lives() {
    let game = GameState { lives_remaining: 0 };
    assert!(game.is_lost());
}

#[test]
fn toggle_mute_flips_the_option() {
    let mut options = GameOptions { mute: false };
    options.toggle_mute();
    assert!(options.mute);
    options.toggle_mute();
    assert!(!options.mute);
}

#[test]
fn first_objective_is_blue_and_yellow() {
    let objective = LevelState::prepare_objective(0).unwrap();
    assert_eq!(objective, vec![PaletteColor::Blue, PaletteColor::Yellow]);
}

#[test]
fn last_objective_is_the_dark_mix() {
    let objective = LevelState::prepare_objective(NUM_OBJECTIVES - 1).unwrap();
    assert_eq!(
        objective,
        vec![
            PaletteColor::Red,
            PaletteColor::Red,
            PaletteColor::Blue,
            PaletteColor::Black,
            PaletteColor::Black,
            PaletteColor::Black,
        ]
    );
}

#[test]
fn no_objective_past_the_last_level() {
    assert!(LevelState::prepare_objective(NUM_OBJECTIVES).is_none());
    assert!(LevelState::prepare_objective(u32::MAX).is_none());
}

#[test]
fn objectives_grow_in_groups_of_five() {
    for index in 0..NUM_OBJECTIVES {
        let objective = LevelState::prepare_objective(index).unwrap();
        assert_eq!(objective.len() as u32, index / 5 + 2);
    }
}

#[test]
fn new_level_starts_with_nothing_selected() {
    let level = LevelState::new(3, vec![PaletteColor::Red]);
    assert_eq!(level.level_index, 3);
    assert!(level.selected_colors.is_empty());
    assert_eq!(level.objective_colors, vec![PaletteColor::Red]);
}

#[test]
fn select_color_appends_and_reset_clears() {
    let mut level = LevelState::new(0, vec![PaletteColor::Blue, PaletteColor::Yellow]);
    level.select_color(PaletteColor::Blue);
    level.select_color(PaletteColor::White);
    assert_eq!(
        level.selected_colors,
        vec![PaletteColor::Blue, PaletteColor::White]
    );
    level.reset();
    assert!(level.selected_colors.is_empty());
    assert_eq!(level.level_index, 0);
    assert_eq!(
        level.objective_colors,
        vec![PaletteColor::Blue, PaletteColor::Yellow]
    );
}

#[test]
fn only_the_final_level_is_last() {
    let early = LevelState::new(0, Vec::new());
    assert!(!early.is_last_level());
    let last = LevelState::new(NUM_OBJECTIVES - 1, Vec::new());
    assert!(last.is_last_level());
}

#[test]
fn color_is_found_only_on_an_exact_match() {
    let level = LevelState::new(0, Vec::new());
    assert!(level.is_color_found(rgb(10, 20, 30), rgb(10, 20, 30)));
    assert!(!level.is_color_found(rgb(10, 20, 30), rgb(10, 20, 31)));
    assert!(!level.is_color_found(rgb(255, 0, 0), rgb(0, 0, 255)));
}

#[test]
fn incomplete_wrong_guess_changes_nothing() {
    let mut game = GameState::new();
    let mut level = LevelState::new(0, vec![PaletteColor::Blue, PaletteColor::Yellow]);
    level.select_color(PaletteColor::Blue);
    let event = check_level_finished(&mut game, &level, rgb(0, 0, 255), rgb(30, 160, 90));
    assert_eq!(event, None);
    assert_eq!(game.lives_remaining, 1);
}

#[test]
fn solving_a_level_refills_one_life() {
    let mut game = GameState::new();
    let level = LevelState::new(0, vec![PaletteColor::Blue, PaletteColor::Yellow]);
    let mix = rgb(30, 160, 90);
    let event = check_level_finished(&mut game, &level, mix, mix);
    assert_eq!(event, Some(LevelEvent::LevelSucceeded));
    assert_eq!(game.lives_remaining, 2);
}

#[test]
fn lives_never_rise_above_three() {
    let mut game = GameState { lives_remaining: 3 };
    let level = LevelState::new(5, Vec::new());
    let mix = rgb(1, 2, 3);
    let event = check_level_finished(&mut game, &level, mix, mix);
    assert_eq!(event, Some(LevelEvent::LevelSucceeded));
    assert_eq!(game.lives_remaining, 3);
}

#[test]
fn solving_the_last_level_wins_the_game() {
    let mut game = GameState { lives_remaining: 2 };
    let level = LevelState::new(NUM_OBJECTIVES - 1, Vec::new());
    let mix = rgb(40, 30, 35);
    let event = check_level_finished(&mut game, &level, mix, mix);
    assert_eq!(event, Some(LevelEvent::GameWon));
    assert_eq!(game.lives_remaining, 2);
}

#[test]
fn wrong_completed_guess_costs_a_life() {
    let mut game = GameState { lives_remaining: 2 };
    let mut level = LevelState::new(0, vec![PaletteColor::Blue, PaletteColor::Yellow]);
    level.select_color(PaletteColor::Red);
    level.select_color(PaletteColor::Red);
    let event = check_level_finished(&mut game, &level, rgb(200, 30, 30), rgb(30, 160, 90));
    assert_eq!(event, Some(LevelEvent::LevelFailed));
    assert_eq!(game.lives_remaining, 1);
}

#[test]
fn wrong_completed_guess_on_the_last_life_loses_the_game() {
    let mut game = GameState::new();
    let mut level = LevelState::new(0, vec![PaletteColor::Blue, PaletteColor::Yellow]);
    level.select_color(PaletteColor::Red);
    level.select_color(PaletteColor::Red);
    let event = check_level_finished(&mut game, &level, rgb(200, 30, 30), rgb(30, 160, 90));
    assert_eq!(event, Some(LevelEvent::GameLost));
    assert_eq!(game.lives_remaining, 0);
    assert!(game.is_lost());
}

#[test]
fn prepare_level_starts_at_the_first_level() {
    let next = prepare_level(None).unwrap();
    assert_eq!(next.level_index, 0);
    assert!(next.selected_colors.is_empty());
    assert_eq!(
        next.objective_colors,
        vec![PaletteColor::Blue, PaletteColor::Yellow]
    );
}

#[test]
fn prepare_level_moves_to_the_next_index() {
    let current = LevelState::new(3, Vec::new());
    let next = prepare_level(Some(&current)).unwrap();
    assert_eq!(next.level_index, 4);
    assert_eq!(
        next.objective_colors,
        vec![PaletteColor::Red, PaletteColor::White]
    );
}

#[test]
fn prepare_level_stops_after_the_last_level() {
    let current = LevelState::new(NUM_OBJECTIVES - 1, Vec::new());
    assert!(prepare_level(Some(&current)).is_none());
}
