//! Lives, levels and the outcome of a completed guess.

use vstd::prelude::*;

use crate::color::PaletteColor;
use crate::color::PaletteColor::{Black, Blue, Red, White, Yellow};
use crate::color::Rgb;

verus! {

/// How many levels the game has.
pub const NUM_OBJECTIVES: u32 = 25;

/// The target composition of each level, by level index. Levels come in
/// groups of five of growing complexity: two base colors for the first five
/// levels, up to six for the last five.
pub open spec fn objective_seq(i: int) -> Seq<PaletteColor> {
    if i == 0 { seq![Blue, Yellow] }
    else if i == 1 { seq![Black, Yellow] }
    else if i == 2 { seq![Red, Yellow] }
    else if i == 3 { seq![Blue, White] }
    else if i == 4 { seq![Red, White] }
    else if i == 5 { seq![Red, Yellow, Yellow] }
    else if i == 6 { seq![Yellow, Blue, White] }
    else if i == 7 { seq![Red, Blue, White] }
    else if i == 8 { seq![Yellow, Black, Black] }
    else if i == 9 { seq![Red, White, White] }
    else if i == 10 { seq![White, Red, Red, Yellow] }
    else if i == 11 { seq![Red, Yellow, Blue, Black] }
    else if i == 12 { seq![White, Yellow, Yellow, Blue] }
    else if i == 13 { seq![White, Red, Yellow, Yellow] }
    else if i == 14 { seq![Red, Red, Yellow, Black] }
    else if i == 15 { seq![Yellow, Black, Black, Black, Black] }
    else if i == 16 { seq![White, Red, Red, Red, Yellow] }
    else if i == 17 { seq![White, White, White, Yellow, Red] }
    else if i == 18 { seq![White, Red, Red, Red, Blue] }
    else if i == 19 { seq![White, White, White, Red, Blue] }
    else if i == 20 { seq![Red, Blue, Yellow, Yellow, Black, Black] }
    else if i == 21 { seq![White, White, White, White, Yellow, Blue] }
    else if i == 22 { seq![Yellow, Yellow, Blue, Black, Black, Black] }
    else if i == 23 { seq![Black, Black, Red, Red, Red, Yellow] }
    else if i == 24 { seq![Red, Red, Blue, Black, Black, Black] }
    else { Seq::empty() }
}

/// The levels come in five groups of five, and within a group every
/// objective is made of the same number of base colors: two in the first
/// group, then three, four, five and six.
pub proof fn lemma_objective_complexity(i: int)
    requires
        0 <= i < NUM_OBJECTIVES,
    ensures
        objective_seq(i).len() == i / 5 + 2,
{
}

/// Every color an objective asks for is a color of the palette, so every
/// level can be solved with the buttons on screen.
pub proof fn lemma_objective_colors_in_palette(i: int, j: int)
    requires
        0 <= i < NUM_OBJECTIVES,
        0 <= j < objective_seq(i).len(),
    ensures
        crate::color::spec_palette().contains(objective_seq(i)[j]),
{
    let palette = crate::color::spec_palette();
    let color = objective_seq(i)[j];
    match color {
        White => assert(palette[0] == color),
        Red => assert(palette[1] == color),
        Yellow => assert(palette[2] == color),
        Blue => assert(palette[3] == color),
        Black => assert(palette[4] == color),
    }
}

/// How many lives a fresh game starts with.
pub const INITIAL_LIVES: u32 = 1;

/// The cap on lives: a solved level refills at most up to this count.
pub const MAX_LIVES: u32 = 3;

/// Player-facing options.
pub struct GameOptions {
    pub mute: bool,
}

impl GameOptions {
    /// Flips the sound toggle.
    pub fn toggle_mute(&mut self)
        ensures
            final(self).mute == !old(self).mute,
    {
        self.mute = !self.mute;
    }
}

/// The state that outlives a single level: the lives that remain.
pub struct GameState {
    pub lives_remaining: u32,
}

impl GameState {
    /// Lives never rise above the cap.
    pub open spec fn wf(&self) -> bool {
        self.lives_remaining <= MAX_LIVES
    }

    /// The state a fresh game starts in.
    pub fn new() -> (game: GameState)
        ensures
            game.lives_remaining == INITIAL_LIVES,
            game.wf(),
    {
        GameState { lives_remaining: INITIAL_LIVES }
    }

    /// The game is lost once no life remains.
    pub fn is_lost(&self) -> (lost: bool)
        ensures
            lost == (self.lives_remaining < 1),
    {
        self.lives_remaining < 1
    }
}

/// The state of the level being played: its index, the target composition,
/// and the base colors picked so far.
pub struct LevelState {
    pub level_index: u32,
    pub selected_colors: Vec<PaletteColor>,
    pub objective_colors: Vec<PaletteColor>,
}

impl LevelState {
    /// A level that starts with nothing selected.
    pub fn new(level_index: u32, colors: Vec<PaletteColor>) -> (level: LevelState)
        ensures
            level.level_index == level_index,
            level.selected_colors@ == Seq::<PaletteColor>::empty(),
            level.objective_colors@ == colors@,
    {
        LevelState {
            level_index,
            selected_colors: Vec::new(),
            objective_colors: colors,
        }
    }

    /// Drops every color picked so far; the index and the objective stay.
    pub fn reset(&mut self)
        ensures
            final(self).level_index == old(self).level_index,
            final(self).selected_colors@ == Seq::<PaletteColor>::empty(),
            final(self).objective_colors@ == old(self).objective_colors@,
    {
        self.selected_colors.clear();
    }

    /// Records one more picked base color, at the end of the selection.
    pub fn select_color(&mut self, color: PaletteColor)
        ensures
            final(self).level_index == old(self).level_index,
            final(self).selected_colors@ == old(self).selected_colors@.push(color),
            final(self).objective_colors@ == old(self).objective_colors@,
    {
        self.selected_colors.push(color);
    }

    /// This level is the last one of the game.
    pub fn is_last_level(&self) -> (last: bool)
        ensures
            last == (self.level_index == NUM_OBJECTIVES - 1),
    {
        self.level_index == NUM_OBJECTIVES - 1
    }

    /// The target composition of the level with the given index, or `None`
    /// past the last level.
    pub fn prepare_objective(level_index: u32) -> (objective: Option<Vec<PaletteColor>>)
        ensures
            objective is Some <==> level_index < NUM_OBJECTIVES,
            objective matches Some(v) ==> v@ == objective_seq(level_index as int),
    {
        if level_index >= NUM_OBJECTIVES {
            return None;
        }
        let colors: Vec<PaletteColor> = match level_index {
            0 => vec![Blue, Yellow],
            1 => vec![Black, Yellow],
            2 => vec![Red, Yellow],
            3 => vec![Blue, White],
            4 => vec![Red, White],
            5 => vec![Red, Yellow, Yellow],
            6 => vec![Yellow, Blue, White],
            7 => vec![Red, Blue, White],
            8 => vec![Yellow, Black, Black],
            9 => vec![Red, White, White],
            10 => vec![White, Red, Red, Yellow],
            11 => vec![Red, Yellow, Blue, Black],
            12 => vec![White, Yellow, Yellow, Blue],
            13 => vec![White, Red, Yellow, Yellow],
            14 => vec![Red, Red, Yellow, Black],
            15 => vec![Yellow, Black, Black, Black, Black],
            16 => vec![White, Red, Red, Red, Yellow],
            17 => vec![White, White, White, Yellow, Red],
            18 => vec![White, Red, Red, Red, Blue],
            19 => vec![White, White, White, Red, Blue],
            20 => vec![Red, Blue, Yellow, Yellow, Black, Black],
            21 => vec![White, White, White, White, Yellow, Blue],
            22 => vec![Yellow, Yellow, Blue, Black, Black, Black],
            23 => vec![Black, Black, Red, Red, Red, Yellow],
            _ => vec![Red, Red, Blue, Black, Black, Black],
        };
        proof {
            assert(colors@ =~= objective_seq(level_index as int));
        }
        Some(colors)
    }

    /// Whether the selection mixes to the objective. The two mixed display
    /// colors are computed outside the library (the pigment conversion works
    /// in a latent space the library does not model); at display precision
    /// the guess is right exactly when they agree channel for channel.
    pub fn is_color_found(&self, selected_mix: Rgb, objective_mix: Rgb) -> (found: bool)
        ensures
            found == (selected_mix == objective_mix),
    {
        let dr: u32 = if objective_mix.r >= selected_mix.r {
            (objective_mix.r - selected_mix.r) as u32
        } else {
            (selected_mix.r - objective_mix.r) as u32
        };
        let dg: u32 = if objective_mix.g >= selected_mix.g {
            (objective_mix.g - selected_mix.g) as u32
        } else {
            (selected_mix.g - objective_mix.g) as u32
        };
        let db: u32 = if objective_mix.b >= selected_mix.b {
            (objective_mix.b - selected_mix.b) as u32
        } else {
            (selected_mix.b - objective_mix.b) as u32
        };
        let total_diff: u32 = dr + dg + db;
        total_diff < 1
    }
}

/// What a change of the player's selection led to, if anything: the level
/// was solved (and the game with it, on the last level), or the selection
/// reached the objective's size without matching it (losing the game when it
/// took the last life), or the guess is still incomplete (`None`).
#[derive(Clone, Copy, Debug, PartialEq, Eq, Structural)]
pub enum LevelEvent {
    LevelSucceeded,
    LevelFailed,
    GameWon,
    GameLost,
}

/// The event a completed check reports, given the lives before the check,
/// whether the mixed selection matches the objective, whether the level is
/// the last, and whether the selection has reached the objective's size.
pub open spec fn spec_outcome(lives: u32, found: bool, last: bool, complete: bool) -> Option<
    LevelEvent,
> {
    if found {
        if last {
            Some(LevelEvent::GameWon)
        } else {
            Some(LevelEvent::LevelSucceeded)
        }
    } else if complete {
        if lives == 1 {
            Some(LevelEvent::GameLost)
        } else {
            Some(LevelEvent::LevelFailed)
        }
    } else {
        None
    }
}

/// The lives that remain after the check: a solved level (other than the
/// last) refills one life up to the cap, a wrong completed guess costs one,
/// and anything else leaves them alone.
pub open spec fn spec_lives_after(lives: u32, found: bool, last: bool, complete: bool) -> int {
    if found && !last {
        if lives + 1 <= MAX_LIVES {
            lives + 1
        } else {
            MAX_LIVES as int
        }
    } else if !found && complete {
        lives - 1
    } else {
        lives as int
    }
}

/// Judges the selection after it changed: decides whether the level is
/// solved, failed or still open, and settles the lives accordingly. The
/// mixed display colors of the selection and of the objective are passed in
/// by the caller. Once the game is lost no further guess is judged, so a
/// life is always there to lose.
pub fn check_level_finished(
    game: &mut GameState,
    level: &LevelState,
    selected_mix: Rgb,
    objective_mix: Rgb,
) -> (event: Option<LevelEvent>)
    requires
        old(game).wf(),
        old(game).lives_remaining >= 1,
    ensures
        final(game).wf(),
        ({
            let found = selected_mix == objective_mix;
            let last = level.level_index == NUM_OBJECTIVES - 1;
            let complete = level.selected_colors@.len() >= level.objective_colors@.len();
            &&& event == spec_outcome(old(game).lives_remaining, found, last, complete)
            &&& final(game).lives_remaining == spec_lives_after(
                old(game).lives_remaining,
                found,
                last,
                complete,
            )
        }),
{
    let found = level.is_color_found(selected_mix, objective_mix);
    if found {
        if level.is_last_level() {
            Some(LevelEvent::GameWon)
        } else {
            let refilled: u32 = game.lives_remaining + 1;
            game.lives_remaining = if refilled <= MAX_LIVES {
                refilled
            } else {
                MAX_LIVES
            };
            Some(LevelEvent::LevelSucceeded)
        }
    } else if level.selected_colors.len() >= level.objective_colors.len() {
        game.lives_remaining = game.lives_remaining - 1;
        if game.is_lost() {
            Some(LevelEvent::GameLost)
        } else {
            Some(LevelEvent::LevelFailed)
        }
    } else {
        None
    }
}

/// The index of the level that follows the given one: the first level when
/// no level is under way yet.
pub open spec fn spec_next_level_index(level: Option<&LevelState>) -> int {
    match level {
        None => 0,
        Some(l) => l.level_index + 1,
    }
}

/// Builds the level that follows the given one, with its objective and an
/// empty selection, or returns `None` when the last level is already done.
pub fn prepare_level(level: Option<&LevelState>) -> (next: Option<LevelState>)
    requires
        level matches Some(l) ==> l.level_index < u32::MAX,
    ensures
        next is Some <==> spec_next_level_index(level) < NUM_OBJECTIVES,
        next matches Some(n) ==> {
            &&& n.level_index == spec_next_level_index(level)
            &&& n.selected_colors@ == Seq::<PaletteColor>::empty()
            &&& n.objective_colors@ == objective_seq(spec_next_level_index(level))
        },
{
    let level_index: u32 = match level {
        None => 0,
        Some(l) => l.level_index + 1,
    };
    match LevelState::prepare_objective(level_index) {
        None => None,
        Some(colors) => Some(LevelState::new(level_index, colors)),
    }
}

} // verus!
