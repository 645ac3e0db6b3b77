//! The texts the indicators show: decimal numbers, counters such as
//! "1/25", and the label of the mute button.

use vstd::prelude::*;
use vstd::string::StringExecFns;

use crate::game::GameOptions;
use crate::game::GameState;
use crate::game::LevelState;
use crate::game::NUM_OBJECTIVES;

verus! {

/// The digit character for a value below ten.
pub open spec fn spec_digit_char(d: int) -> char {
    if d == 0 { '0' }
    else if d == 1 { '1' }
    else if d == 2 { '2' }
    else if d == 3 { '3' }
    else if d == 4 { '4' }
    else if d == 5 { '5' }
    else if d == 6 { '6' }
    else if d == 7 { '7' }
    else if d == 8 { '8' }
    else { '9' }
}

/// The decimal digits of a number, most significant first, with no sign and
/// no leading zero (a single zero for zero itself).
pub open spec fn spec_decimal(n: nat) -> Seq<char>
    decreases n,
{
    if n < 10 {
        seq![spec_digit_char(n as int)]
    } else {
        spec_decimal(n / 10) + seq![spec_digit_char((n % 10) as int)]
    }
}

/// The one-character string of a single decimal digit.
fn digit_str(d: u64) -> (s: &'static str)
    requires
        d < 10,
    ensures
        s@ == seq![spec_digit_char(d as int)],
{
    let s: &'static str = match d {
        0 => "0",
        1 => "1",
        2 => "2",
        3 => "3",
        4 => "4",
        5 => "5",
        6 => "6",
        7 => "7",
        8 => "8",
        _ => "9",
    };
    proof {
        reveal_strlit("0");
        reveal_strlit("1");
        reveal_strlit("2");
        reveal_strlit("3");
        reveal_strlit("4");
        reveal_strlit("5");
        reveal_strlit("6");
        reveal_strlit("7");
        reveal_strlit("8");
        reveal_strlit("9");
        assert(s@ =~= seq![spec_digit_char(d as int)]);
    }
    s
}

/// Writes a number in decimal.
pub fn decimal_string(n: u64) -> (s: String)
    ensures
        s@ == spec_decimal(n as nat),
    decreases n,
{
    if n < 10 {
        digit_str(n).to_owned()
    } else {
        let mut s = decimal_string(n / 10);
        s.append(digit_str(n % 10));
        proof {
            assert(s@ =~= spec_decimal(n as nat));
        }
        s
    }
}

/// The text of the level indicator: the level's place over the level count,
/// such as "1/25", or a dash while no level is under way.
pub fn level_indicator_text(level: Option<&LevelState>) -> (text: String)
    requires
        level matches Some(l) ==> l.level_index < u32::MAX,
    ensures
        level is None ==> text@ == "-"@,
        level matches Some(l) ==> text@ == spec_decimal((l.level_index + 1) as nat) + "/"@
            + spec_decimal(NUM_OBJECTIVES as nat),
{
    match level {
        None => "-".to_owned(),
        Some(l) => {
            let mut s = decimal_string((l.level_index + 1) as u64);
            s.append("/");
            s.append(decimal_string(NUM_OBJECTIVES as u64).as_str());
            s
        },
    }
}

/// The text of the lives indicator: the remaining lives over the five
/// displayed slots, such as "1/5".
pub fn lives_indicator_text(game: &GameState) -> (text: String)
    ensures
        text@ == spec_decimal(game.lives_remaining as nat) + "/"@ + spec_decimal(5),
{
    let mut s = decimal_string(game.lives_remaining as u64);
    s.append("/");
    s.append(decimal_string(5).as_str());
    s
}

/// The text of the complexity indicator: how many base colors the level's
/// objective is made of.
pub fn complexity_text(level: &LevelState) -> (text: String)
    ensures
        text@ == spec_decimal(level.objective_colors@.len()),
{
    decimal_string(level.objective_colors.len() as u64)
}

/// The text of the selection indicator: how many base colors the player has
/// picked so far.
pub fn selection_text(level: &LevelState) -> (text: String)
    ensures
        text@ == spec_decimal(level.selected_colors@.len()),
{
    decimal_string(level.selected_colors.len() as u64)
}

/// One indicator line as it is drawn: the label, a colon and a space, then
/// the value.
pub fn indicator_line(label: &str, value: &str) -> (text: String)
    ensures
        text@ == label@ + ": "@ + value@,
{
    let mut s = label.to_owned();
    s.append(": ");
    s.append(value);
    s
}

/// The label of the mute button: it offers the action that a click would
/// take.
pub fn mute_button_text(options: &GameOptions) -> (text: &'static str)
    ensures
        options.mute ==> text@ == "Unmute sound"@,
        !options.mute ==> text@ == "Mute sound"@,
{
    if options.mute {
        "Unmute sound"
    } else {
        "Mute sound"
    }
}

} // verus!
