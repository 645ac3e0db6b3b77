//! The alert popups: their texts, how long they stay, what follows them,
//! and the sound each one plays.

use vstd::prelude::*;

verus! {

/// The four alerts the game can show.
#[derive(Clone, Copy, Debug, PartialEq, Eq, Structural)]
pub enum AlertType {
    LevelFailed,
    LevelSucceeded,
    GameLost,
    GameWon,
}

/// What the game does once an alert has run its course.
#[derive(Clone, Copy, Debug, PartialEq, Eq, Structural)]
pub enum AlertAction {
    /// Clear the selection and let the player try the level again.
    ResetLevel,
    /// Move on to the next level.
    PrepareLevel,
}

/// The text each alert shows.
pub open spec fn spec_alert_message(alert: AlertType) -> Seq<char> {
    match alert {
        AlertType::LevelFailed => "Wrong answer!"@,
        AlertType::LevelSucceeded => "Right answer!"@,
        AlertType::GameLost => "You lost!"@,
        AlertType::GameWon => "Congratulations, you won!"@,
    }
}

/// The text shown by the given alert.
pub fn alert_message(alert: AlertType) -> (text: &'static str)
    ensures
        text@ == spec_alert_message(alert),
{
    match alert {
        AlertType::LevelFailed => "Wrong answer!",
        AlertType::LevelSucceeded => "Right answer!",
        AlertType::GameLost => "You lost!",
        AlertType::GameWon => "Congratulations, you won!",
    }
}

/// How long the given alert stays on screen, in milliseconds. The alerts
/// that end the game stay until the player leaves, so they get no duration.
pub fn alert_duration_ms(alert: AlertType) -> (duration: Option<u32>)
    ensures
        duration == match alert {
            AlertType::LevelFailed => Some(2500u32),
            AlertType::LevelSucceeded => Some(1000u32),
            AlertType::GameLost => None::<u32>,
            AlertType::GameWon => None::<u32>,
        },
{
    match alert {
        AlertType::LevelFailed => Some(2500),
        AlertType::LevelSucceeded => Some(1000),
        AlertType::GameLost => None,
        AlertType::GameWon => None,
    }
}

/// What follows once the given alert has ended: a failed level is tried
/// again with a cleared selection, a solved one gives way to the next; the
/// game-ending alerts lead nowhere.
pub fn alert_followup(alert: AlertType) -> (action: Option<AlertAction>)
    ensures
        action == match alert {
            AlertType::LevelFailed => Some(AlertAction::ResetLevel),
            AlertType::LevelSucceeded => Some(AlertAction::PrepareLevel),
            AlertType::GameLost => None::<AlertAction>,
            AlertType::GameWon => None::<AlertAction>,
        },
{
    match alert {
        AlertType::LevelFailed => Some(AlertAction::ResetLevel),
        AlertType::LevelSucceeded => Some(AlertAction::PrepareLevel),
        AlertType::GameLost => None,
        AlertType::GameWon => None,
    }
}

/// The asset each alert sounds.
pub open spec fn spec_alert_sound_path(alert: AlertType) -> Seq<char> {
    match alert {
        AlertType::LevelFailed => "audio/failure.ogg"@,
        AlertType::LevelSucceeded => "audio/succeeded.ogg"@,
        AlertType::GameLost => "audio/lost.ogg"@,
        AlertType::GameWon => "audio/won.ogg"@,
    }
}

/// The sound to play when the given alert starts: none while the game is
/// muted, else the asset for the alert.
pub fn alert_sound(mute: bool, alert: AlertType) -> (sound: Option<&'static str>)
    ensures
        mute ==> sound is None,
        !mute ==> (sound matches Some(path) && path@ == spec_alert_sound_path(alert)),
{
    if mute {
        return None;
    }
    match alert {
        AlertType::LevelFailed => Some("audio/failure.ogg"),
        AlertType::LevelSucceeded => Some("audio/succeeded.ogg"),
        AlertType::GameLost => Some("audio/lost.ogg"),
        AlertType::GameWon => Some("audio/won.ogg"),
    }
}

/// The sound to play when the player picks a color: none while the game is
/// muted.
pub fn click_sound(mute: bool) -> (sound: Option<&'static str>)
    ensures
        mute ==> sound is None,
        !mute ==> (sound matches Some(path) && path@ == "audio/click.ogg"@),
{
    if mute {
        None
    } else {
        Some("audio/click.ogg")
    }
}

} // verus!
