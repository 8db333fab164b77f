//! The scene state machine: which scene follows which, on what event.

use vstd::prelude::*;
use crate::ui::UI;

verus! {

/// The scenes of the game.
#[derive(Clone, Copy, Debug, PartialEq, Eq, Hash, Structural)]
pub enum GameState {
    /// The first scene of the single-screen flow: assets load behind a
    /// loading screen.
    Loading,
    /// The game is paused.
    Pause,
    /// The short intro before play in the single-screen flow.
    Prepare,
    /// Play.
    InGame,
    /// The countdown from pause back to play.
    Resume,
    /// The ending of play in the single-screen flow.
    WrapUp,
    /// Start-up: locale, volume and fonts load.
    Setup,
    /// Start-up finished.
    Initialize,
    /// The title assets load.
    LoadTitle,
    /// The title assets are in place.
    InitTitle,
    /// The title menu.
    Title,
    /// Leaving the title menu for play.
    Title2InGame,
    /// The option menu.
    Option,
    /// The play assets load.
    LoadInGame,
    /// The play assets are in place.
    InitInGame,
    /// The intro before play.
    PrepareInGame,
    /// Play starts.
    StartInGame,
    /// Play winds down.
    WrapUpInGame,
    /// Play has finished.
    FinishedInGame,
    /// The play scene is removed.
    CleanUpInGame,
    /// The result scene loads.
    InitResult,
    /// The result scene opens.
    StartResult,
    /// The result panel appears.
    Start2End,
    /// The result panel.
    EndResult,
    /// The player asked to play again.
    RestartResult,
    /// The player asked to leave the result screen.
    ExitResult,
}

impl Default for GameState {
    fn default() -> (s: GameState)
        ensures
            s == GameState::Loading,
    {
        GameState::Loading
    }
}

/// What happened in the current scene.
#[derive(Clone, Copy, Debug, PartialEq, Eq, Structural)]
pub enum SceneEvent {
    /// Every asset or entity the scene waits for is ready.
    LoadingComplete,
    /// The scene's timer reached the scene's duration.
    SceneTimeUp,
    /// The scene has just been entered.
    Entered,
    /// The escape key was pressed; `in_game` tells whether a game is under
    /// way behind the menu.
    EscapePressed { in_game: bool },
    /// A button was pressed; `in_game` tells whether a game is under way
    /// behind the menu.
    ButtonPressed { button: UI, in_game: bool },
}

/// The scene that follows `current` on `event`, if any.
pub open spec fn spec_next_state(current: GameState, event: SceneEvent) -> Option<GameState> {
    match (current, event) {
        (GameState::Setup, SceneEvent::LoadingComplete) => Some(GameState::Initialize),
        (GameState::LoadTitle, SceneEvent::LoadingComplete) => Some(GameState::InitTitle),
        (GameState::LoadInGame, SceneEvent::LoadingComplete) => Some(GameState::InitInGame),
        (GameState::InitResult, SceneEvent::LoadingComplete) => Some(GameState::PrepareInGame),
        (GameState::Loading, SceneEvent::LoadingComplete) => Some(GameState::Prepare),
        (GameState::Prepare, SceneEvent::SceneTimeUp) => Some(GameState::InGame),
        (GameState::Resume, SceneEvent::SceneTimeUp) => Some(GameState::InGame),
        (GameState::PrepareInGame, SceneEvent::SceneTimeUp) => Some(GameState::StartInGame),
        (GameState::WrapUpInGame, SceneEvent::SceneTimeUp) => Some(GameState::FinishedInGame),
        (GameState::FinishedInGame, SceneEvent::SceneTimeUp) => Some(GameState::CleanUpInGame),
        (GameState::StartResult, SceneEvent::SceneTimeUp) => Some(GameState::Start2End),
        (GameState::StartInGame, SceneEvent::Entered) => Some(GameState::InGame),
        (GameState::CleanUpInGame, SceneEvent::Entered) => Some(GameState::StartResult),
        (GameState::Start2End, SceneEvent::Entered) => Some(GameState::EndResult),
        (GameState::Pause, SceneEvent::EscapePressed { .. }) => Some(GameState::Resume),
        (GameState::Option, SceneEvent::EscapePressed { in_game }) => Some(
            if in_game {
                GameState::Pause
            } else {
                GameState::Title
            },
        ),
        (GameState::Pause, SceneEvent::ButtonPressed { button: UI::ResumeButton, .. }) => Some(
            GameState::Resume,
        ),
        (GameState::Title, SceneEvent::ButtonPressed { button: UI::StartButton, .. }) => Some(
            GameState::Title2InGame,
        ),
        (GameState::Title, SceneEvent::ButtonPressed { button: UI::OptionButton, .. }) => Some(
            GameState::Option,
        ),
        (GameState::Option, SceneEvent::ButtonPressed { button: UI::BackButton, in_game }) => Some(
            if in_game {
                GameState::Pause
            } else {
                GameState::Title
            },
        ),
        (GameState::EndResult, SceneEvent::ButtonPressed { button: UI::RestartButton, .. }) => Some(
            GameState::RestartResult,
        ),
        (GameState::EndResult, SceneEvent::ButtonPressed { button: UI::ResultExitButton, .. }) => Some(
            GameState::ExitResult,
        ),
        _ => None,
    }
}

/// The events on which the game stops instead of changing scene: the end of
/// the single-screen wrap-up and the exit button of the pause menu.
pub open spec fn ends_game(current: GameState, event: SceneEvent) -> bool {
    ||| current == GameState::WrapUp && event == SceneEvent::SceneTimeUp
    ||| current == GameState::Pause && event matches SceneEvent::ButtonPressed {
        button: UI::ExitButton,
        ..
    }
}

/// The scene that follows `current` on `event`, or `None` when the scene
/// stays.
pub fn next_state(current: GameState, event: SceneEvent) -> (next: Option<GameState>)
    requires
        !ends_game(current, event),
    ensures
        next == spec_next_state(current, event),
{
    match (current, event) {
        (GameState::Setup, SceneEvent::LoadingComplete) => Some(GameState::Initialize),
        (GameState::LoadTitle, SceneEvent::LoadingComplete) => Some(GameState::InitTitle),
        (GameState::LoadInGame, SceneEvent::LoadingComplete) => Some(GameState::InitInGame),
        (GameState::InitResult, SceneEvent::LoadingComplete) => Some(GameState::PrepareInGame),
        (GameState::Loading, SceneEvent::LoadingComplete) => Some(GameState::Prepare),
        (GameState::Prepare, SceneEvent::SceneTimeUp) => Some(GameState::InGame),
        (GameState::Resume, SceneEvent::SceneTimeUp) => Some(GameState::InGame),
        (GameState::PrepareInGame, SceneEvent::SceneTimeUp) => Some(GameState::StartInGame),
        (GameState::WrapUpInGame, SceneEvent::SceneTimeUp) => Some(GameState::FinishedInGame),
        (GameState::FinishedInGame, SceneEvent::SceneTimeUp) => Some(GameState::CleanUpInGame),
        (GameState::StartResult, SceneEvent::SceneTimeUp) => Some(GameState::Start2End),
        (GameState::StartInGame, SceneEvent::Entered) => Some(GameState::InGame),
        (GameState::CleanUpInGame, SceneEvent::Entered) => Some(GameState::StartResult),
        (GameState::Start2End, SceneEvent::Entered) => Some(GameState::EndResult),
        (GameState::Pause, SceneEvent::EscapePressed { .. }) => Some(GameState::Resume),
        (GameState::Option, SceneEvent::EscapePressed { in_game }) => Some(
            if in_game {
                GameState::Pause
            } else {
                GameState::Title
            },
        ),
        (GameState::Pause, SceneEvent::ButtonPressed { button: UI::ResumeButton, .. }) => Some(
            GameState::Resume,
        ),
        (GameState::Title, SceneEvent::ButtonPressed { button: UI::StartButton, .. }) => Some(
            GameState::Title2InGame,
        ),
        (GameState::Title, SceneEvent::ButtonPressed { button: UI::OptionButton, .. }) => Some(
            GameState::Option,
        ),
        (GameState::Option, SceneEvent::ButtonPressed { button: UI::BackButton, in_game }) => Some(
            if in_game {
                GameState::Pause
            } else {
                GameState::Title
            },
        ),
        (GameState::EndResult, SceneEvent::ButtonPressed { button: UI::RestartButton, .. }) => Some(
            GameState::RestartResult,
        ),
        (GameState::EndResult, SceneEvent::ButtonPressed { button: UI::ResultExitButton, .. }) => Some(
            GameState::ExitResult,
        ),
        _ => None,
    }
}

/// The scene reached from `current` by following `events` in order; a
/// scene stays where an event changes nothing.
pub open spec fn run(current: GameState, events: Seq<SceneEvent>) -> GameState
    decreases events.len(),
{
    if events.len() == 0 {
        current
    } else {
        let next = match spec_next_state(current, events[0]) {
            Some(s) => s,
            None => current,
        };
        run(next, events.drop_first())
    }
}

/// A pause always leads back to play: escape (or the resume button) starts
/// the countdown, and the countdown's end returns to play.
pub proof fn lemma_pause_returns_to_play(in_game: bool)
    ensures
        run(
            GameState::Pause,
            seq![SceneEvent::EscapePressed { in_game }, SceneEvent::SceneTimeUp],
        ) == GameState::InGame,
        run(
            GameState::Pause,
            seq![SceneEvent::ButtonPressed { button: UI::ResumeButton, in_game }, SceneEvent::SceneTimeUp],
        ) == GameState::InGame,
{
    reveal_with_fuel(run, 3);
}

/// Once play winds down, the timers and scene entries lead on their own to
/// the result panel.
pub proof fn lemma_wrap_up_reaches_results()
    ensures
        run(
            GameState::WrapUpInGame,
            seq![
                SceneEvent::SceneTimeUp,
                SceneEvent::SceneTimeUp,
                SceneEvent::Entered,
                SceneEvent::SceneTimeUp,
                SceneEvent::Entered,
            ],
        ) == GameState::EndResult,
{
    reveal_with_fuel(run, 6);
}

/// Leaving the option menu by escape or by the back button goes to the same
/// place: the pause menu when a game is under way, the title otherwise.
pub proof fn lemma_option_exits_agree(in_game: bool)
    ensures
        spec_next_state(GameState::Option, SceneEvent::EscapePressed { in_game })
            == spec_next_state(
            GameState::Option,
            SceneEvent::ButtonPressed { button: UI::BackButton, in_game },
        ),
        spec_next_state(GameState::Option, SceneEvent::EscapePressed { in_game }) == Some(
            if in_game {
                GameState::Pause
            } else {
                GameState::Title
            },
        ),
{
}

/// Every loading scene moves on once its loading completes, and never
/// before: no other event leaves it.
pub proof fn lemma_loading_scenes_wait(current: GameState, event: SceneEvent)
    requires
        current == GameState::Setup || current == GameState::LoadTitle || current
            == GameState::LoadInGame || current == GameState::InitResult || current
            == GameState::Loading,
    ensures
        spec_next_state(current, event) is Some <==> event == SceneEvent::LoadingComplete,
{
}

/// Play is entered only at the end of an intro or a countdown: when the
/// single-screen intro or the resume countdown runs out, or on entering the
/// start-of-play scene. In particular the intro of the multi-scene flow
/// never goes straight to play.
pub proof fn lemma_play_entered_only_from_intros(current: GameState, event: SceneEvent)
    ensures
        spec_next_state(current, event) == Some(GameState::InGame) <==> ({
            ||| current == GameState::Prepare && event == SceneEvent::SceneTimeUp
            ||| current == GameState::Resume && event == SceneEvent::SceneTimeUp
            ||| current == GameState::StartInGame && event == SceneEvent::Entered
        }),
{
}

/// The start-of-play scene follows the intro, and nothing else leads to it:
/// it is entered exactly when the intro's time is up.
pub proof fn lemma_start_follows_intro(current: GameState, event: SceneEvent)
    ensures
        spec_next_state(current, event) == Some(GameState::StartInGame) <==> (current
            == GameState::PrepareInGame && event == SceneEvent::SceneTimeUp),
        spec_next_state(GameState::PrepareInGame, event) is Some ==> spec_next_state(
            GameState::PrepareInGame,
            event,
        ) == Some(GameState::StartInGame),
{
}

/// Whatever happens during the intro, it can only be left for the
/// start-of-play scene: a run of events that leaves the intro passes through
/// the start scene, and the intro's time running out then entering that scene
/// leads to play.
pub proof fn lemma_intro_passes_through_start(events: Seq<SceneEvent>)
    ensures
        run(GameState::PrepareInGame, events) != GameState::PrepareInGame ==> exists|k: int|
            0 < k <= events.len() && #[trigger] run(GameState::PrepareInGame, events.take(k))
                == GameState::StartInGame,
        run(GameState::PrepareInGame, seq![SceneEvent::SceneTimeUp]) == GameState::StartInGame,
        run(GameState::PrepareInGame, seq![SceneEvent::SceneTimeUp, SceneEvent::Entered])
            == GameState::InGame,
    decreases events.len(),
{
    reveal_with_fuel(run, 3);
    if events.len() > 0 && run(GameState::PrepareInGame, events) != GameState::PrepareInGame {
        let first = seq![events[0]];
        assert(events.take(1) =~= first);
        assert(run(GameState::PrepareInGame, first.drop_first()) == GameState::PrepareInGame) by {
            assert(first.drop_first() =~= Seq::<SceneEvent>::empty());
        }
        if spec_next_state(GameState::PrepareInGame, events[0]) is Some {
            assert(run(GameState::PrepareInGame, events.take(1)) == GameState::StartInGame);
        } else {
            let rest = events.drop_first();
            lemma_intro_passes_through_start(rest);
            let k = choose|k: int|
                0 < k <= rest.len() && #[trigger] run(GameState::PrepareInGame, rest.take(k))
                    == GameState::StartInGame;
            assert(events.take(k + 1).drop_first() =~= rest.take(k));
            assert(events.take(k + 1)[0] == events[0]);
            assert(run(GameState::PrepareInGame, events.take(k + 1)) == GameState::StartInGame);
        }
    }
}

} // verus!
