use shupogaki::state::{next_state, GameState, SceneEvent};
use shupogaki::ui::UI;

#[test]
fn loading_scenes_complete() {
    assert_eq!(next_state(GameState::Setup, SceneEvent::LoadingComplete), Some(GameState::Initialize));
    assert_eq!(next_state(GameState::LoadTitle, SceneEvent::LoadingComplete), Some(GameState::InitTitle));
    assert_eq!(next_state(GameState::LoadInGame, SceneEvent::LoadingComplete), Some(GameState::InitInGame));
    assert_eq!(next_state(GameState::InitResult, SceneEvent::LoadingComplete), Some(GameState::PrepareInGame));
    assert_eq!(next_state(GameState::Loading, SceneEvent::LoadingComplete), Some(GameState::Prepare));
    assert_eq!(next_state(GameState::Setup, SceneEvent::SceneTimeUp), None);
}

#[test]
fn pause_and_resume() {
    let s = next_state(GameState::Pause, SceneEvent::EscapePressed { in_game: true }).unwrap();
    assert_eq!(s, GameState::Resume);
    assert_eq!(next_state(s, SceneEvent::SceneTimeUp), Some(GameState::InGame));
    assert_eq!(
        next_state(GameState::Pause, SceneEvent::ButtonPressed { button: UI::ResumeButton, in_game: true }),
        Some(GameState::Resume)
    );
}

#[test]
fn wrap_up_to_results() {
    let mut s = GameState::WrapUpInGame;
    for e in [
        SceneEvent::SceneTimeUp,
        SceneEvent::SceneTimeUp,
        SceneEvent::Entered,
        SceneEvent::SceneTimeUp,
        SceneEvent::Entered,
    ] {
        s = next_state(s, e).unwrap();
    }
    assert_eq!(s, GameState::EndResult);
}

#[test]
fn menus() {
    assert_eq!(
        next_state(GameState::Title, SceneEvent::ButtonPressed { button: UI::StartButton, in_game: false }),
        Some(GameState::Title2InGame)
    );
    assert_eq!(
        next_state(GameState::Title, SceneEvent::ButtonPressed { button: UI::OptionButton, in_game: false }),
        Some(GameState::Option)
    );
    assert_eq!(
        next_state(GameState::Title, SceneEvent::ButtonPressed { button: UI::RankButton, in_game: false }),
        None
    );
    assert_eq!(next_state(GameState::Option, SceneEvent::EscapePressed { in_game: false }), Some(GameState::Title));
    assert_eq!(next_state(GameState::Option, SceneEvent::EscapePressed { in_game: true }), Some(GameState::Pause));
    assert_eq!(
        next_state(GameState::Option, SceneEvent::ButtonPressed { button: UI::BackButton, in_game: true }),
        Some(GameState::Pause)
    );
    assert_eq!(
        next_state(GameState::EndResult, SceneEvent::ButtonPressed { button: UI::RestartButton, in_game: false }),
        Some(GameState::RestartResult)
    );
    assert_eq!(
        next_state(GameState::EndResult, SceneEvent::ButtonPressed { button: UI::ResultExitButton, in_game: false }),
        Some(GameState::ExitResult)
    );
    assert_eq!(GameState::default(), GameState::Loading);
}
