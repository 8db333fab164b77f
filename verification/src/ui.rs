//! The parts of the user interface and the decisions made about them.

use vstd::prelude::*;

verus! {

/// The parts of the user interface that the game shows, hides and reacts to.
#[derive(Clone, Copy, Debug, PartialEq, Eq, Hash, Structural)]
pub enum UI {
    Score,
    Fuel,
    Start,
    Finish,
    PauseButton,
    PauseTitle,
    ResumeCount1,
    ResumeCount2,
    ResumeCount3,
    ResumeButton,
    ExitButton,
    StartLabel,
    FinishLabel,
    StartButton,
    OptionButton,
    RankButton,
    OptionModal,
    SliderRail,
    BgmLabel,
    BgmVolume,
    BgmVolumeCursor,
    SfxLabel,
    SfxVolume,
    SfxVolumeCursor,
    VoiceLabel,
    VoiceVolume,
    VoiceVolumeCursor,
    BackButton,
    LanguageEn,
    LanguageJa,
    LanguageKo,
    ResultText,
    ResultImgFont,
    PlayTime,
    GameScore,
    ResultModal,
    RestartButton,
    ResultExitButton,
}


/// The groups of interface parts that are shown and hidden together.
#[derive(Clone, Copy, Debug, PartialEq, Eq, Structural)]
pub enum UiGroup {
    /// The pause menu: its title and its two buttons.
    PauseMenu,
    /// The option menu: the modal, the three volume sliders, the back button
    /// and the three language buttons.
    OptionMenu,
    /// The title menu's buttons.
    TitleMenu,
    /// The heads-up display of play: start label, pause button, score, fuel.
    InGameHud,
    /// The result panel.
    ResultPanel,
}

/// Whether interface part `ui` belongs to group `group`.
pub open spec fn spec_in_group(ui: UI, group: UiGroup) -> bool {
    match group {
        UiGroup::PauseMenu => ui == UI::PauseTitle || ui == UI::ResumeButton || ui == UI::ExitButton,
        UiGroup::OptionMenu => {
            ||| ui == UI::OptionModal
            ||| ui == UI::SliderRail
            ||| ui == UI::BgmLabel
            ||| ui == UI::BgmVolume
            ||| ui == UI::BgmVolumeCursor
            ||| ui == UI::SfxLabel
            ||| ui == UI::SfxVolume
            ||| ui == UI::SfxVolumeCursor
            ||| ui == UI::VoiceLabel
            ||| ui == UI::VoiceVolume
            ||| ui == UI::VoiceVolumeCursor
            ||| ui == UI::BackButton
            ||| ui == UI::LanguageEn
            ||| ui == UI::LanguageJa
            ||| ui == UI::LanguageKo
        },
        UiGroup::TitleMenu => ui == UI::StartButton || ui == UI::OptionButton || ui == UI::RankButton,
        UiGroup::InGameHud => ui == UI::StartLabel || ui == UI::PauseButton || ui == UI::Score || ui
            == UI::Fuel,
        UiGroup::ResultPanel => {
            ||| ui == UI::ResultText
            ||| ui == UI::ResultImgFont
            ||| ui == UI::PlayTime
            ||| ui == UI::GameScore
            ||| ui == UI::ResultModal
            ||| ui == UI::RestartButton
            ||| ui == UI::ResultExitButton
        },
    }
}

/// The members of each group, as sets: the pause menu is its title and two
/// buttons; the heads-up display is the start label, the pause button, the
/// score and the fuel gauge; the title menu is its three buttons; the result
/// panel is its text, image font, play time, score, modal and two buttons;
/// the option menu is its modal, rail, three labelled sliders with cursors,
/// back button and three language buttons.
pub proof fn lemma_group_members()
    ensures
        Set::new(|ui: UI| spec_in_group(ui, UiGroup::PauseMenu)) == set![
            UI::PauseTitle,
            UI::ResumeButton,
            UI::ExitButton,
        ],
        Set::new(|ui: UI| spec_in_group(ui, UiGroup::InGameHud)) == set![
            UI::StartLabel,
            UI::PauseButton,
            UI::Score,
            UI::Fuel,
        ],
        Set::new(|ui: UI| spec_in_group(ui, UiGroup::TitleMenu)) == set![
            UI::StartButton,
            UI::OptionButton,
            UI::RankButton,
        ],
        Set::new(|ui: UI| spec_in_group(ui, UiGroup::ResultPanel)) == set![
            UI::ResultText,
            UI::ResultImgFont,
            UI::PlayTime,
            UI::GameScore,
            UI::ResultModal,
            UI::RestartButton,
            UI::ResultExitButton,
        ],
        Set::new(|ui: UI| spec_in_group(ui, UiGroup::OptionMenu)) == set![
            UI::OptionModal,
            UI::SliderRail,
            UI::BgmLabel,
            UI::BgmVolume,
            UI::BgmVolumeCursor,
            UI::SfxLabel,
            UI::SfxVolume,
            UI::SfxVolumeCursor,
            UI::VoiceLabel,
            UI::VoiceVolume,
            UI::VoiceVolumeCursor,
            UI::BackButton,
            UI::LanguageEn,
            UI::LanguageJa,
            UI::LanguageKo,
        ],
{
    assert(Set::new(|ui: UI| spec_in_group(ui, UiGroup::PauseMenu)) =~= set![
        UI::PauseTitle,
        UI::ResumeButton,
        UI::ExitButton,
    ]);
    assert(Set::new(|ui: UI| spec_in_group(ui, UiGroup::InGameHud)) =~= set![
        UI::StartLabel,
        UI::PauseButton,
        UI::Score,
        UI::Fuel,
    ]);
    assert(Set::new(|ui: UI| spec_in_group(ui, UiGroup::TitleMenu)) =~= set![
        UI::StartButton,
        UI::OptionButton,
        UI::RankButton,
    ]);
    assert(Set::new(|ui: UI| spec_in_group(ui, UiGroup::ResultPanel)) =~= set![
        UI::ResultText,
        UI::ResultImgFont,
        UI::PlayTime,
        UI::GameScore,
        UI::ResultModal,
        UI::RestartButton,
        UI::ResultExitButton,
    ]);
    assert(Set::new(|ui: UI| spec_in_group(ui, UiGroup::OptionMenu)) =~= set![
        UI::OptionModal,
        UI::SliderRail,
        UI::BgmLabel,
        UI::BgmVolume,
        UI::BgmVolumeCursor,
        UI::SfxLabel,
        UI::SfxVolume,
        UI::SfxVolumeCursor,
        UI::VoiceLabel,
        UI::VoiceVolume,
        UI::VoiceVolumeCursor,
        UI::BackButton,
        UI::LanguageEn,
        UI::LanguageJa,
        UI::LanguageKo,
    ]);
}

/// Whether interface part `ui` is shown and hidden with group `group`.
pub fn in_group(ui: UI, group: UiGroup) -> (b: bool)
    ensures
        b == spec_in_group(ui, group),
{
    match group {
        UiGroup::PauseMenu => match ui {
            UI::PauseTitle | UI::ResumeButton | UI::ExitButton => true,
            _ => false,
        },
        UiGroup::OptionMenu => match ui {
            UI::OptionModal | UI::SliderRail | UI::BgmLabel | UI::BgmVolume | UI::BgmVolumeCursor
            | UI::SfxLabel | UI::SfxVolume | UI::SfxVolumeCursor | UI::VoiceLabel | UI::VoiceVolume
            | UI::VoiceVolumeCursor | UI::BackButton | UI::LanguageEn | UI::LanguageJa
            | UI::LanguageKo => true,
            _ => false,
        },
        UiGroup::TitleMenu => match ui {
            UI::StartButton | UI::OptionButton | UI::RankButton => true,
            _ => false,
        },
        UiGroup::InGameHud => match ui {
            UI::StartLabel | UI::PauseButton | UI::Score | UI::Fuel => true,
            _ => false,
        },
        UiGroup::ResultPanel => match ui {
            UI::ResultText | UI::ResultImgFont | UI::PlayTime | UI::GameScore | UI::ResultModal
            | UI::RestartButton | UI::ResultExitButton => true,
            _ => false,
        },
    }
}

/// No interface part belongs to two groups, so showing or hiding one screen
/// never touches another screen's parts.
pub proof fn lemma_groups_disjoint(ui: UI, a: UiGroup, b: UiGroup)
    requires
        spec_in_group(ui, a),
        spec_in_group(ui, b),
    ensures
        a == b,
{
}

/// Whether a numeral of the resume countdown is visible during the given
/// second of the countdown (seconds from two on count as the last second):
/// "3" in the first second, "2" in the second, "1" from then on. Parts other
/// than the numerals are left alone (`None`).
pub open spec fn spec_countdown_visible(ui: UI, second: nat) -> Option<bool> {
    match ui {
        UI::ResumeCount3 => Some(second == 0),
        UI::ResumeCount2 => Some(second == 1),
        UI::ResumeCount1 => Some(second >= 2),
        _ => None,
    }
}

/// Whether a numeral of the resume countdown is visible in the given second.
pub fn countdown_visible(ui: UI, second: u32) -> (v: Option<bool>)
    ensures
        v == spec_countdown_visible(ui, second as nat),
{
    match ui {
        UI::ResumeCount3 => Some(second == 0),
        UI::ResumeCount2 => Some(second == 1),
        UI::ResumeCount1 => Some(second >= 2),
        _ => None,
    }
}

/// Exactly one numeral of the countdown is visible at any time.
pub proof fn lemma_one_numeral_visible(second: nat)
    ensures
        (spec_countdown_visible(UI::ResumeCount1, second) == Some(true)) as int + (
        spec_countdown_visible(UI::ResumeCount2, second) == Some(true)) as int + (
        spec_countdown_visible(UI::ResumeCount3, second) == Some(true)) as int == 1,
{
}

/// The state of pointer interaction with a button.
#[derive(Clone, Copy, Debug, PartialEq, Eq, Structural)]
pub enum Interaction {
    Pressed,
    Hovered,
    /// Neither pressed nor hovered.
    Idle,
}

/// The languages of the interface.
#[derive(Clone, Copy, Debug, PartialEq, Eq, Hash, Structural)]
pub enum Locale {
    En,
    Ja,
    Ko,
}

impl Default for Locale {
    fn default() -> (l: Locale)
        ensures
            l == Locale::En,
    {
        Locale::En
    }
}

/// The language chosen for a browser language tag: English, Japanese or
/// Korean for `en-US`, `ja-JP` and `ko-KR`, English for anything else.
pub open spec fn spec_locale_from_language(tag: Seq<char>) -> Locale {
    if tag == "ja-JP"@ {
        Locale::Ja
    } else if tag == "ko-KR"@ {
        Locale::Ko
    } else {
        Locale::En
    }
}

/// The language chosen for a browser language tag.
pub fn locale_from_language(tag: &String) -> (l: Locale)
    ensures
        l == spec_locale_from_language(tag@),
{
    let en = String::from_str("en-US");
    let ja = String::from_str("ja-JP");
    let ko = String::from_str("ko-KR");
    if *tag == en {
        proof {
            reveal_strlit("en-US");
            reveal_strlit("ja-JP");
            reveal_strlit("ko-KR");
            assert("en-US"@ != "ja-JP"@) by {
                assert("en-US"@[0] != "ja-JP"@[0]);
            }
            assert("en-US"@ != "ko-KR"@) by {
                assert("en-US"@[0] != "ko-KR"@[0]);
            }
        }
        Locale::En
    } else if *tag == ja {
        Locale::Ja
    } else if *tag == ko {
        Locale::Ko
    } else {
        Locale::En
    }
}

/// The language a language button selects.
pub open spec fn spec_button_locale(ui: UI) -> Option<Locale> {
    match ui {
        UI::LanguageEn => Some(Locale::En),
        UI::LanguageJa => Some(Locale::Ja),
        UI::LanguageKo => Some(Locale::Ko),
        _ => None,
    }
}

/// The language a language button selects, if `ui` is a language button.
pub fn button_locale(ui: UI) -> (l: Option<Locale>)
    ensures
        l == spec_button_locale(ui),
{
    match ui {
        UI::LanguageEn => Some(Locale::En),
        UI::LanguageJa => Some(Locale::Ja),
        UI::LanguageKo => Some(Locale::Ko),
        _ => None,
    }
}

/// How a button looks.
#[derive(Clone, Copy, Debug, PartialEq, Eq, Structural)]
pub enum ButtonLook {
    Normal,
    Hovered,
    Pressed,
    /// The button of the language in use.
    Active,
}

/// The sound a button makes.
#[derive(Clone, Copy, Debug, PartialEq, Eq, Structural)]
pub enum ButtonSound {
    /// The pointer moved onto the button.
    Hover,
    /// The button was pressed.
    Press,
    /// A button that returns to the previous screen was pressed.
    Return,
}

/// The reaction of a language button to an interaction change.
#[derive(Clone, Copy, Debug, PartialEq, Eq, Structural)]
pub struct LocaleButtonResponse {
    pub look: ButtonLook,
    pub sound: Option<ButtonSound>,
    pub locale: Locale,
}

/// The reaction of the button for language `button` to `interaction` while
/// `current` is in use: the button of the language in use stays active and
/// silent; otherwise hovering highlights with a sound, pressing selects the
/// language with a sound, and leaving restores the normal look.
pub open spec fn spec_locale_response(button: Locale, interaction: Interaction, current: Locale) -> LocaleButtonResponse {
    if button == current {
        LocaleButtonResponse { look: ButtonLook::Active, sound: None, locale: current }
    } else {
        match interaction {
            Interaction::Hovered => LocaleButtonResponse {
                look: ButtonLook::Hovered,
                sound: Some(ButtonSound::Hover),
                locale: current,
            },
            Interaction::Pressed => LocaleButtonResponse {
                look: ButtonLook::Pressed,
                sound: Some(ButtonSound::Press),
                locale: button,
            },
            Interaction::Idle => LocaleButtonResponse {
                look: ButtonLook::Normal,
                sound: None,
                locale: current,
            },
        }
    }
}

/// The reaction of a language button to an interaction change.
pub fn locale_response(button: Locale, interaction: Interaction, current: Locale) -> (r:
    LocaleButtonResponse)
    ensures
        r == spec_locale_response(button, interaction, current),
{
    if button == current {
        LocaleButtonResponse { look: ButtonLook::Active, sound: None, locale: current }
    } else {
        match interaction {
            Interaction::Hovered => LocaleButtonResponse {
                look: ButtonLook::Hovered,
                sound: Some(ButtonSound::Hover),
                locale: current,
            },
            Interaction::Pressed => LocaleButtonResponse {
                look: ButtonLook::Pressed,
                sound: Some(ButtonSound::Press),
                locale: button,
            },
            Interaction::Idle => LocaleButtonResponse {
                look: ButtonLook::Normal,
                sound: None,
                locale: current,
            },
        }
    }
}

/// The look every language button is reset to after the interactions of a
/// frame: the button of the language in use keeps its look (`None`), the
/// others look normal.
pub open spec fn spec_locale_rest_look(button: Locale, current: Locale) -> Option<ButtonLook> {
    if button == current {
        None
    } else {
        Some(ButtonLook::Normal)
    }
}

/// The look a language button is reset to after a frame's interactions.
pub fn locale_rest_look(button: Locale, current: Locale) -> (l: Option<ButtonLook>)
    ensures
        l == spec_locale_rest_look(button, current),
{
    if button == current {
        None
    } else {
        Some(ButtonLook::Normal)
    }
}

/// Pressing a language button makes its language the one in use, and
/// pressing the button of the language in use changes nothing.
pub proof fn lemma_press_selects(button: Locale, current: Locale)
    ensures
        spec_locale_response(button, Interaction::Pressed, current).locale == button,
        button == current ==> spec_locale_response(button, Interaction::Pressed, current)
            == (LocaleButtonResponse { look: ButtonLook::Active, sound: None, locale: current }),
{
}

/// Only a press changes the language.
pub proof fn lemma_only_press_selects(button: Locale, interaction: Interaction, current: Locale)
    requires
        interaction != Interaction::Pressed,
    ensures
        spec_locale_response(button, interaction, current).locale == current,
{
}

/// The reaction of the back button of the option menu: hovering highlights
/// with a sound, pressing sounds the return (the scene change is made by the
/// scene state machine) and leaving restores the normal look.
pub open spec fn spec_back_button_response(interaction: Interaction) -> (ButtonLook, Option<ButtonSound>) {
    match interaction {
        Interaction::Hovered => (ButtonLook::Hovered, Some(ButtonSound::Hover)),
        Interaction::Pressed => (ButtonLook::Pressed, Some(ButtonSound::Return)),
        Interaction::Idle => (ButtonLook::Normal, None),
    }
}

/// The reaction of the back button of the option menu.
pub fn back_button_response(interaction: Interaction) -> (r: (ButtonLook, Option<ButtonSound>))
    ensures
        r == spec_back_button_response(interaction),
{
    match interaction {
        Interaction::Hovered => (ButtonLook::Hovered, Some(ButtonSound::Hover)),
        Interaction::Pressed => (ButtonLook::Pressed, Some(ButtonSound::Return)),
        Interaction::Idle => (ButtonLook::Normal, None),
    }
}

/// Whether `ui` is the handle of one of the three volume sliders.
pub open spec fn spec_is_volume_cursor(ui: UI) -> bool {
    ui == UI::BgmVolumeCursor || ui == UI::SfxVolumeCursor || ui == UI::VoiceVolumeCursor
}

/// Whether `ui` is the handle of one of the three volume sliders.
pub fn is_volume_cursor(ui: UI) -> (b: bool)
    ensures
        b == spec_is_volume_cursor(ui),
{
    match ui {
        UI::BgmVolumeCursor | UI::SfxVolumeCursor | UI::VoiceVolumeCursor => true,
        _ => false,
    }
}

/// The sample played when a slider handle is released, so that the player
/// hears the new volume: the effect slider plays an effect, the voice slider
/// a voice line, the music slider nothing.
#[derive(Clone, Copy, Debug, PartialEq, Eq, Structural)]
pub enum SliderFeedback {
    Effect,
    Voice,
}

/// The sample played when the handle `ui` is released.
pub fn slider_release_feedback(ui: UI) -> (f: Option<SliderFeedback>)
    ensures
        f == (if ui == UI::SfxVolumeCursor {
            Some(SliderFeedback::Effect)
        } else if ui == UI::VoiceVolumeCursor {
            Some(SliderFeedback::Voice)
        } else {
            None::<SliderFeedback>
        }),
{
    match ui {
        UI::SfxVolumeCursor => Some(SliderFeedback::Effect),
        UI::VoiceVolumeCursor => Some(SliderFeedback::Voice),
        _ => None,
    }
}

/// The slider handle being dragged, with the node it moves. Once a handle is
/// grabbed, it stays selected until released, even if another handle is
/// pressed meanwhile.
pub struct SelectedSliderCursor<E> {
    selected: Option<(UI, E)>,
}

impl<E: Copy> SelectedSliderCursor<E> {
    /// The selection.
    pub closed spec fn view_selected(self) -> Option<(UI, E)> {
        self.selected
    }

    /// No handle selected.
    pub fn new() -> (s: Self)
        ensures
            s.view_selected() is None,
    {
        SelectedSliderCursor { selected: None }
    }

    /// Releases the selection, returning it.
    pub fn take(&mut self) -> (r: Option<(UI, E)>)
        ensures
            r == old(self).view_selected(),
            final(self).view_selected() is None,
    {
        let r = self.selected;
        self.selected = None;
        r
    }

    /// The selection.
    pub fn get(&self) -> (r: Option<(UI, E)>)
        ensures
            r == self.view_selected(),
    {
        self.selected
    }

    /// Selects `ui` with node `entity`, unless a handle is already selected.
    pub fn set(&mut self, ui: UI, entity: E)
        ensures
            final(self).view_selected() == selection_after_set(old(self).view_selected(), ui, entity),
    {
        if self.selected.is_none() {
            self.selected = Some((ui, entity));
        }
    }
}

/// The selection after grabbing handle `ui` with node `entity`.
pub open spec fn selection_after_set<E>(selected: Option<(UI, E)>, ui: UI, entity: E) -> Option<(UI, E)> {
    if selected is None {
        Some((ui, entity))
    } else {
        selected
    }
}

/// A grab lasts until release: a second grab while one is held is ignored.
pub proof fn lemma_first_grab_wins<E>(first: (UI, E), second: (UI, E))
    ensures
        selection_after_set(selection_after_set(None, first.0, first.1), second.0, second.1)
            == Some(first),
{
}

} // verus!
