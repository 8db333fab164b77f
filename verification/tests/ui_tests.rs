use shupogaki::ui::{
    back_button_response, button_locale, countdown_visible, in_group, is_volume_cursor,
    locale_from_language, locale_response, locale_rest_look, slider_release_feedback, ButtonLook,
    ButtonSound, Interaction, Locale, SelectedSliderCursor, SliderFeedback, UiGroup, UI,
};

#[test]
fn groups() {
    assert!(in_group(UI::PauseTitle, UiGroup::PauseMenu));
    assert!(in_group(UI::ExitButton, UiGroup::PauseMenu));
    assert!(!in_group(UI::PauseButton, UiGroup::PauseMenu));
    assert!(in_group(UI::PauseButton, UiGroup::InGameHud));
    assert!(in_group(UI::LanguageKo, UiGroup::OptionMenu));
    assert!(in_group(UI::RankButton, UiGroup::TitleMenu));
    assert!(in_group(UI::GameScore, UiGroup::ResultPanel));
    assert!(!in_group(UI::FinishLabel, UiGroup::ResultPanel));
}

#[test]
fn countdown() {
    assert_eq!(countdown_visible(UI::ResumeCount3, 0), Some(true));
    assert_eq!(countdown_visible(UI::ResumeCount2, 0), Some(false));
    assert_eq!(countdown_visible(UI::ResumeCount2, 1), Some(true));
    assert_eq!(countdown_visible(UI::ResumeCount1, 1), Some(false));
    assert_eq!(countdown_visible(UI::ResumeCount1, 2), Some(true));
    assert_eq!(countdown_visible(UI::ResumeCount1, 7), Some(true));
    assert_eq!(countdown_visible(UI::Score, 0), None);
}

#[test]
fn locales() {
    assert_eq!(locale_from_language(&"en-US".to_string()), Locale::En);
    assert_eq!(locale_from_language(&"ja-JP".to_string()), Locale::Ja);
    assert_eq!(locale_from_language(&"ko-KR".to_string()), Locale::Ko);
    assert_eq!(locale_from_language(&"fr-FR".to_string()), Locale::En);
    assert_eq!(locale_from_language(&"ja".to_string()), Locale::En);
    assert_eq!(Locale::default(), Locale::En);
    assert_eq!(button_locale(UI::LanguageJa), Some(Locale::Ja));
    assert_eq!(button_locale(UI::BackButton), None);
}

#[test]
fn locale_buttons() {
    let r = locale_response(Locale::Ja, Interaction::Pressed, Locale::En);
    assert_eq!(r.look, ButtonLook::Pressed);
    assert_eq!(r.sound, Some(ButtonSound::Press));
    assert_eq!(r.locale, Locale::Ja);
    let r = locale_response(Locale::Ja, Interaction::Pressed, Locale::Ja);
    assert_eq!(r.look, ButtonLook::Active);
    assert_eq!(r.sound, None);
    let r = locale_response(Locale::Ko, Interaction::Hovered, Locale::En);
    assert_eq!((r.look, r.sound, r.locale), (ButtonLook::Hovered, Some(ButtonSound::Hover), Locale::En));
    let r = locale_response(Locale::Ko, Interaction::Idle, Locale::En);
    assert_eq!((r.look, r.sound, r.locale), (ButtonLook::Normal, None, Locale::En));
    assert_eq!(locale_rest_look(Locale::En, Locale::En), None);
    assert_eq!(locale_rest_look(Locale::Ko, Locale::En), Some(ButtonLook::Normal));
}

#[test]
fn back_button() {
    assert_eq!(back_button_response(Interaction::Pressed), (ButtonLook::Pressed, Some(ButtonSound::Return)));
    assert_eq!(back_button_response(Interaction::Hovered), (ButtonLook::Hovered, Some(ButtonSound::Hover)));
    assert_eq!(back_button_response(Interaction::Idle), (ButtonLook::Normal, None));
}

#[test]
fn sliders() {
    assert!(is_volume_cursor(UI::BgmVolumeCursor));
    assert!(!is_volume_cursor(UI::BgmVolume));
    assert_eq!(slider_release_feedback(UI::SfxVolumeCursor), Some(SliderFeedback::Effect));
    assert_eq!(slider_release_feedback(UI::VoiceVolumeCursor), Some(SliderFeedback::Voice));
    assert_eq!(slider_release_feedback(UI::BgmVolumeCursor), None);

    let mut cursor: SelectedSliderCursor<u64> = SelectedSliderCursor::new();
    assert_eq!(cursor.get(), None);
    cursor.set(UI::SfxVolumeCursor, 7);
    cursor.set(UI::VoiceVolumeCursor, 9);
    assert_eq!(cursor.get(), Some((UI::SfxVolumeCursor, 7)));
    assert_eq!(cursor.take(), Some((UI::SfxVolumeCursor, 7)));
    assert_eq!(cursor.take(), None);
    cursor.set(UI::VoiceVolumeCursor, 9);
    assert_eq!(cursor.get(), Some((UI::VoiceVolumeCursor, 9)));
}
