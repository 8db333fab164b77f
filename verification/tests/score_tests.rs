use shupogaki::loading::{all_loaded, loading_progress};
use shupogaki::score::{score_digit, PlayScore};
use shupogaki::sound::{volume_label, volume_text, SystemVolume};
use shupogaki::ui::UI;

#[test]
fn score_advances_by_cycles() {
    let mut score = PlayScore::default();
    score.advance(250, 100);
    assert_eq!(score.accum(), 2);
    score.advance(40, 100);
    assert_eq!(score.accum(), 2);
    score.advance(10, 100);
    assert_eq!(score.accum(), 3);
    score.advance(0, 100);
    assert_eq!(score.accum(), 3);
}

#[test]
fn score_advance_handles_huge_steps() {
    let mut score = PlayScore::new();
    score.advance(u32::MAX - 1, u32::MAX);
    assert_eq!(score.accum(), 0);
    score.advance(u32::MAX, u32::MAX);
    assert_eq!(score.accum(), 1);
    score.advance(u32::MAX, 1);
    score.advance(u32::MAX, 1);
    assert_eq!(score.accum(), u32::MAX);
}

#[test]
fn score_board_digits() {
    let score: u32 = 1_234_567;
    let digits: Vec<u32> = (0..6).map(|p| score_digit(score, p)).collect();
    assert_eq!(digits, vec![7, 6, 5, 4, 3, 2]);
    let mut s = PlayScore::new();
    s.advance(4321, 1);
    assert_eq!(s.digit(0), 1);
    assert_eq!(s.digit(3), 4);
    assert_eq!(s.digit(5), 0);
}

#[test]
fn volume_label_matches_percentage_display() {
    for level in 0..=255u8 {
        let percentage = level as f32 / 255.0;
        let shown = format!("{}", (100.0 * percentage).floor());
        assert_eq!(volume_label(level), shown);
    }
}

#[test]
fn volume_texts() {
    let v = SystemVolume::default();
    assert_eq!(v.background, 204);
    assert_eq!(volume_text(&v, UI::BgmVolume), Some("80".to_string()));
    let v = SystemVolume { background: 0, effect: 255, voice: 51 };
    assert_eq!(volume_text(&v, UI::BgmVolume), Some("0".to_string()));
    assert_eq!(volume_text(&v, UI::SfxVolume), Some("100".to_string()));
    assert_eq!(volume_text(&v, UI::VoiceVolume), Some("20".to_string()));
    assert_eq!(volume_text(&v, UI::BgmLabel), None);
}

#[test]
fn loading_progress_counts() {
    let ready = vec![true, false, true];
    let p = loading_progress(&ready);
    assert_eq!((p.loaded, p.total), (2, 3));
    assert!(!all_loaded(&ready));
    assert!(all_loaded(&vec![true, true]));
    assert!(all_loaded(&vec![]));
    let p = loading_progress(&vec![]);
    assert_eq!((p.loaded, p.total), (0, 0));
}
