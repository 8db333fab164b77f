//! The volume settings of the three sound channels and how they are shown.

use vstd::prelude::*;
use crate::text::{decimal, push_decimal};
use crate::ui::UI;

verus! {

/// The volume of music, effects and voices, each from 0 (silent) to 255
/// (full).
pub struct SystemVolume {
    pub background: u8,
    pub effect: u8,
    pub voice: u8,
}

impl Default for SystemVolume {
    /// Every channel at 204 of 255, that is 80 percent.
    fn default() -> (v: SystemVolume)
        ensures
            v.background == 204,
            v.effect == 204,
            v.voice == 204,
    {
        SystemVolume { background: 204, effect: 204, voice: 204 }
    }
}

/// The whole percentage of full volume that a level represents, rounded
/// down.
pub open spec fn volume_percent(level: u8) -> nat {
    (100 * level as nat) / 255
}

/// The text shown for a volume level: its whole percentage.
pub fn volume_label(level: u8) -> (s: String)
    ensures
        s@ == decimal(volume_percent(level)),
        volume_percent(level) <= 100,
{
    let percent: u64 = (100 * (level as u64)) / 255;
    let mut s = String::new();
    push_decimal(&mut s, percent);
    assert(s@ =~= decimal(volume_percent(level)));
    s
}

/// The text of the percentage display `ui` of the option menu, or `None` if
/// `ui` is not one of the three percentage displays.
pub fn volume_text(volume: &SystemVolume, ui: UI) -> (t: Option<String>)
    ensures
        ui == UI::BgmVolume ==> (t matches Some(s) && s@ == decimal(volume_percent(volume.background))),
        ui == UI::SfxVolume ==> (t matches Some(s) && s@ == decimal(volume_percent(volume.effect))),
        ui == UI::VoiceVolume ==> (t matches Some(s) && s@ == decimal(volume_percent(volume.voice))),
        !(ui == UI::BgmVolume || ui == UI::SfxVolume || ui == UI::VoiceVolume) ==> t is None,
{
    match ui {
        UI::BgmVolume => Some(volume_label(volume.background)),
        UI::SfxVolume => Some(volume_label(volume.effect)),
        UI::VoiceVolume => Some(volume_label(volume.voice)),
        _ => None,
    }
}

/// Full volume shows 100 percent, silence 0, and the percentage never
/// decreases as the level rises.
pub proof fn lemma_percent_monotone(a: u8, b: u8)
    requires
        a <= b,
    ensures
        volume_percent(a) <= volume_percent(b),
        volume_percent(255) == 100,
        volume_percent(0) == 0,
{
    assert(100 * a as nat <= 100 * b as nat);
    vstd::arithmetic::div_mod::lemma_div_is_ordered((100 * a as nat) as int, (100 * b as nat) as int, 255);
}

} // verus!
