//! Game logic of the Shupogaki endless-runner: lanes, scoring, collisions,
//! object spawning, the scene state machine, UI decisions and asset
//! bookkeeping, each stated over plain values and proved.

pub mod asset;
pub mod lane;
pub mod loading;
pub mod player;
pub mod score;
pub mod sound;
pub mod spawn;
pub mod state;
pub mod text;
pub mod ui;
