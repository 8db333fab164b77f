//! The player's condition and what touching an object on the track does.

use vstd::prelude::*;

verus! {

/// Fuel lost when the train runs into a fence.
pub const FENCE_AMOUNT: u32 = 10;

/// Fuel lost when the train runs into a stone.
pub const STONE_AMOUNT: u32 = 20;

/// Fuel gained when the train picks up a fuel can.
pub const FUEL_AMOUNT: u32 = 30;

/// The kinds of object that appear on the track.
#[derive(Clone, Copy, Debug, PartialEq, Eq, Hash, Structural)]
pub enum SpawnObject {
    Fence0,
    Stone0,
    Fuel,
}

impl SpawnObject {
    /// The position of the kind in the spawn table: fence, stone, fuel.
    pub open spec fn spec_ordinal(self) -> nat {
        match self {
            SpawnObject::Fence0 => 0,
            SpawnObject::Stone0 => 1,
            SpawnObject::Fuel => 2,
        }
    }
}

impl Default for SpawnObject {
    fn default() -> (o: SpawnObject)
        ensures
            o == SpawnObject::Fence0,
    {
        SpawnObject::Fence0
    }
}

/// The player's condition. While attacked the train flashes and ignores
/// obstacles; the countdown of that state is kept by the caller.
#[derive(Clone, Copy, Debug, PartialEq, Eq, Hash, Structural)]
pub enum PlayerState {
    /// The debugging condition: invincible and fuel does not drain.
    Debug,
    /// The normal condition.
    Idle,
    /// Recently hit by an obstacle.
    Attacked,
}

impl PlayerState {
    /// Whether the player is in the debugging condition.
    pub fn is_debug(&self) -> (b: bool)
        ensures
            b == (*self == PlayerState::Debug),
    {
        match self {
            PlayerState::Debug => true,
            _ => false,
        }
    }

    /// Whether the player is invincible (nothing happens on contact and fuel
    /// does not drain): only in the debugging condition.
    pub fn is_invincible(&self) -> (b: bool)
        ensures
            b == (*self == PlayerState::Debug),
    {
        match self {
            PlayerState::Debug => true,
            _ => false,
        }
    }

    /// The condition after the debug toggle key: debugging becomes idle,
    /// anything else becomes debugging.
    pub fn toggled_debug(&self) -> (s: PlayerState)
        ensures
            s == spec_toggled(*self),
    {
        if self.is_debug() {
            PlayerState::Idle
        } else {
            PlayerState::Debug
        }
    }
}

/// The condition after the debug toggle key.
pub open spec fn spec_toggled(state: PlayerState) -> PlayerState {
    if state == PlayerState::Debug {
        PlayerState::Idle
    } else {
        PlayerState::Debug
    }
}

impl Default for PlayerState {
    fn default() -> (s: PlayerState)
        ensures
            s == PlayerState::Idle,
    {
        PlayerState::Idle
    }
}

/// What a contact between the train and an object does.
#[derive(Clone, Copy, Debug, PartialEq, Eq, Structural)]
pub enum CollisionOutcome {
    /// The train loses `fuel_loss` fuel and becomes attacked.
    Crash { fuel_loss: u32 },
    /// The train gains `fuel_gain` fuel and the object is removed.
    Refuel { fuel_gain: u32 },
    /// Nothing happens.
    NoEffect,
}

/// The effect of touching `object` in condition `state`.
pub open spec fn spec_outcome(state: PlayerState, object: SpawnObject) -> CollisionOutcome {
    match (state, object) {
        (PlayerState::Idle, SpawnObject::Fence0) => CollisionOutcome::Crash { fuel_loss: FENCE_AMOUNT },
        (PlayerState::Idle, SpawnObject::Stone0) => CollisionOutcome::Crash { fuel_loss: STONE_AMOUNT },
        (PlayerState::Idle, SpawnObject::Fuel) => CollisionOutcome::Refuel { fuel_gain: FUEL_AMOUNT },
        (PlayerState::Attacked, SpawnObject::Fuel) => CollisionOutcome::Refuel {
            fuel_gain: FUEL_AMOUNT,
        },
        _ => CollisionOutcome::NoEffect,
    }
}

/// The effect of touching `object` in condition `state`.
pub fn collision_outcome(state: PlayerState, object: SpawnObject) -> (o: CollisionOutcome)
    ensures
        o == spec_outcome(state, object),
{
    match (state, object) {
        (PlayerState::Idle, SpawnObject::Fence0) => CollisionOutcome::Crash { fuel_loss: FENCE_AMOUNT },
        (PlayerState::Idle, SpawnObject::Stone0) => CollisionOutcome::Crash { fuel_loss: STONE_AMOUNT },
        (PlayerState::Idle, SpawnObject::Fuel) => CollisionOutcome::Refuel { fuel_gain: FUEL_AMOUNT },
        (PlayerState::Attacked, SpawnObject::Fuel) => CollisionOutcome::Refuel {
            fuel_gain: FUEL_AMOUNT,
        },
        _ => CollisionOutcome::NoEffect,
    }
}

/// The condition after an outcome: a crash leaves the player attacked,
/// anything else leaves the condition as it was.
pub open spec fn spec_state_after(state: PlayerState, outcome: CollisionOutcome) -> PlayerState {
    match outcome {
        CollisionOutcome::Crash { .. } => PlayerState::Attacked,
        _ => state,
    }
}

/// The condition after an outcome.
pub fn state_after(state: PlayerState, outcome: CollisionOutcome) -> (s: PlayerState)
    ensures
        s == spec_state_after(state, outcome),
        outcome is Crash ==> s == PlayerState::Attacked,
        !(outcome is Crash) ==> s == state,
{
    match outcome {
        CollisionOutcome::Crash { .. } => PlayerState::Attacked,
        _ => state,
    }
}

/// Whether index `i` is the first one where `hits` is true.
pub open spec fn is_first_hit(hits: Seq<bool>, i: int) -> bool {
    &&& 0 <= i < hits.len()
    &&& hits[i]
    &&& forall|j: int| 0 <= j < i ==> !hits[j]
}

/// Resolves one frame of contacts. `objects[i]` is the kind of the i-th object
/// on the track and `hits[i]` whether it touches the train. Only the first
/// touching object counts; its index and outcome are returned, or `None` when
/// nothing touches the train.
pub fn resolve_collisions(state: PlayerState, objects: &Vec<SpawnObject>, hits: &Vec<bool>) -> (r:
    Option<(usize, CollisionOutcome)>)
    requires
        objects.len() == hits.len(),
    ensures
        r is None <==> (forall|j: int| 0 <= j < hits.len() ==> !hits@[j]),
        r matches Some((i, o)) ==> is_first_hit(hits@, i as int) && o == spec_outcome(
            state,
            objects@[i as int],
        ),
{
    let mut i: usize = 0;
    while i < hits.len()
        invariant
            objects.len() == hits.len(),
            i <= hits.len(),
            forall|j: int| 0 <= j < i ==> !hits@[j],
        decreases hits.len() - i,
    {
        if hits[i] {
            return Some((i, collision_outcome(state, objects[i])));
        }
        i += 1;
    }
    None
}

/// The colour treatment of the train's materials in each condition.
#[derive(Clone, Copy, Debug, PartialEq, Eq, Structural)]
pub enum BodyTint {
    /// Drawn black: the debugging condition.
    Black,
    /// Drawn in its own colours.
    White,
    /// Flashing between black and white while attacked.
    Flashing,
}

/// The colour treatment of the train in condition `state`.
pub fn body_tint(state: PlayerState) -> (t: BodyTint)
    ensures
        t == (match state {
            PlayerState::Debug => BodyTint::Black,
            PlayerState::Idle => BodyTint::White,
            PlayerState::Attacked => BodyTint::Flashing,
        }),
{
    match state {
        PlayerState::Debug => BodyTint::Black,
        PlayerState::Idle => BodyTint::White,
        PlayerState::Attacked => BodyTint::Flashing,
    }
}

/// Nothing on the track affects an invincible player.
pub proof fn lemma_invincible_untouched(object: SpawnObject)
    ensures
        spec_outcome(PlayerState::Debug, object) == CollisionOutcome::NoEffect,
{
}

/// Only an idle player can crash, and only into a fence or a stone; the fuel
/// lost is never more than the fuel a can restores.
pub proof fn lemma_crash_only_when_idle(state: PlayerState, object: SpawnObject)
    ensures
        spec_outcome(state, object) is Crash ==> state == PlayerState::Idle && object
            != SpawnObject::Fuel && spec_outcome(state, object)->fuel_loss <= FUEL_AMOUNT,
{
}

/// While attacked the player cannot crash again, so the attack is never
/// renewed by another obstacle.
pub proof fn lemma_attacked_cannot_crash(object: SpawnObject)
    ensures
        !(spec_outcome(PlayerState::Attacked, object) is Crash),
        spec_state_after(PlayerState::Attacked, spec_outcome(PlayerState::Attacked, object))
            == PlayerState::Attacked,
{
}

/// A fuel can refuels the player in every condition but debugging.
pub proof fn lemma_fuel_refuels(state: PlayerState)
    requires
        state != PlayerState::Debug,
    ensures
        spec_outcome(state, SpawnObject::Fuel) == (CollisionOutcome::Refuel { fuel_gain: FUEL_AMOUNT }),
{
}

/// The debug toggle undoes itself from the idle and debugging conditions.
pub proof fn lemma_toggle_twice(state: PlayerState)
    requires
        state != PlayerState::Attacked,
    ensures
        spec_toggled(spec_toggled(state)) == state,
{
}

/// Only a crash changes the player's condition, and a crash always leaves
/// the player attacked: refuelling and touching nothing keep whatever
/// condition the player was in.
pub proof fn lemma_only_crash_changes_condition(state: PlayerState, outcome: CollisionOutcome)
    ensures
        outcome is Crash ==> spec_state_after(state, outcome) == PlayerState::Attacked,
        !(outcome is Crash) ==> spec_state_after(state, outcome) == state,
        forall|gain: u32| spec_state_after(state, CollisionOutcome::Refuel { fuel_gain: gain }) == state,
        spec_state_after(state, CollisionOutcome::NoEffect) == state,
{
}

} // verus!
