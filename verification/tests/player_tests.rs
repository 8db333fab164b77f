use shupogaki::player::{
    collision_outcome, resolve_collisions, state_after, CollisionOutcome, PlayerState, SpawnObject,
};

#[test]
fn collision_table() {
    assert_eq!(collision_outcome(PlayerState::Idle, SpawnObject::Fence0), CollisionOutcome::Crash { fuel_loss: 10 });
    assert_eq!(collision_outcome(PlayerState::Idle, SpawnObject::Stone0), CollisionOutcome::Crash { fuel_loss: 20 });
    assert_eq!(collision_outcome(PlayerState::Idle, SpawnObject::Fuel), CollisionOutcome::Refuel { fuel_gain: 30 });
    assert_eq!(collision_outcome(PlayerState::Attacked, SpawnObject::Fuel), CollisionOutcome::Refuel { fuel_gain: 30 });
    assert_eq!(collision_outcome(PlayerState::Attacked, SpawnObject::Fence0), CollisionOutcome::NoEffect);
    assert_eq!(collision_outcome(PlayerState::Attacked, SpawnObject::Stone0), CollisionOutcome::NoEffect);
    assert_eq!(collision_outcome(PlayerState::Debug, SpawnObject::Fence0), CollisionOutcome::NoEffect);
    assert_eq!(collision_outcome(PlayerState::Debug, SpawnObject::Stone0), CollisionOutcome::NoEffect);
    assert_eq!(collision_outcome(PlayerState::Debug, SpawnObject::Fuel), CollisionOutcome::NoEffect);
}

#[test]
fn state_after_crash_is_attacked() {
    assert_eq!(
        state_after(PlayerState::Idle, CollisionOutcome::Crash { fuel_loss: 10 }),
        PlayerState::Attacked
    );
    assert_eq!(
        state_after(PlayerState::Attacked, CollisionOutcome::Refuel { fuel_gain: 30 }),
        PlayerState::Attacked
    );
    assert_eq!(state_after(PlayerState::Idle, CollisionOutcome::NoEffect), PlayerState::Idle);
}

#[test]
fn only_first_hit_counts() {
    let objects = vec![SpawnObject::Fuel, SpawnObject::Stone0, SpawnObject::Fence0];
    assert_eq!(
        resolve_collisions(PlayerState::Idle, &objects, &vec![false, true, true]),
        Some((1, CollisionOutcome::Crash { fuel_loss: 20 }))
    );
    assert_eq!(resolve_collisions(PlayerState::Idle, &objects, &vec![false, false, false]), None);
    assert_eq!(
        resolve_collisions(PlayerState::Debug, &objects, &vec![true, true, true]),
        Some((0, CollisionOutcome::NoEffect))
    );
}

#[test]
fn player_state_queries() {
    assert!(PlayerState::Debug.is_debug());
    assert!(PlayerState::Debug.is_invincible());
    assert!(!PlayerState::Idle.is_invincible());
    assert!(!PlayerState::Attacked.is_invincible());
    assert_eq!(PlayerState::default(), PlayerState::Idle);
    assert_eq!(PlayerState::Idle.toggled_debug(), PlayerState::Debug);
    assert_eq!(PlayerState::Debug.toggled_debug(), PlayerState::Idle);
    assert_eq!(PlayerState::Attacked.toggled_debug(), PlayerState::Debug);
}
