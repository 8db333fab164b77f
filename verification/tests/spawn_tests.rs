use shupogaki::player::SpawnObject;
use shupogaki::spawn::{pattern, plan_from_draws, ObjectSpawner};

#[test]
fn patterns_are_the_nonempty_lane_sets() {
    let expected: Vec<Vec<usize>> =
        vec![vec![0], vec![1], vec![0, 1], vec![2], vec![0, 2], vec![1, 2], vec![0, 1, 2]];
    for p in 0..7 {
        assert_eq!(pattern(p), expected[p]);
        for l in 0..3usize {
            assert_eq!(pattern(p).contains(&l), ((p + 1) >> l) & 1 == 1);
        }
    }
}

#[test]
fn spawner_plans_are_well_formed() {
    let mut spawner = ObjectSpawner::default();
    let mut seen = [false; 3];
    for _ in 0..2000 {
        let plan = spawner.choose_spawn();
        match plan.object {
            SpawnObject::Fence0 | SpawnObject::Stone0 => {
                assert!((0..7).any(|p| pattern(p) == plan.lanes));
                seen[plan.object as usize] = true;
            }
            SpawnObject::Fuel => {
                assert_eq!(plan.lanes.len(), 1);
                assert!(plan.lanes[0] < 3);
                seen[2] = true;
            }
        }
    }
    assert_eq!(seen, [true, true, true]);
}

#[test]
fn draws_map_to_plans() {
    let fence = plan_from_draws(0, 2, 1);
    assert_eq!(fence.object, SpawnObject::Fence0);
    assert_eq!(fence.lanes, vec![0, 1]);
    let stone = plan_from_draws(1, 6, 0);
    assert_eq!(stone.object, SpawnObject::Stone0);
    assert_eq!(stone.lanes, vec![0, 1, 2]);
    let fuel = plan_from_draws(2, 6, 2);
    assert_eq!(fuel.object, SpawnObject::Fuel);
    assert_eq!(fuel.lanes, vec![2]);
}

#[test]
fn fences_and_stones_outnumber_fuel() {
    let mut spawner = ObjectSpawner::new();
    let mut counts = [0usize; 3];
    for _ in 0..13000 {
        let plan = spawner.choose_spawn();
        counts[plan.object as usize] += 1;
    }
    // Weights five, five and three: about 5000, 5000 and 3000 draws.
    assert!(counts[0] > 4400 && counts[0] < 5600, "{counts:?}");
    assert!(counts[1] > 4400 && counts[1] < 5600, "{counts:?}");
    assert!(counts[2] > 2500 && counts[2] < 3500, "{counts:?}");
}
