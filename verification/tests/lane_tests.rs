use shupogaki::lane::{Lane, MAX_LANE_INDEX, NUM_LANES};

#[test]
fn lane_starts_in_the_middle() {
    assert_eq!(Lane::default().index(), 1);
    assert_eq!(Lane::new().index(), NUM_LANES / 2);
}

#[test]
fn lane_moves_and_saturates() {
    let mut lane = Lane::new();
    lane.move_left();
    assert_eq!(lane.index(), 0);
    lane.move_left();
    assert_eq!(lane.index(), 0);
    lane.move_right();
    lane.move_right();
    assert_eq!(lane.index(), MAX_LANE_INDEX);
    lane.move_right();
    assert_eq!(lane.index(), 2);
}

#[test]
fn steering_rules() {
    let mut lane = Lane::new();
    // delay still running: nothing happens
    assert!(!lane.steer(false, true, false));
    assert_eq!(lane.index(), 1);
    // both keys held: nothing happens
    assert!(!lane.steer(true, true, true));
    assert_eq!(lane.index(), 1);
    // no key: nothing happens
    assert!(!lane.steer(true, false, false));
    assert_eq!(lane.index(), 1);
    // left wins and restarts the delay
    assert!(lane.steer(true, true, false));
    assert_eq!(lane.index(), 0);
    // at the edge the delay still restarts
    assert!(lane.steer(true, true, false));
    assert_eq!(lane.index(), 0);
    assert!(lane.steer(true, false, true));
    assert_eq!(lane.index(), 1);
}

#[test]
fn left_then_right_returns() {
    for start_moves in 0..3 {
        let mut lane = Lane::new();
        lane.move_left();
        for _ in 0..start_moves {
            lane.move_right();
        }
        let start = lane.index();
        if start > 0 {
            lane.move_left();
            lane.move_right();
            assert_eq!(lane.index(), start);
        }
    }
}
