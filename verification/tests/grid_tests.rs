use occupancy_sim::grid::{GridState, SimError};

#[test]
fn new_accepts_all_six_cells() {
    for y in 0..2usize {
        for x in 0..3usize {
            let g = GridState::new(x, y).unwrap();
            assert_eq!(g.current_position(), (x, y));
        }
    }
}

#[test]
fn new_rejects_out_of_range_start() {
    assert_eq!(
        GridState::new(3, 0),
        Err(SimError::InvalidStart { x: 3, y: 0 })
    );
    assert_eq!(
        GridState::new(0, 2),
        Err(SimError::InvalidStart { x: 0, y: 2 })
    );
    assert_eq!(
        GridState::new(100, 100),
        Err(SimError::InvalidStart { x: 100, y: 100 })
    );
}

#[test]
fn from_origin_up_fails_with_destination_above() {
    let mut g = GridState::new(0, 0).unwrap();
    assert_eq!(
        g.move_up(),
        Err(SimError::IllegalMove {
            curr_x: 0,
            curr_y: 0,
            tried_x: 0,
            tried_y: -1,
        })
    );
    assert_eq!(g.current_position(), (0, 0));
}

#[test]
fn from_origin_down_succeeds() {
    let mut g = GridState::new(0, 0).unwrap();
    assert_eq!(g.move_down(), Ok(()));
    assert_eq!(g.current_position(), (0, 1));
}

#[test]
fn from_origin_left_fails_with_destination_before() {
    let mut g = GridState::new(0, 0).unwrap();
    assert_eq!(
        g.move_left(),
        Err(SimError::IllegalMove {
            curr_x: 0,
            curr_y: 0,
            tried_x: -1,
            tried_y: 0,
        })
    );
    assert_eq!(g.current_position(), (0, 0));
}

#[test]
fn from_origin_right_succeeds() {
    let mut g = GridState::new(0, 0).unwrap();
    assert_eq!(g.move_right(), Ok(()));
    assert_eq!(g.current_position(), (1, 0));
}

#[test]
fn opposite_moves_are_mutual_inverses() {
    let mut g = GridState::new(1, 0).unwrap();
    assert_eq!(g.move_left(), Ok(()));
    assert_eq!(g.move_right(), Ok(()));
    assert_eq!(g.current_position(), (1, 0));
    assert_eq!(g.move_right(), Ok(()));
    assert_eq!(g.move_left(), Ok(()));
    assert_eq!(g.current_position(), (1, 0));
    assert_eq!(g.move_down(), Ok(()));
    assert_eq!(g.move_up(), Ok(()));
    assert_eq!(g.current_position(), (1, 0));

    let mut h = GridState::new(1, 1).unwrap();
    assert_eq!(h.move_up(), Ok(()));
    assert_eq!(h.move_down(), Ok(()));
    assert_eq!(h.current_position(), (1, 1));
}

#[test]
fn position_stays_on_grid_through_any_sequence() {
    let mut g = GridState::new(2, 1).unwrap();
    let _ = g.move_right();
    let _ = g.move_down();
    let _ = g.move_up();
    let _ = g.move_up();
    let _ = g.move_left();
    let _ = g.move_left();
    let _ = g.move_left();
    let _ = g.move_left();
    let (x, y) = g.current_position();
    assert!(x < 3 && y < 2);
}

#[test]
fn corners_block_two_directions_and_centres_one() {
    for y in 0..2usize {
        for x in 0..3usize {
            let g = GridState::new(x, y).unwrap();
            let mut illegal = 0;
            if g.clone().move_up().is_err() {
                illegal += 1;
            }
            if g.clone().move_down().is_err() {
                illegal += 1;
            }
            if g.clone().move_left().is_err() {
                illegal += 1;
            }
            if g.clone().move_right().is_err() {
                illegal += 1;
            }
            let expected = if x == 1 { 1 } else { 2 };
            assert_eq!(illegal, expected);
        }
    }
}

#[test]
fn legal_dirs_lists_exactly_the_legal_moves() {
    let g = GridState::new(0, 0).unwrap();
    assert_eq!(g.legal_dirs(), vec![1, 3]);
    let g = GridState::new(1, 0).unwrap();
    assert_eq!(g.legal_dirs(), vec![1, 2, 3]);
    let g = GridState::new(2, 1).unwrap();
    assert_eq!(g.legal_dirs(), vec![0, 2]);
    let g = GridState::new(1, 1).unwrap();
    assert_eq!(g.legal_dirs(), vec![0, 2, 3]);
}
