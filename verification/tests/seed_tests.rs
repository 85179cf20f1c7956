use game_of_life::grid::{Board, TileState};
use game_of_life::seed::SeedStrategy;

const SEED_COORDS: [(usize, usize); 5] = [(0, 1), (1, 2), (2, 0), (2, 1), (2, 2)];

fn alive_cells(b: &Board, height: usize, width: usize) -> Vec<(usize, usize)> {
    let mut out = Vec::new();
    for i in 0..height {
        for j in 0..width {
            if b.get(i, j).state == TileState::ALIVE {
                out.push((i, j));
            }
        }
    }
    out
}

#[test]
fn fixed_seed_marks_exactly_the_pattern() {
    let b = Board::new_seeded(5, 5, SeedStrategy::Fixed);
    assert_eq!(b.width, 5);
    assert_eq!(b.height, 5);
    let mut expected: Vec<(usize, usize)> = SEED_COORDS.to_vec();
    expected.sort();
    assert_eq!(alive_cells(&b, 5, 5), expected);
}

#[test]
fn seed_fixed_keeps_other_cells() {
    let mut b = Board::new(4, 4);
    b.set(3, 3, TileState::ALIVE);
    b.seed_fixed();
    let mut expected: Vec<(usize, usize)> = SEED_COORDS.to_vec();
    expected.push((3, 3));
    expected.sort();
    assert_eq!(alive_cells(&b, 4, 4), expected);
}

#[test]
fn fixed_seed_step_matches_hand_computation() {
    let b = Board::new_seeded(5, 5, SeedStrategy::Fixed);
    let next = b.tick();
    assert_eq!(
        alive_cells(&next, 5, 5),
        vec![(1, 0), (1, 2), (2, 1), (2, 2), (3, 1)]
    );
}

#[test]
fn random_seed_keeps_dimensions() {
    let b = Board::new_seeded(6, 4, SeedStrategy::Random);
    assert_eq!(b.width, 6);
    assert_eq!(b.height, 4);
    for i in 0..4 {
        for j in 0..6 {
            let s = b.get(i, j).state;
            assert!(s == TileState::ALIVE || s == TileState::DEAD);
        }
    }
}

#[test]
fn randomize_keeps_dimensions() {
    let mut b = Board::new(3, 7);
    b.randomize();
    assert_eq!(b.width, 3);
    assert_eq!(b.height, 7);
}
