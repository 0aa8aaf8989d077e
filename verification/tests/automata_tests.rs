use cellularity::Automata;
use cellularity::CellState;
use cellularity::ConwayRule;
use cellularity::Grid;
use cellularity::MooreNeighborhood;
use cellularity::Position;
use cellularity::ToroidalBoundary;
use cellularity::VonNeumannNeighborhood;
use cellularity::WalledBoundary;

fn create_test_automata(
    width: usize,
    height: usize,
) -> Automata<ConwayRule, ToroidalBoundary, MooreNeighborhood> {
    Automata::new(
        width,
        height,
        Box::new(ConwayRule::new()),
        Box::new(ToroidalBoundary::new()),
        Box::new(MooreNeighborhood::new()),
    )
    .unwrap()
}

#[test]
fn test_automata_creation() {
    let automata = create_test_automata(10, 10);
    assert_eq!(automata.grid().width(), 10);
    assert_eq!(automata.grid().height(), 10);
    assert_eq!(automata.generation(), 0);
}

#[test]
fn test_automata_reset() {
    let mut automata = create_test_automata(5, 5);
    automata.grid_mut().set(Position::new(2, 2), CellState::Alive).unwrap();
    automata.step();
    assert_eq!(automata.generation(), 1);
    automata.reset();
    assert_eq!(automata.generation(), 0);
    assert_eq!(automata.grid().count_alive(), 0);
}

#[test]
fn test_automata_step() {
    let mut automata = create_test_automata(5, 5);
    assert_eq!(automata.generation(), 0);
    automata.step();
    assert_eq!(automata.generation(), 1);
    automata.step();
    assert_eq!(automata.generation(), 2);
}

#[test]
fn test_automata_step_n() {
    let mut automata = create_test_automata(5, 5);
    automata.step_n(10);
    assert_eq!(automata.generation(), 10);
}

#[test]
fn test_blinker_pattern() {
    let mut automata = create_test_automata(5, 5);
    // Vertical blinker
    automata.grid_mut().set(Position::new(2, 1), CellState::Alive).unwrap();
    automata.grid_mut().set(Position::new(2, 2), CellState::Alive).unwrap();
    automata.grid_mut().set(Position::new(2, 3), CellState::Alive).unwrap();
    assert_eq!(automata.grid().count_alive(), 3);
    // After one step -> horizontal
    automata.step();
    assert_eq!(automata.grid().count_alive(), 3);
    assert_eq!(automata.grid().get(Position::new(1, 2)).unwrap(), CellState::Alive);
    assert_eq!(automata.grid().get(Position::new(2, 2)).unwrap(), CellState::Alive);
    assert_eq!(automata.grid().get(Position::new(3, 2)).unwrap(), CellState::Alive);
    // After another step -> vertical again
    automata.step();
    assert_eq!(automata.grid().count_alive(), 3);
    assert_eq!(automata.grid().get(Position::new(2, 1)).unwrap(), CellState::Alive);
    assert_eq!(automata.grid().get(Position::new(2, 2)).unwrap(), CellState::Alive);
    assert_eq!(automata.grid().get(Position::new(2, 3)).unwrap(), CellState::Alive);
}

#[test]
fn test_block_pattern() {
    let mut automata = create_test_automata(5, 5);
    // 2x2 block
    automata.grid_mut().set(Position::new(1, 1), CellState::Alive).unwrap();
    automata.grid_mut().set(Position::new(2, 1), CellState::Alive).unwrap();
    automata.grid_mut().set(Position::new(1, 2), CellState::Alive).unwrap();
    automata.grid_mut().set(Position::new(2, 2), CellState::Alive).unwrap();
    assert_eq!(automata.grid().count_alive(), 4);
    automata.step();
    assert_eq!(automata.grid().count_alive(), 4);
    assert_eq!(automata.grid().get(Position::new(1, 1)).unwrap(), CellState::Alive);
    assert_eq!(automata.grid().get(Position::new(2, 1)).unwrap(), CellState::Alive);
    assert_eq!(automata.grid().get(Position::new(1, 2)).unwrap(), CellState::Alive);
    assert_eq!(automata.grid().get(Position::new(2, 2)).unwrap(), CellState::Alive);
    automata.step_n(10);
    assert_eq!(automata.grid().count_alive(), 4);
}

#[test]
fn test_plus_neighbors_behavior() {
    // A plus shape around the center gives the center 4 alive neighbors.
    // Under Conway's rules and the Moore neighborhood, the center must
    // remain dead after one step (4 is not exactly 3, so no birth).
    let mut automata = create_test_automata(5, 5);
    let center = Position::new(2, 2);
    automata.grid_mut().set(Position::new(2, 1), CellState::Alive).unwrap();
    automata.grid_mut().set(Position::new(1, 2), CellState::Alive).unwrap();
    automata.grid_mut().set(Position::new(3, 2), CellState::Alive).unwrap();
    automata.grid_mut().set(Position::new(2, 3), CellState::Alive).unwrap();
    automata.step();
    assert_eq!(automata.grid().get(center).unwrap(), CellState::Dead);
}

#[test]
fn test_empty_grid_stays_empty() {
    let mut automata = create_test_automata(5, 5);
    assert_eq!(automata.grid().count_alive(), 0);
    automata.step_n(10);
    assert_eq!(automata.grid().count_alive(), 0);
}

#[test]
fn test_empty_grid_stays_empty_all_policies() {
    // Every boundary/neighborhood combination keeps an all-dead grid dead.
    let mut a1: Automata<ConwayRule, ToroidalBoundary, VonNeumannNeighborhood> = Automata::new(
        4,
        6,
        Box::new(ConwayRule::new()),
        Box::new(ToroidalBoundary::new()),
        Box::new(VonNeumannNeighborhood::new()),
    )
    .unwrap();
    a1.step_n(5);
    assert_eq!(a1.grid().count_alive(), 0);

    let mut a2: Automata<ConwayRule, WalledBoundary, MooreNeighborhood> = Automata::new(
        4,
        6,
        Box::new(ConwayRule::new()),
        Box::new(WalledBoundary::new()),
        Box::new(MooreNeighborhood::new()),
    )
    .unwrap();
    a2.step_n(5);
    assert_eq!(a2.grid().count_alive(), 0);

    let mut a3: Automata<ConwayRule, WalledBoundary, VonNeumannNeighborhood> = Automata::new(
        4,
        6,
        Box::new(ConwayRule::new()),
        Box::new(WalledBoundary::new()),
        Box::new(VonNeumannNeighborhood::new()),
    )
    .unwrap();
    a3.step_n(5);
    assert_eq!(a3.grid().count_alive(), 0);
}

#[test]
fn test_determinism() {
    // Two engines constructed identically and seeded identically hold
    // identical grids after the same number of steps.
    let mut a = create_test_automata(6, 6);
    let mut b = create_test_automata(6, 6);
    let seeds = [(1, 1), (2, 1), (3, 1), (3, 2), (2, 3)];
    for &(x, y) in seeds.iter() {
        a.grid_mut().set(Position::new(x, y), CellState::Alive).unwrap();
        b.grid_mut().set(Position::new(x, y), CellState::Alive).unwrap();
    }
    a.step_n(7);
    b.step_n(7);
    assert_eq!(a.generation(), b.generation());
    for y in 0..6 {
        for x in 0..6 {
            let pos = Position::new(x, y);
            assert_eq!(a.grid().get(pos).unwrap(), b.grid().get(pos).unwrap());
        }
    }
}

#[test]
fn test_automata_new_invalid_dimensions() {
    let r = Automata::new(
        0,
        5,
        Box::new(ConwayRule::new()),
        Box::new(ToroidalBoundary::new()),
        Box::new(MooreNeighborhood::new()),
    );
    assert!(r.is_err());
    let r = Automata::new(
        5,
        0,
        Box::new(ConwayRule::new()),
        Box::new(ToroidalBoundary::new()),
        Box::new(MooreNeighborhood::new()),
    );
    assert!(r.is_err());
}

#[test]
fn test_toroidal_blinker_wraps_at_edge() {
    // A vertical blinker hugging the left edge: on a torus, the cell at
    // (0, 2) has neighbors at x = 4 via wrap-around.
    let mut automata = create_test_automata(5, 5);
    automata.grid_mut().set(Position::new(0, 1), CellState::Alive).unwrap();
    automata.grid_mut().set(Position::new(0, 2), CellState::Alive).unwrap();
    automata.grid_mut().set(Position::new(0, 3), CellState::Alive).unwrap();
    automata.step();
    assert_eq!(automata.grid().count_alive(), 3);
    assert_eq!(automata.grid().get(Position::new(4, 2)).unwrap(), CellState::Alive);
    assert_eq!(automata.grid().get(Position::new(0, 2)).unwrap(), CellState::Alive);
    assert_eq!(automata.grid().get(Position::new(1, 2)).unwrap(), CellState::Alive);
}
