use cellularity::Automata;
use cellularity::CellState;
use cellularity::ControlAction;
use cellularity::ControlPanel;
use cellularity::ConwayRule;
use cellularity::Grid;
use cellularity::MooreNeighborhood;
use cellularity::Position;
use cellularity::ToroidalBoundary;
use cellularity::apply_action;

#[test]
fn control_tests_test_control_panel_initial_state() {
    let control_panel = ControlPanel::new(0);
    assert_eq!(control_panel.is_playing, false);
    assert_eq!(control_panel.generation, 0);
}

#[test]
fn control_tests_test_control_panel_play_action() {
    let mut control_panel = ControlPanel::new(5);
    assert_eq!(control_panel.is_playing, false);

    // Simulate play action
    control_panel.is_playing = true;
    assert_eq!(control_panel.is_playing, true);
}

#[test]
fn control_tests_test_control_panel_pause_action() {
    let mut control_panel = ControlPanel::new(10);
    control_panel.is_playing = true;
    assert_eq!(control_panel.is_playing, true);

    // Simulate pause action
    control_panel.is_playing = false;
    assert_eq!(control_panel.is_playing, false);
}

#[test]
fn control_tests_test_control_action_enum() {
    assert_eq!(ControlAction::Idle, ControlAction::Idle);
    assert_eq!(ControlAction::Play, ControlAction::Play);
    assert_eq!(ControlAction::Pause, ControlAction::Pause);
    assert_eq!(ControlAction::Step, ControlAction::Step);
    assert_eq!(ControlAction::Reset, ControlAction::Reset);
}

#[test]
fn control_tests_test_generation_counter() {
    let mut control_panel = ControlPanel::new(42);
    assert_eq!(control_panel.generation, 42);

    control_panel.generation = 100;
    assert_eq!(control_panel.generation, 100);
}

#[test]
fn control_panel_test_control_panel_initial_state() {
    let control_panel = ControlPanel::new(0);
    assert_eq!(control_panel.is_playing, false);
    assert_eq!(control_panel.generation, 0);
}

#[test]
fn control_panel_test_control_panel_play_action() {
    let mut control_panel = ControlPanel::new(5);
    assert_eq!(control_panel.is_playing, false);

    // Simulate play action
    control_panel.is_playing = true;
    assert_eq!(control_panel.is_playing, true);
}

#[test]
fn control_panel_test_control_panel_pause_action() {
    let mut control_panel = ControlPanel::new(10);
    control_panel.is_playing = true;
    assert_eq!(control_panel.is_playing, true);

    // Simulate pause action
    control_panel.is_playing = false;
    assert_eq!(control_panel.is_playing, false);
}

#[test]
fn control_panel_test_control_action_enum() {
    assert_eq!(ControlAction::Idle, ControlAction::Idle);
    assert_eq!(ControlAction::Play, ControlAction::Play);
    assert_eq!(ControlAction::Pause, ControlAction::Pause);
    assert_eq!(ControlAction::Step, ControlAction::Step);
    assert_eq!(ControlAction::Reset, ControlAction::Reset);
}

#[test]
fn control_panel_test_generation_counter() {
    let mut control_panel = ControlPanel::new(42);
    assert_eq!(control_panel.generation, 42);

    control_panel.generation = 100;
    assert_eq!(control_panel.generation, 100);
}


#[test]
fn test_apply_action_dispatch() {
    let mut automata: Automata<ConwayRule, ToroidalBoundary, MooreNeighborhood> = Automata::new(
        5,
        5,
        Box::new(ConwayRule::new()),
        Box::new(ToroidalBoundary::new()),
        Box::new(MooreNeighborhood::new()),
    )
    .unwrap();
    let mut panel = ControlPanel::new(0);

    apply_action(&mut panel, &mut automata, ControlAction::Play);
    assert!(panel.is_playing);
    assert_eq!(automata.generation(), 0);

    apply_action(&mut panel, &mut automata, ControlAction::Step);
    assert_eq!(automata.generation(), 1);
    assert_eq!(panel.generation, 1);
    assert!(panel.is_playing);

    apply_action(&mut panel, &mut automata, ControlAction::Pause);
    assert!(!panel.is_playing);
    assert_eq!(automata.generation(), 1);

    apply_action(&mut panel, &mut automata, ControlAction::Idle);
    assert!(!panel.is_playing);
    assert_eq!(automata.generation(), 1);

    automata.grid_mut().set(Position::new(2, 2), CellState::Alive).unwrap();
    apply_action(&mut panel, &mut automata, ControlAction::Reset);
    assert!(!panel.is_playing);
    assert_eq!(automata.generation(), 0);
    assert_eq!(panel.generation, 0);
    assert_eq!(automata.grid().count_alive(), 0);
}
