use vstd::prelude::*;

use crate::automata::Automata;
use crate::automata::next_generation;
use crate::boundary::Boundary;
use crate::neighborhood::Neighborhood;
use crate::rules::Rule;

verus! {

/// The state of the simulation controls: whether the simulation is playing,
/// and the generation count on display.
#[derive(Debug)]
pub struct ControlPanel {
    /// Whether the simulation is currently running
    pub is_playing: bool,
    /// Current generation count
    pub generation: u64,
}

impl ControlPanel {
    /// Creates a paused control panel showing the given generation.
    pub fn new(generation: u64) -> (r: Self)
        ensures
            r.is_playing == false,
            r.generation == generation,
    {
        ControlPanel { is_playing: false, generation }
    }
}

/// An action requested through the simulation controls. `Idle` stands for
/// "no action requested this frame".
#[derive(Debug, PartialEq, Eq, Structural)]
pub enum ControlAction {
    Idle,
    Play,
    Pause,
    Step,
    Reset,
}

/// Applies one control action to the engine and the panel: `Play` and
/// `Pause` flip the playing flag, `Step` advances the engine one
/// generation, `Reset` clears the engine and forces a pause, and `Idle`
/// changes nothing. Afterwards the panel displays the engine's generation.
pub fn apply_action<R: Rule, B: Boundary, N: Neighborhood>(
    panel: &mut ControlPanel,
    automata: &mut Automata<R, B, N>,
    action: ControlAction,
)
    requires
        old(automata).wf(),
        action is Step ==> old(automata).spec_generation() < u64::MAX,
    ensures
        final(automata).wf(),
        final(panel).generation == final(automata).spec_generation(),
        action is Play ==> final(panel).is_playing && *final(automata) == *old(automata),
        action is Pause ==> !final(panel).is_playing && *final(automata) == *old(automata),
        action is Idle ==> final(panel).is_playing == old(panel).is_playing && *final(automata)
            == *old(automata),
        action is Step ==> {
            &&& final(panel).is_playing == old(panel).is_playing
            &&& final(automata).spec_generation() == old(automata).spec_generation() + 1
            &&& final(automata).spec_grid() == next_generation(
                old(automata).spec_grid(),
                old(automata).spec_rule(),
                old(automata).spec_boundary(),
                old(automata).spec_neighborhood(),
            )
        },
        action is Reset ==> {
            &&& !final(panel).is_playing
            &&& final(automata).spec_generation() == 0
            &&& final(automata).spec_grid().all_dead()
            &&& final(automata).spec_grid().width == old(automata).spec_grid().width
            &&& final(automata).spec_grid().height == old(automata).spec_grid().height
        },
{
    match action {
        ControlAction::Play => {
            panel.is_playing = true;
        },
        ControlAction::Pause => {
            panel.is_playing = false;
        },
        ControlAction::Step => {
            automata.step();
        },
        ControlAction::Reset => {
            automata.reset();
            panel.is_playing = false;
        },
        ControlAction::Idle => {},
    }
    panel.generation = automata.generation();
}

} // verus!
