pub mod automata;
pub mod boundary;
pub mod cell;
pub mod control;
pub mod dense_grid;
pub mod error;
pub mod grid;
pub mod moore_neighborhood;
pub mod neighborhood;
pub mod rules;
pub mod toroidal_boundary;
pub mod von_neumann_neighborhood;
pub mod walled_boundary;

pub use automata::Automata;
pub use boundary::Boundary;
pub use cell::CellState;
pub use cell::Position;
pub use control::ControlAction;
pub use control::ControlPanel;
pub use control::apply_action;
pub use dense_grid::DenseGrid;
pub use error::Error;
pub use grid::Grid;
pub use grid::GridModel;
pub use moore_neighborhood::MooreNeighborhood;
pub use neighborhood::Neighborhood;
pub use rules::ConwayRule;
pub use rules::Rule;
pub use toroidal_boundary::ToroidalBoundary;
pub use von_neumann_neighborhood::VonNeumannNeighborhood;
pub use walled_boundary::WalledBoundary;
