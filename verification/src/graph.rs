pub mod automaton;
pub mod automatonstate;
pub mod graphparser;
