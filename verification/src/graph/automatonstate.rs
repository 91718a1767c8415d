use vstd::prelude::*;

use crate::graph::graphparser::characterjson::StateJSON;

verus! {

/// A state of a character's dialogue automaton.
#[derive(Debug)]
pub struct AutomatonState {
    pub text: String,
    pub transitions: Vec<String>,
}

impl AutomatonState {
    /// The state built from its description.
    pub open spec fn from_json(statejson: StateJSON) -> AutomatonState {
        AutomatonState { text: statejson.text, transitions: statejson.transitions }
    }

    /// A state keeps the line and the transitions of its description.
    pub proof fn lemma_from_json_keeps_description(statejson: StateJSON)
        ensures
            AutomatonState::from_json(statejson).text@ == statejson.text@,
            AutomatonState::from_json(statejson).transitions@ == statejson.transitions@,
    {
    }

    /// Builds a state from its description, keeping its line and its
    /// transitions as they are.
    pub fn create_state(statejson: StateJSON) -> (state: AutomatonState)
        ensures
            state == AutomatonState::from_json(statejson),
    {
        AutomatonState { text: statejson.text, transitions: statejson.transitions }
    }
}

} // verus!
