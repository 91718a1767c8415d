use vstd::prelude::*;

verus! {

/// One state of a character's dialogue automaton as the character's
/// description gives it: the line the character says in that state and the
/// names of the states it can move on to.
#[derive(Debug)]
pub struct StateJSON {
    pub text: String,
    pub transitions: Vec<String>,
}

/// A character's dialogue automaton as its description gives it: the name of
/// the state it starts in, and its states, each under its name. Where a name
/// occurs more than once, the last entry of that name is the one that counts.
#[derive(Debug)]
pub struct AutomatonJSON {
    pub initstate: String,
    pub states: Vec<(String, StateJSON)>,
}

} // verus!
