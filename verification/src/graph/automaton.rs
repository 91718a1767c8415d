use vstd::prelude::*;

use vstd::hash_map::StringHashMap;

use crate::graph::automatonstate::AutomatonState;
use crate::graph::graphparser::characterjson::{AutomatonJSON, StateJSON};

verus! {

/// A character's dialogue automaton: the state it is in, and its states by name.
pub struct Automaton {
    state: String,
    statemap: StringHashMap<AutomatonState>,
}

/// The states named in `entries`, each built from the last entry of its name.
pub open spec fn states_from(entries: Seq<(String, StateJSON)>) -> Map<Seq<char>, AutomatonState>
    decreases entries.len(),
{
    if entries.len() == 0 {
        Map::empty()
    } else {
        states_from(entries.drop_last()).insert(
            entries.last().0@,
            AutomatonState::from_json(entries.last().1),
        )
    }
}

/// `i` is the last entry of `entries` named `name`.
pub open spec fn is_last_named(entries: Seq<(String, StateJSON)>, name: Seq<char>, i: int) -> bool {
    &&& 0 <= i < entries.len()
    &&& entries[i].0@ == name
    &&& forall|j: int| i < j < entries.len() ==> entries[j].0@ != name
}

impl Automaton {
    /// Name of the state the automaton is in.
    pub closed spec fn state_name(&self) -> Seq<char> {
        self.state@
    }

    /// The automaton's states, by name.
    pub closed spec fn states(&self) -> Map<Seq<char>, AutomatonState> {
        self.statemap@
    }

    /// Builds the automaton that a character's description gives: it starts in
    /// the description's initial state, and holds each state of the
    /// description under its name.
    pub fn create_automaton(automatonjson: AutomatonJSON) -> (automaton: Automaton)
        ensures
            automaton.state_name() == automatonjson.initstate@,
            automaton.states() == states_from(automatonjson.states@),
    {
        let AutomatonJSON { initstate, states } = automatonjson;
        let ghost entries = states@;
        let mut statemap = StringHashMap::with_capacity(states.len());
        for entry in it: states.into_iter()
            invariant
                it.seq() == entries,
                statemap@ == states_from(entries.take(it.index() as int)),
        {
            let (statename, statejson) = entry;
            proof {
                assert(entries.take(it.index() as int + 1).drop_last() =~= entries.take(it.index() as int));
            }
            statemap.insert(statename, AutomatonState::create_state(statejson));
        }
        proof {
            assert(entries.take(entries.len() as int) =~= entries);
        }
        Automaton { state: initstate, statemap }
    }

    /// Name of the state the automaton is in.
    pub fn current_state(&self) -> (name: &String)
        ensures
            name@ == self.state_name(),
    {
        &self.state
    }

    /// The state named `name`, if the automaton has one.
    pub fn get_state(&self, name: &str) -> (state: Option<&AutomatonState>)
        ensures
            match state {
                Some(s) => self.states().contains_key(name@) && *s == self.states()[name@],
                None => !self.states().contains_key(name@),
            },
    {
        self.statemap.get(name)
    }

    /// Number of states of the automaton.
    pub fn state_count(&self) -> (n: usize)
        ensures
            n == self.states().len(),
    {
        self.statemap.len()
    }
}

/// A name is the name of a state of the automaton built from `entries`
/// exactly when some entry bears it, and that state is built from the last
/// entry bearing it.
pub proof fn lemma_states_from_entries(entries: Seq<(String, StateJSON)>, name: Seq<char>)
    ensures
        states_from(entries).contains_key(name) <==> exists|i: int|
            0 <= i < entries.len() && #[trigger] entries[i].0@ == name,
        forall|i: int|
            is_last_named(entries, name, i) ==> states_from(entries)[name] == AutomatonState::from_json(
                #[trigger] entries[i].1,
            ),
    decreases entries.len(),
{
    if entries.len() > 0 {
        let prefix = entries.drop_last();
        lemma_states_from_entries(prefix, name);
        let n = entries.len() - 1;
        if entries[n].0@ != name {
            assert forall|i: int| is_last_named(entries, name, i) implies is_last_named(prefix, name, i) by {}
            if exists|i: int| 0 <= i < entries.len() && #[trigger] entries[i].0@ == name {
                let i = choose|i: int| 0 <= i < entries.len() && #[trigger] entries[i].0@ == name;
                assert(prefix[i].0@ == name);
            }
            assert forall|i: int| 0 <= i < prefix.len() && #[trigger] prefix[i].0@ == name implies entries[i].0@ == name by {}
        } else {
            assert forall|i: int| is_last_named(entries, name, i) implies i == n by {}
        }
    }
}

} // verus!
