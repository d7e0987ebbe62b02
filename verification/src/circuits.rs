use vstd::prelude::*;
use vstd::string::*;
use crate::model::{circuit_views, Circuit, CircuitView, Location};

verus! {

impl Location {
    /// A copy with the same texts.
    pub fn duplicate(&self) -> (r: Location)
        ensures
            r@ == self@,
    {
        Location {
            lat: self.lat.clone(),
            long: self.long.clone(),
            locality: self.locality.clone(),
            country: self.country.clone(),
        }
    }
}

impl Circuit {
    /// A copy with the same texts.
    pub fn duplicate(&self) -> (r: Circuit)
        ensures
            r@ == self@,
    {
        Circuit {
            circuit_id: self.circuit_id.clone(),
            url: self.url.clone(),
            circuit_name: self.circuit_name.clone(),
            location: self.location.duplicate(),
        }
    }
}

/// Position `i` of `entries` holds the circuit `id`.
pub open spec fn holds(entries: Seq<Circuit>, id: Seq<char>, i: int) -> bool {
    0 <= i < entries.len() && entries[i].circuit_id@ == id
}

/// No identifier occurs twice.
pub open spec fn distinct(entries: Seq<Circuit>) -> bool {
    forall|i: int, j: int|
        0 <= i < j < entries.len() ==> entries[i].circuit_id@ != entries[j].circuit_id@
}

/// The map that inserting the first `n` circuits of a listing, each under
/// its identifier and in the listing's order, leaves: of two circuits with
/// one identifier the later stays.
pub open spec fn indexed(listing: Seq<CircuitView>, n: int) -> Map<Seq<char>, CircuitView>
    decreases n,
{
    if n <= 0 {
        Map::empty()
    } else {
        indexed(listing, n - 1).insert(listing[n - 1].circuit_id, listing[n - 1])
    }
}

/// Circuits by identifier, built once and handed on to whoever looks one up.
#[derive(Clone, Debug, PartialEq, Eq)]
pub struct CircuitIndex {
    pub entries: Vec<Circuit>,
}

impl View for CircuitIndex {
    type V = Map<Seq<char>, CircuitView>;

    open spec fn view(&self) -> Map<Seq<char>, CircuitView> {
        Map::new(
            |id: Seq<char>| exists|i: int| holds(self.entries@, id, i),
            |id: Seq<char>| self.entries@[choose|i: int| holds(self.entries@, id, i)]@,
        )
    }
}

impl CircuitIndex {
    /// The index holds each identifier once.
    pub open spec fn well_formed(&self) -> bool {
        distinct(self.entries@)
    }

    /// An index without circuits.
    pub fn new() -> (r: CircuitIndex)
        ensures
            r.well_formed(),
            r@ == Map::<Seq<char>, CircuitView>::empty(),
    {
        let r = CircuitIndex { entries: Vec::new() };
        r
    }

    /// How many circuits the index holds.
    pub fn len(&self) -> (r: usize)
        ensures
            r == self.entries@.len(),
    {
        self.entries.len()
    }

    fn position(&self, id: &String) -> (r: Option<usize>)
        ensures
            match r {
                Some(p) => holds(self.entries@, id@, p as int),
                None => forall|i: int| !holds(self.entries@, id@, i),
            },
    {
        let mut i: usize = 0;
        while i < self.entries.len()
            invariant
                i <= self.entries.len(),
                forall|k: int| 0 <= k < i ==> !holds(self.entries@, id@, k),
            decreases self.entries.len() - i,
        {
            if self.entries[i].circuit_id == *id {
                return Some(i);
            }
            i = i + 1;
        }
        None
    }

    /// The circuit with the identifier `id`, if the index holds it.
    pub fn get(&self, id: &str) -> (r: Option<&Circuit>)
        requires
            self.well_formed(),
        ensures
            match r {
                Some(c) => self@.contains_key(id@) && self@[id@] == c@,
                None => !self@.contains_key(id@),
            },
    {
        let wanted = String::from_str(id);
        match self.position(&wanted) {
            Some(p) => Some(&self.entries[p]),
            None => None,
        }
    }

    /// Puts a circuit under its identifier, in place of the one that was
    /// there under it, if any.
    pub fn insert(&mut self, circuit: Circuit)
        requires
            old(self).well_formed(),
        ensures
            final(self).well_formed(),
            final(self)@ == old(self)@.insert(circuit.circuit_id@, circuit@),
    {
        let ghost before = self.entries@;
        let ghost id = circuit.circuit_id@;
        let ghost added = circuit@;
        match self.position(&circuit.circuit_id) {
            Some(p) => {
                self.entries.set(p, circuit);
                proof {
                    let after = self.entries@;
                    assert forall|k: Seq<char>, i: int| holds(after, k, i) == holds(
                        before,
                        k,
                        i,
                    ) by {}
                    assert forall|i: int, j: int| 0 <= i < j < after.len() implies after[i].circuit_id@
                        != after[j].circuit_id@ by {}
                    assert(self@ =~= old(self)@.insert(id, added));
                }
            },
            None => {
                self.entries.push(circuit);
                proof {
                    let after = self.entries@;
                    let n = before.len() as int;
                    assert(holds(after, id, n));
                    assert forall|k: Seq<char>, i: int| holds(after, k, i) == (holds(before, k, i)
                        || (k == id && i == n)) by {}
                    assert forall|i: int, j: int| 0 <= i < j < after.len() implies after[i].circuit_id@
                        != after[j].circuit_id@ by {
                        if j == n {
                            assert(!holds(before, id, i));
                        }
                    }
                    assert(self@ =~= old(self)@.insert(id, added));
                }
            },
        }
    }
}

/// Builds the index of a circuits listing.
pub fn index_circuits(circuits: &Vec<Circuit>) -> (r: CircuitIndex)
    ensures
        r.well_formed(),
        r@ == indexed(circuit_views(circuits@), circuits@.len() as int),
{
    let mut index = CircuitIndex::new();
    let mut i: usize = 0;
    while i < circuits.len()
        invariant
            i <= circuits.len(),
            index.well_formed(),
            index@ == indexed(circuit_views(circuits@), i as int),
        decreases circuits.len() - i,
    {
        index.insert(circuits[i].duplicate());
        i = i + 1;
    }
    index
}

} // verus!
