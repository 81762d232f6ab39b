//! The aggregate of a run: one result per crate name, the latest one written.

use crate::outcome::{BuildResult, BuildResultView};
use vstd::hash_map::StringHashMap;
use vstd::prelude::*;

verus! {

/// A mapping from crate name to the result most recently recorded for it.
///
/// The entries lie in a vector, one for each name, and a hash index finds the
/// entry of a name.
pub struct AggregateManifest {
    entries: Vec<(String, BuildResult)>,
    index: StringHashMap<usize>,
}

impl View for AggregateManifest {
    type V = Map<Seq<char>, BuildResultView>;

    closed spec fn view(&self) -> Map<Seq<char>, BuildResultView> {
        Map::new(
            |name: Seq<char>| self.index@.contains_key(name),
            |name: Seq<char>| self.entries@[self.index@[name] as int].1@,
        )
    }
}

/// Whether `entries` holds exactly the pairs of `map`, each name once.
pub open spec fn lists(
    entries: Seq<(String, BuildResult)>,
    map: Map<Seq<char>, BuildResultView>,
) -> bool {
    &&& map.dom().finite()
    &&& map.dom().len() == entries.len()
    &&& forall|i: int|
        0 <= i < entries.len() ==> map.contains_key(#[trigger] entries[i].0@) && map[entries[i].0@]
            == entries[i].1@
    &&& forall|name: Seq<char>| #[trigger]
        map.contains_key(name) ==> exists|i: int|
            0 <= i < entries.len() && #[trigger] entries[i].0@ == name
    &&& forall|i: int, j: int|
        0 <= i < j < entries.len() ==> #[trigger] entries[i].0@ != #[trigger] entries[j].0@
}

impl AggregateManifest {
    #[verifier::type_invariant]
    spec fn well_formed(&self) -> bool {
        &&& self.index@.dom().finite()
        &&& self.index@.dom().len() == self.entries@.len()
        &&& forall|name: Seq<char>| #[trigger]
            self.index@.contains_key(name) ==> self.index@[name] < self.entries@.len()
                && self.entries@[self.index@[name] as int].0@ == name
        &&& forall|i: int|
            0 <= i < self.entries@.len() ==> self.index@.contains_key(
                #[trigger] self.entries@[i].0@,
            ) && self.index@[self.entries@[i].0@] == i
    }

    /// The manifest of a run that has visited nothing yet.
    pub fn new() -> (manifest: AggregateManifest)
        ensures
            manifest@ == Map::<Seq<char>, BuildResultView>::empty(),
    {
        let manifest = AggregateManifest { entries: Vec::new(), index: StringHashMap::new() };
        assert(manifest@ =~= Map::<Seq<char>, BuildResultView>::empty());
        manifest
    }

    /// Writes `result` as the result of `crate_name`, in place of any result
    /// recorded for that name before. No other entry changes.
    pub fn record(&mut self, crate_name: String, result: BuildResult)
        ensures
            final(self)@ == old(self)@.insert(crate_name@, result@),
    {
        proof {
            use_type_invariant(&*self);
        }
        let mut taken = AggregateManifest::new();
        std::mem::swap(self, &mut taken);
        let AggregateManifest { mut entries, mut index } = taken;
        let found = match index.get(crate_name.as_str()) {
            Some(position) => Some(*position),
            None => None,
        };
        match found {
            Some(position) => {
                entries.set(position, (crate_name, result));
            },
            None => {
                index.insert(crate_name.clone(), entries.len());
                entries.push((crate_name, result));
            },
        }
        *self = AggregateManifest { entries, index };
    }

    /// The number of crates that have a result.
    pub fn len(&self) -> (count: usize)
        ensures
            self@.dom().finite(),
            count == self@.dom().len(),
    {
        proof {
            use_type_invariant(self);
            assert(self@.dom() =~= self.index@.dom());
        }
        self.entries.len()
    }

    /// The result recorded for `crate_name`, if there is one.
    pub fn get(&self, crate_name: &str) -> (result: Option<&BuildResult>)
        ensures
            match result {
                Some(found) => self@.contains_key(crate_name@) && found@ == self@[crate_name@],
                None => !self@.contains_key(crate_name@),
            },
    {
        proof {
            use_type_invariant(self);
        }
        match self.index.get(crate_name) {
            Some(position) => Some(&self.entries[*position].1),
            None => None,
        }
    }

    /// The entries of the manifest: each name that has a result, once, with
    /// that result.
    pub fn entries(&self) -> (entries: &Vec<(String, BuildResult)>)
        ensures
            lists(entries@, self@),
    {
        proof {
            use_type_invariant(self);
            assert(self@.dom() =~= self.index@.dom());
        }
        &self.entries
    }

    /// Gives up the manifest for its entries: each name that has a result,
    /// once, with that result.
    pub fn into_entries(self) -> (entries: Vec<(String, BuildResult)>)
        ensures
            lists(entries@, self@),
    {
        proof {
            use_type_invariant(&self);
            assert(self@.dom() =~= self.index@.dom());
        }
        self.entries
    }
}

/// The mapping that results from recording `pairs` one after another, from
/// the first to the last, into an empty manifest.
pub open spec fn recorded(pairs: Seq<(Seq<char>, BuildResultView)>) -> Map<
    Seq<char>,
    BuildResultView,
>
    decreases pairs.len(),
{
    if pairs.len() == 0 {
        Map::empty()
    } else {
        recorded(pairs.drop_last()).insert(pairs.last().0, pairs.last().1)
    }
}

/// Whether no name occurs twice in `pairs`.
pub open spec fn names_distinct(pairs: Seq<(Seq<char>, BuildResultView)>) -> bool {
    forall|i: int, j: int| 0 <= i < j < pairs.len() ==> (#[trigger] pairs[i]).0 != (#[trigger] pairs[j]).0
}

/// The names in the mapping are the names that were recorded.
pub proof fn lemma_recorded_names(pairs: Seq<(Seq<char>, BuildResultView)>, name: Seq<char>)
    ensures
        recorded(pairs).contains_key(name) <==> exists|i: int|
            0 <= i < pairs.len() && (#[trigger] pairs[i]).0 == name,
    decreases pairs.len(),
{
    if pairs.len() > 0 {
        let front = pairs.drop_last();
        lemma_recorded_names(front, name);
        if recorded(front).contains_key(name) {
            let i = choose|i: int| 0 <= i < front.len() && (#[trigger] front[i]).0 == name;
            assert(pairs[i].0 == name);
        }
        if exists|i: int| 0 <= i < pairs.len() && (#[trigger] pairs[i]).0 == name {
            let i = choose|i: int| 0 <= i < pairs.len() && (#[trigger] pairs[i]).0 == name;
            if i < front.len() {
                assert(front[i].0 == name);
            }
        }
    }
}

/// Last write wins: a name maps to the result of the last pair recorded
/// under it.
pub proof fn lemma_last_write_wins(pairs: Seq<(Seq<char>, BuildResultView)>, i: int)
    requires
        0 <= i < pairs.len(),
        forall|j: int| i < j < pairs.len() ==> (#[trigger] pairs[j]).0 != pairs[i].0,
    ensures
        recorded(pairs).contains_key(pairs[i].0),
        recorded(pairs)[pairs[i].0] == pairs[i].1,
    decreases pairs.len(),
{
    if i < pairs.len() - 1 {
        let front = pairs.drop_last();
        assert forall|j: int| i < j < front.len() implies (#[trigger] front[j]).0 != front[i].0 by {
            assert(pairs[j].0 != pairs[i].0);
        }
        lemma_last_write_wins(front, i);
        assert(pairs.last().0 != pairs[i].0);
    }
}

/// The mapping never holds more entries than pairs were recorded, and holds
/// as many exactly when no name was recorded twice.
pub proof fn lemma_recorded_size(pairs: Seq<(Seq<char>, BuildResultView)>)
    ensures
        recorded(pairs).dom().finite(),
        recorded(pairs).dom().len() <= pairs.len(),
        recorded(pairs).dom().len() == pairs.len() <==> names_distinct(pairs),
    decreases pairs.len(),
{
    if pairs.len() > 0 {
        let front = pairs.drop_last();
        let last = pairs.last();
        lemma_recorded_size(front);
        lemma_recorded_names(front, last.0);
        // The last name is new exactly when no earlier pair has it, so the
        // mapping is full exactly when the front is full and the last name new.
        if names_distinct(pairs) {
            assert(names_distinct(front)) by {
                assert forall|i: int, j: int| 0 <= i < j < front.len() implies (#[trigger] front[i]).0
                    != (#[trigger] front[j]).0 by {
                    assert(pairs[i].0 != pairs[j].0);
                }
            }
            assert(!recorded(front).contains_key(last.0)) by {
                if recorded(front).contains_key(last.0) {
                    let i = choose|i: int|
                        0 <= i < front.len() && (#[trigger] front[i]).0 == last.0;
                    assert(pairs[i].0 != pairs[pairs.len() - 1].0);
                }
            }
        }
        if recorded(pairs).dom().len() == pairs.len() {
            assert forall|i: int, j: int| 0 <= i < j < pairs.len() implies (#[trigger] pairs[i]).0
                != (#[trigger] pairs[j]).0 by {
                if j < front.len() {
                    assert(front[i].0 != front[j].0);
                } else {
                    assert(front[i].0 != last.0);
                }
            }
        }
    }
}

} // verus!
