//! The fabrics that a dispatcher knows, each with its state, by name. No
//! name occurs twice.
//!
//! The entries stand in a vector and are found by comparing names. The
//! maps of the standard library are modelled by vstd for keys whose
//! hashing it knows, which are integers and not strings: of a map keyed
//! by `String` not even that an inserted name is contained can be
//! proved. The view of the registry is the map that a keyed collection
//! would give.

use super::blocks::ActuatorsCommand;
use super::fabric::V0Fabric;
use super::state::{command_applied, V0FabricState};
use vstd::prelude::*;

verus! {

/// A fabric and the state that is kept for it.
#[derive(Debug)]
pub struct Registered {
    /// The fabric.
    pub fabric: V0Fabric,
    /// The last command that has reached its transponders.
    pub state: V0FabricState,
}

/// The fabrics of a dispatcher, by name.
#[derive(Debug)]
pub struct Registry {
    entries: Vec<Registered>,
}

/// Whether no two entries have the same name.
pub open spec fn names_distinct(entries: Seq<Registered>) -> bool {
    forall|i: int, j: int|
        0 <= i < j < entries.len() ==> (#[trigger] entries[i]).fabric.name@ != (
        #[trigger] entries[j]).fabric.name@
}

/// Whether the entry at `at` has the name `name`.
pub open spec fn named_at(entries: Seq<Registered>, name: Seq<char>, at: int) -> bool {
    0 <= at < entries.len() && entries[at].fabric.name@ == name
}

/// Whether an entry has the name `name`.
pub open spec fn listed(entries: Seq<Registered>, name: Seq<char>) -> bool {
    exists|at: int| named_at(entries, name, at)
}

/// The place of the entry with the name `name`.
pub open spec fn position(entries: Seq<Registered>, name: Seq<char>) -> int {
    choose|at: int| named_at(entries, name, at)
}

/// The entries by name.
pub open spec fn by_name(entries: Seq<Registered>) -> Map<Seq<char>, Registered> {
    Map::new(
        |name: Seq<char>| listed(entries, name),
        |name: Seq<char>| entries[position(entries, name)],
    )
}

/// Among distinct names, an entry is found at its own place.
proof fn lemma_position(entries: Seq<Registered>, at: int)
    requires
        names_distinct(entries),
        0 <= at < entries.len(),
    ensures
        listed(entries, entries[at].fabric.name@),
        position(entries, entries[at].fabric.name@) == at,
        by_name(entries)[entries[at].fabric.name@] == entries[at],
{
    let name = entries[at].fabric.name@;
    assert(named_at(entries, name, at));
    let found = position(entries, name);
    assert(named_at(entries, name, found));
    if found < at {
        assert(entries[found].fabric.name@ != entries[at].fabric.name@);
    } else if at < found {
        assert(entries[at].fabric.name@ != entries[found].fabric.name@);
    }
}

/// An entry with a new name behind the others is one more name.
proof fn lemma_pushed(entries: Seq<Registered>, entry: Registered)
    requires
        names_distinct(entries),
        !listed(entries, entry.fabric.name@),
    ensures
        names_distinct(entries.push(entry)),
        by_name(entries.push(entry)) == by_name(entries).insert(entry.fabric.name@, entry),
{
    let after = entries.push(entry);
    assert forall|i: int, j: int| 0 <= i < j < after.len() implies (#[trigger] after[i]).fabric.name@
        != (#[trigger] after[j]).fabric.name@ by {
        if j == entries.len() {
            assert(!named_at(entries, entry.fabric.name@, i));
        } else {
            assert(entries[i].fabric.name@ != entries[j].fabric.name@);
        }
    }
    let expected = by_name(entries).insert(entry.fabric.name@, entry);
    assert forall|name: Seq<char>| by_name(after).dom().contains(name) <==> expected.dom().contains(
        name,
    ) by {
        if listed(after, name) {
            let at = position(after, name);
            assert(named_at(after, name, at));
            if at < entries.len() {
                assert(named_at(entries, name, at));
            }
        }
        if listed(entries, name) {
            let at = position(entries, name);
            assert(named_at(entries, name, at));
            assert(named_at(after, name, at));
        }
        if name == entry.fabric.name@ {
            assert(named_at(after, name, entries.len() as int));
        }
    }
    assert forall|name: Seq<char>| by_name(after).dom().contains(name) implies by_name(after)[name]
        == expected[name] by {
        let at = position(after, name);
        assert(named_at(after, name, at));
        lemma_position(after, at);
        if at < entries.len() {
            lemma_position(entries, at);
        }
    }
    assert(by_name(after) =~= expected);
}

/// Another entry under the same name, in the same place, is the same
/// names with one of them updated.
proof fn lemma_replaced(entries: Seq<Registered>, at: int, entry: Registered)
    requires
        names_distinct(entries),
        0 <= at < entries.len(),
        entries[at].fabric.name@ == entry.fabric.name@,
    ensures
        names_distinct(entries.update(at, entry)),
        by_name(entries.update(at, entry)) == by_name(entries).insert(entry.fabric.name@, entry),
{
    let after = entries.update(at, entry);
    assert forall|i: int, j: int| 0 <= i < j < after.len() implies (#[trigger] after[i]).fabric.name@
        != (#[trigger] after[j]).fabric.name@ by {
        assert(entries[i].fabric.name@ != entries[j].fabric.name@);
    }
    let expected = by_name(entries).insert(entry.fabric.name@, entry);
    assert forall|name: Seq<char>| by_name(after).dom().contains(name) <==> expected.dom().contains(
        name,
    ) by {
        if listed(after, name) {
            let found = position(after, name);
            assert(named_at(after, name, found));
            assert(named_at(entries, name, found));
        }
        if listed(entries, name) {
            let found = position(entries, name);
            assert(named_at(entries, name, found));
            assert(named_at(after, name, found));
        }
        if name == entry.fabric.name@ {
            assert(named_at(after, name, at));
        }
    }
    assert forall|name: Seq<char>| by_name(after).dom().contains(name) implies by_name(after)[name]
        == expected[name] by {
        let found = position(after, name);
        assert(named_at(after, name, found));
        lemma_position(after, found);
        lemma_position(entries, found);
    }
    assert(by_name(after) =~= expected);
}

/// Without one of the entries, the names are the others.
proof fn lemma_removed(entries: Seq<Registered>, at: int)
    requires
        names_distinct(entries),
        0 <= at < entries.len(),
    ensures
        names_distinct(entries.remove(at)),
        !listed(entries.remove(at), entries[at].fabric.name@),
        by_name(entries.remove(at)) == by_name(entries).remove(entries[at].fabric.name@),
{
    let after = entries.remove(at);
    let gone = entries[at].fabric.name@;
    let shifted = |i: int|
        if i < at {
            i
        } else {
            i + 1
        };
    assert forall|i: int| 0 <= i < after.len() implies #[trigger] after[i] == entries[shifted(i)] by {}
    assert forall|i: int, j: int| 0 <= i < j < after.len() implies (#[trigger] after[i]).fabric.name@
        != (#[trigger] after[j]).fabric.name@ by {
        assert(after[i] == entries[shifted(i)]);
        assert(after[j] == entries[shifted(j)]);
        assert(entries[shifted(i)].fabric.name@ != entries[shifted(j)].fabric.name@);
    }
    assert forall|i: int| 0 <= i < after.len() implies (#[trigger] after[i]).fabric.name@ != gone by {
        assert(after[i] == entries[shifted(i)]);
        if shifted(i) < at {
            assert(entries[shifted(i)].fabric.name@ != entries[at].fabric.name@);
        } else {
            assert(entries[at].fabric.name@ != entries[shifted(i)].fabric.name@);
        }
    }
    if listed(after, gone) {
        let found = position(after, gone);
        assert(named_at(after, gone, found));
        assert(after[found].fabric.name@ != gone);
    }
    let expected = by_name(entries).remove(gone);
    assert forall|name: Seq<char>| by_name(after).dom().contains(name) <==> expected.dom().contains(
        name,
    ) by {
        if listed(after, name) {
            let found = position(after, name);
            assert(named_at(after, name, found));
            assert(after[found] == entries[shifted(found)]);
            assert(named_at(entries, name, shifted(found)));
            assert(after[found].fabric.name@ != gone);
        }
        if listed(entries, name) && name != gone {
            let found = position(entries, name);
            assert(named_at(entries, name, found));
            let back = if found < at {
                found
            } else {
                found - 1
            };
            assert(after[back] == entries[shifted(back)]);
            assert(named_at(after, name, back));
        }
    }
    assert forall|name: Seq<char>| by_name(after).dom().contains(name) implies by_name(after)[name]
        == expected[name] by {
        let found = position(after, name);
        assert(named_at(after, name, found));
        lemma_position(after, found);
        assert(after[found] == entries[shifted(found)]);
        lemma_position(entries, shifted(found));
    }
    assert(by_name(after) =~= expected);
}

impl Registry {
    #[verifier::type_invariant]
    spec fn distinct(self) -> bool {
        names_distinct(self.entries@)
    }

    /// The fabrics and their states, by name.
    pub closed spec fn view(&self) -> Map<Seq<char>, Registered> {
        by_name(self.entries@)
    }

    /// A registry without fabrics.
    pub fn new() -> (registry: Registry)
        ensures
            registry@ == Map::<Seq<char>, Registered>::empty(),
    {
        let registry = Registry { entries: Vec::new() };
        proof {
            assert(by_name(registry.entries@) =~= Map::<Seq<char>, Registered>::empty()) by {
                assert forall|name: Seq<char>| !listed(registry.entries@, name) by {
                    if listed(registry.entries@, name) {
                        let at = position(registry.entries@, name);
                        assert(named_at(registry.entries@, name, at));
                    }
                }
            }
        }
        registry
    }

    /// Takes the entries out and leaves none behind.
    fn take(&mut self) -> (entries: Vec<Registered>)
        ensures
            entries@ == old(self).entries@,
            final(self).entries@.len() == 0,
    {
        let mut taken = Registry { entries: Vec::new() };
        core::mem::swap(self, &mut taken);
        let Registry { entries } = taken;
        entries
    }

    /// The place of the fabric `name`, where it is registered.
    fn find(&self, name: &str) -> (place: Option<usize>)
        ensures
            match place {
                Some(at) => named_at(self.entries@, name@, at as int),
                None => !listed(self.entries@, name@),
            },
    {
        let wanted = String::from_str(name);
        let mut i: usize = 0;
        while i < self.entries.len()
            invariant
                i <= self.entries.len(),
                wanted@ == name@,
                forall|at: int| 0 <= at < i ==> !named_at(self.entries@, name@, at),
            decreases self.entries.len() - i,
        {
            if self.entries[i].fabric.name == wanted {
                return Some(i);
            }
            i = i + 1;
        }
        proof {
            if listed(self.entries@, name@) {
                let at = position(self.entries@, name@);
                assert(named_at(self.entries@, name@, at));
            }
        }
        None
    }

    /// Whether the fabric `name` is registered.
    pub fn contains(&self, name: &str) -> (registered: bool)
        ensures
            registered == self@.contains_key(name@),
    {
        self.find(name).is_some()
    }

    /// The fabric `name` and its state, where it is registered.
    pub fn get(&self, name: &str) -> (entry: Option<&Registered>)
        ensures
            entry is Some <==> self@.contains_key(name@),
            entry is Some ==> *entry->Some_0 == self@[name@],
    {
        proof {
            use_type_invariant(self);
        }
        match self.find(name) {
            Some(at) => {
                proof {
                    lemma_position(self.entries@, at as int);
                }
                Some(&self.entries[at])
            },
            None => None,
        }
    }

    /// Registers a fabric with its state. A fabric that is registered
    /// under the same name gives way to it.
    pub fn insert(&mut self, fabric: V0Fabric, state: V0FabricState)
        ensures
            final(self)@ == old(self)@.insert(fabric.name@, Registered { fabric, state }),
    {
        proof {
            use_type_invariant(&*self);
        }
        let place = self.find(fabric.name.as_str());
        let entry = Registered { fabric, state };
        let mut entries = self.take();
        match place {
            Some(at) => {
                proof {
                    lemma_replaced(entries@, at as int, entry);
                }
                entries.set(at, entry);
            },
            None => {
                proof {
                    lemma_pushed(entries@, entry);
                }
                entries.push(entry);
            },
        }
        *self = Registry { entries };
    }

    /// Removes the fabric `name` and its state, and returns them where the
    /// fabric was registered.
    pub fn remove(&mut self, name: &str) -> (entry: Option<Registered>)
        ensures
            final(self)@ == old(self)@.remove(name@),
            entry is Some <==> old(self)@.contains_key(name@),
            entry is Some ==> entry->Some_0 == old(self)@[name@],
    {
        proof {
            use_type_invariant(&*self);
        }
        match self.find(name) {
            Some(at) => {
                proof {
                    lemma_position(self.entries@, at as int);
                    lemma_removed(self.entries@, at as int);
                }
                let mut entries = self.take();
                let entry = entries.remove(at);
                *self = Registry { entries };
                Some(entry)
            },
            None => {
                proof {
                    assert(self@.remove(name@) =~= self@);
                }
                None
            },
        }
    }

    /// Records that `command` has reached the transponders of the fabric
    /// `name`. Returns whether the fabric is registered; where it is not,
    /// nothing changes.
    pub fn apply(&mut self, name: &str, command: ActuatorsCommand) -> (applied: bool)
        ensures
            applied == old(self)@.contains_key(name@),
            !applied ==> final(self)@ == old(self)@,
            applied ==> {
                &&& final(self)@.dom() == old(self)@.dom()
                &&& forall|other: Seq<char>|
                    other != name@ && old(self)@.contains_key(other) ==> final(self)@[other]
                        == old(self)@[other]
                &&& final(self)@[name@].fabric == old(self)@[name@].fabric
                &&& final(self)@[name@].state@ == command_applied(
                    old(self)@[name@].state@,
                    command,
                )
            },
    {
        proof {
            use_type_invariant(&*self);
        }
        match self.find(name) {
            Some(at) => {
                proof {
                    lemma_position(self.entries@, at as int);
                    lemma_removed(self.entries@, at as int);
                }
                let mut entries = self.take();
                let mut entry = entries.remove(at);
                let ghost rest = entries@;
                entry.state.apply(command);
                proof {
                    lemma_pushed(rest, entry);
                    assert(by_name(rest).insert(name@, entry).dom() =~= old(self)@.dom());
                }
                entries.push(entry);
                *self = Registry { entries };
                true
            },
            None => false,
        }
    }
}

} // verus!
