//! The lookup table from a state's identity to the handler registered for it.

use vstd::prelude::*;
use crate::dice::StateDice;
use crate::handlers::{Handler, StatePowerOff, StatePowerOn, StateStop};

verus! {

/// A table of handlers, keyed by the identity they are registered under.
///
/// An identity has at most one handler: registering a second one under the
/// same identity replaces the first. The table is read through its view, a
/// map from identities to handlers.
pub struct StateTable {
    entries: Vec<(StateDice, Handler)>,
}

/// The handlers of the dice, each under its own identity.
pub open spec fn dice_handlers() -> Map<StateDice, Handler> {
    Map::<StateDice, Handler>::empty()
        .insert(StateDice::PowerOn, Handler::PowerOn(StatePowerOn))
        .insert(StateDice::StopDice, Handler::Stop(StateStop))
        .insert(StateDice::PowerOff, Handler::PowerOff(StatePowerOff))
}

impl View for StateTable {
    type V = Map<StateDice, Handler>;

    closed spec fn view(&self) -> Map<StateDice, Handler> {
        registrations(self.entries@)
    }
}

impl StateTable {
    /// No identity is registered twice.
    #[verifier::type_invariant]
    closed spec fn well_formed(self) -> bool {
        distinct_identities(self.entries@)
    }

    /// A table with no handler registered.
    pub fn new() -> (table: StateTable)
        ensures
            table@ == Map::<StateDice, Handler>::empty(),
    {
        StateTable { entries: Vec::new() }
    }

    /// The number of identities that have a handler registered.
    pub fn len(&self) -> (count: usize)
        ensures
            self@.dom().finite(),
            count == self@.dom().len(),
    {
        proof {
            use_type_invariant(self);
            lemma_count(self.entries@);
        }
        self.entries.len()
    }

    /// The handler registered under `key`, if there is one.
    pub fn get(&self, key: &StateDice) -> (found: Option<&Handler>)
        ensures
            self@.contains_key(*key) ==> found == Some(&self@[*key]),
            !self@.contains_key(*key) ==> found is None,
    {
        proof {
            use_type_invariant(self);
        }
        match place_of(&self.entries, *key) {
            Some(i) => {
                proof {
                    lemma_registration_at(self.entries@, i as int);
                }
                Some(&self.entries[i].1)
            },
            None => None,
        }
    }

    /// Registers `handler` under `key` and returns the handler that was
    /// registered there until now, if there was one.
    pub fn insert(&mut self, key: StateDice, handler: Handler) -> (previous: Option<Handler>)
        ensures
            final(self)@ == old(self)@.insert(key, handler),
            old(self)@.contains_key(key) ==> previous == Some(old(self)@[key]),
            !old(self)@.contains_key(key) ==> previous is None,
    {
        proof {
            use_type_invariant(&*self);
        }
        // The entries are taken out, changed, and put back, so that the
        // table never holds a list that is only half changed.
        let mut entries: Vec<(StateDice, Handler)> = Vec::new();
        core::mem::swap(&mut self.entries, &mut entries);
        let previous = match place_of(&entries, key) {
            Some(i) => {
                proof {
                    lemma_registration_at(entries@, i as int);
                    lemma_replaced(entries@, i as int, handler);
                }
                let replaced = entries[i].1;
                entries.set(i, (key, handler));
                Some(replaced)
            },
            None => {
                proof {
                    lemma_appended(entries@, key, handler);
                }
                entries.push((key, handler));
                None
            },
        };
        core::mem::swap(&mut self.entries, &mut entries);
        previous
    }

    /// The table of the dice: each of the three identities with its own
    /// handler.
    pub fn standard() -> (table: StateTable)
        ensures
            table@ == dice_handlers(),
    {
        let mut table = StateTable::new();
        table.insert(StateDice::PowerOn, Handler::PowerOn(StatePowerOn));
        table.insert(StateDice::StopDice, Handler::Stop(StateStop));
        table.insert(StateDice::PowerOff, Handler::PowerOff(StatePowerOff));
        table
    }
}

/// The place in `entries` of the handler registered under `key`, if there is
/// one.
fn place_of(entries: &Vec<(StateDice, Handler)>, key: StateDice) -> (place: Option<usize>)
    ensures
        match place {
            Some(i) => registered_at(entries@, key, i as int),
            None => forall|j: int| !registered_at(entries@, key, j),
        },
{
    let mut i: usize = 0;
    while i < entries.len()
        invariant
            i <= entries@.len(),
            forall|j: int| 0 <= j < i ==> entries@[j].0 != key,
        decreases entries@.len() - i,
    {
        if entries[i].0 == key {
            return Some(i);
        }
        i += 1;
    }
    None
}

/// Whether `i` is the place in `entries` of the handler registered under `key`.
spec fn registered_at(entries: Seq<(StateDice, Handler)>, key: StateDice, i: int) -> bool {
    0 <= i < entries.len() && entries[i].0 == key
}

/// The map that a list of registrations with distinct identities stands for.
spec fn registrations(entries: Seq<(StateDice, Handler)>) -> Map<StateDice, Handler> {
    Map::new(
        |key: StateDice| exists|i: int| registered_at(entries, key, i),
        |key: StateDice| entries[choose|i: int| registered_at(entries, key, i)].1,
    )
}

/// Whether no identity occurs twice in `entries`.
spec fn distinct_identities(entries: Seq<(StateDice, Handler)>) -> bool {
    forall|i: int, j: int| 0 <= i < j < entries.len() ==> entries[i].0 != entries[j].0
}

/// In a list with distinct identities, the entry at place `i` is what the
/// map holds under that entry's identity.
proof fn lemma_registration_at(entries: Seq<(StateDice, Handler)>, i: int)
    requires
        distinct_identities(entries),
        0 <= i < entries.len(),
    ensures
        registrations(entries).contains_key(entries[i].0),
        registrations(entries)[entries[i].0] == entries[i].1,
{
    assert(registered_at(entries, entries[i].0, i));
}

/// A list with distinct identities stands for a map with as many keys as
/// the list has entries.
proof fn lemma_count(entries: Seq<(StateDice, Handler)>)
    requires
        distinct_identities(entries),
    ensures
        registrations(entries).dom().finite(),
        registrations(entries).dom().len() == entries.len(),
    decreases entries.len(),
{
    if entries.len() == 0 {
        assert(registrations(entries).dom() =~= Set::<StateDice>::empty());
    } else {
        let front = entries.drop_last();
        let (key, handler) = entries.last();
        assert(forall|j: int| !registered_at(front, key, j));
        lemma_count(front);
        lemma_appended(front, key, handler);
        assert(entries =~= front.push((key, handler)));
    }
}

/// Replacing the handler at place `i` keeps the identities distinct and
/// changes the map under that one identity only.
proof fn lemma_replaced(entries: Seq<(StateDice, Handler)>, i: int, handler: Handler)
    requires
        distinct_identities(entries),
        0 <= i < entries.len(),
    ensures
        distinct_identities(entries.update(i, (entries[i].0, handler))),
        registrations(entries.update(i, (entries[i].0, handler)))
            == registrations(entries).insert(entries[i].0, handler),
{
    let key = entries[i].0;
    let updated = entries.update(i, (key, handler));
    assert forall|k: StateDice| #[trigger] registrations(updated).contains_key(k)
        <==> registrations(entries).insert(key, handler).contains_key(k) by {
        if registrations(updated).contains_key(k) {
            let j = choose|j: int| registered_at(updated, k, j);
            assert(registered_at(entries, k, j));
        }
        if registrations(entries).contains_key(k) {
            let j = choose|j: int| registered_at(entries, k, j);
            assert(registered_at(updated, k, j));
        }
        assert(registered_at(updated, key, i));
    }
    assert forall|k: StateDice| registrations(updated).contains_key(k) implies
        #[trigger] registrations(updated)[k] == registrations(entries).insert(key, handler)[k] by {
        let j = choose|j: int| registered_at(updated, k, j);
        lemma_registration_at(updated, j);
        if k != key {
            lemma_registration_at(entries, j);
        }
    }
}

/// Appending a handler under an identity that has none yet keeps the
/// identities distinct and adds that one registration to the map.
proof fn lemma_appended(entries: Seq<(StateDice, Handler)>, key: StateDice, handler: Handler)
    requires
        distinct_identities(entries),
        forall|j: int| !registered_at(entries, key, j),
    ensures
        distinct_identities(entries.push((key, handler))),
        registrations(entries.push((key, handler))) == registrations(entries).insert(key, handler),
        !registrations(entries).contains_key(key),
{
    let pushed = entries.push((key, handler));
    let last = entries.len() as int;
    assert forall|i: int, j: int| 0 <= i < j < pushed.len() implies pushed[i].0 != pushed[j].0 by {
        if j == last {
            assert(!registered_at(entries, key, i));
        }
    }
    assert(registered_at(pushed, key, last));
    assert forall|k: StateDice| #[trigger] registrations(pushed).contains_key(k)
        <==> registrations(entries).insert(key, handler).contains_key(k) by {
        if registrations(pushed).contains_key(k) && k != key {
            let j = choose|j: int| registered_at(pushed, k, j);
            assert(registered_at(entries, k, j));
        }
        if registrations(entries).contains_key(k) {
            let j = choose|j: int| registered_at(entries, k, j);
            assert(registered_at(pushed, k, j));
        }
    }
    assert forall|k: StateDice| registrations(pushed).contains_key(k) implies
        #[trigger] registrations(pushed)[k] == registrations(entries).insert(key, handler)[k] by {
        let j = choose|j: int| registered_at(pushed, k, j);
        lemma_registration_at(pushed, j);
        if k != key {
            lemma_registration_at(entries, j);
        }
    }
}

} // verus!
