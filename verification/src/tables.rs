//! Tables of the keyboard mapper: which controls are active, which combo each
//! control holds, and how many controls hold each combo.

use crate::codes::KeyCode;
use crate::input::Stick;
use crate::keyboard::{ComboView, KeyCombo};
use crate::keymap::{button_index, button_slot, ControllerInput, Direction};
use vstd::prelude::*;

verus! {

/// The number of controls that can have a mapping.
pub const INPUTS: usize = 25;

/// The position of a control in a table of controls.
pub open spec fn input_slot(input: ControllerInput) -> int {
    match input {
        ControllerInput::Button(button) => button_slot(button),
        ControllerInput::Stick { stick, direction } => {
            let column: int = match direction {
                Direction::Left => 0,
                Direction::Right => 1,
                Direction::Up => 2,
                Direction::Down => 3,
            };
            match stick {
                Stick::Left => 17 + column,
                Stick::Right => 21 + column,
            }
        },
    }
}

fn input_index(input: ControllerInput) -> (index: usize)
    ensures
        index == input_slot(input),
        index < INPUTS,
{
    match input {
        ControllerInput::Button(button) => button_index(button),
        ControllerInput::Stick { stick, direction } => {
            let column: usize = match direction {
                Direction::Left => 0,
                Direction::Right => 1,
                Direction::Up => 2,
                Direction::Down => 3,
            };
            match stick {
                Stick::Left => 17 + column,
                Stick::Right => 21 + column,
            }
        },
    }
}

/// No more than [`INPUTS`] controls are in any set of controls.
pub proof fn lemma_few_inputs(inputs: Set<ControllerInput>)
    requires
        inputs.finite(),
    ensures
        inputs.len() <= INPUTS,
{
    let slots = inputs.map(|input: ControllerInput| input_slot(input));
    let all = vstd::set_lib::set_int_range(0, INPUTS as int);
    vstd::set_lib::lemma_int_range(0, INPUTS as int);
    vstd::set_lib::lemma_map_size(inputs, slots, |input: ControllerInput| input_slot(input));
    vstd::set_lib::lemma_len_subset(slots, all);
}

/// A set of controls.
#[derive(Debug, Clone, Copy)]
pub struct InputSet {
    held: [bool; 25],
}

impl View for InputSet {
    type V = Set<ControllerInput>;

    closed spec fn view(&self) -> Set<ControllerInput> {
        Set::new(|input: ControllerInput| self.held@[input_slot(input)])
    }
}

impl InputSet {
    /// The empty set.
    pub fn new() -> (set: InputSet)
        ensures
            set@ == Set::<ControllerInput>::empty(),
    {
        let set = InputSet { held: [false;25] };
        assert(set@ =~= Set::<ControllerInput>::empty());
        set
    }

    /// Whether `input` is in the set.
    pub fn contains(&self, input: ControllerInput) -> (r: bool)
        ensures
            r == self@.contains(input),
    {
        self.held[input_index(input)]
    }

    /// Adds `input`.
    pub fn insert(&mut self, input: ControllerInput)
        ensures
            final(self)@ == old(self)@.insert(input),
    {
        self.held[input_index(input)] = true;
        assert(self@ =~= old(self)@.insert(input));
    }

    /// Takes `input` out.
    pub fn remove(&mut self, input: ControllerInput)
        ensures
            final(self)@ == old(self)@.remove(input),
    {
        self.held[input_index(input)] = false;
        assert(self@ =~= old(self)@.remove(input));
    }
}

/// The combo that each active control holds.
#[derive(Debug, Clone, Copy)]
pub struct SourceTable {
    combos: [Option<KeyCombo>; 25],
}

impl View for SourceTable {
    type V = Map<ControllerInput, ComboView>;

    closed spec fn view(&self) -> Map<ControllerInput, ComboView> {
        Map::new(
            |input: ControllerInput| self.combos@[input_slot(input)] is Some,
            |input: ControllerInput| self.combos@[input_slot(input)]->0@,
        )
    }
}

impl SourceTable {
    /// The empty table.
    pub fn new() -> (table: SourceTable)
        ensures
            table@ == Map::<ControllerInput, ComboView>::empty(),
    {
        let table = SourceTable { combos: [None;25] };
        assert(table@ =~= Map::<ControllerInput, ComboView>::empty());
        table
    }

    /// The combo that `input` holds.
    pub fn get(&self, input: ControllerInput) -> (combo: Option<KeyCombo>)
        ensures
            combo is Some <==> self@.contains_key(input),
            combo matches Some(combo) ==> combo@ == self@[input],
    {
        self.combos[input_index(input)]
    }

    /// Lets `input` hold `combo`.
    pub fn insert(&mut self, input: ControllerInput, combo: KeyCombo)
        ensures
            final(self)@ == old(self)@.insert(input, combo@),
    {
        self.combos[input_index(input)] = Some(combo);
        assert(self@ =~= old(self)@.insert(input, combo@));
    }

    /// Lets `input` hold nothing.
    pub fn remove(&mut self, input: ControllerInput)
        ensures
            final(self)@ == old(self)@.remove(input),
    {
        self.combos[input_index(input)] = None;
        assert(self@ =~= old(self)@.remove(input));
    }
}

/// Whether two combos hold the same keys.
pub fn same_combo(a: KeyCombo, b: KeyCombo) -> (same: bool)
    ensures
        same == (a@ == b@),
{
    let left: &[KeyCode] = a.modifiers;
    let right: &[KeyCode] = b.modifiers;
    if a.key != b.key || left.len() != right.len() {
        return false;
    }
    let mut i: usize = 0;
    while i < left.len()
        invariant
            i <= left.len() == right.len(),
            left@ == a@.modifiers,
            right@ == b@.modifiers,
            forall|k: int| 0 <= k < i ==> left@[k] == right@[k],
        decreases left.len() - i,
    {
        if left[i] != right[i] {
            assert(a@.modifiers[i as int] != b@.modifiers[i as int]);
            return false;
        }
        i = i + 1;
    }
    assert(a@ =~= b@);
    true
}

/// How many controls hold each combo that is down.
#[derive(Debug)]
pub struct ComboTable {
    counts: Vec<(KeyCombo, usize)>,
}

impl View for ComboTable {
    type V = Map<ComboView, nat>;

    closed spec fn view(&self) -> Map<ComboView, nat> {
        Map::new(
            |combo: ComboView| self.position(combo) is Some,
            |combo: ComboView| self.counts@[self.position(combo)->0].1 as nat,
        )
    }
}

impl ComboTable {
    /// The entry for a combo.
    spec fn position(&self, combo: ComboView) -> Option<int> {
        if exists|i: int| 0 <= i < self.counts@.len() && (#[trigger] self.counts@[i]).0@ == combo {
            Some(
                choose|i: int|
                    0 <= i < self.counts@.len() && (#[trigger] self.counts@[i]).0@ == combo,
            )
        } else {
            None
        }
    }

    /// No combo has two entries.
    pub closed spec fn distinct(&self) -> bool {
        forall|i: int, j: int|
            0 <= i < j < self.counts@.len() ==> (#[trigger] self.counts@[i]).0@ != (
            #[trigger] self.counts@[j]).0@
    }

    /// The combos of the table, in the order of its entries.
    pub closed spec fn order(&self) -> Seq<ComboView> {
        self.counts@.map_values(|entry: (KeyCombo, usize)| entry.0@)
    }

    /// The order lists each combo of the table once.
    pub proof fn lemma_order(&self)
        requires
            self.distinct(),
        ensures
            self.order().no_duplicates(),
            self.order().to_set() == self@.dom(),
    {
        assert forall|combo: ComboView|
            self.order().to_set().contains(combo) == self@.dom().contains(combo) by {
            if self.order().contains(combo) {
                let i = choose|i: int| 0 <= i < self.order().len() && self.order()[i] == combo;
                assert(self.counts@[i].0@ == combo);
            }
            if self@.dom().contains(combo) {
                let i = self.position(combo)->0;
                assert(self.order()[i] == combo);
            }
        }
        assert(self.order().to_set() =~= self@.dom());
    }

    proof fn lemma_entry(&self, i: int)
        requires
            self.distinct(),
            0 <= i < self.counts@.len(),
        ensures
            self.position(self.counts@[i].0@) == Some(i),
            self@.contains_key(self.counts@[i].0@),
            self@[self.counts@[i].0@] == self.counts@[i].1,
    {
    }

    /// Some entry is for `combo`.
    spec fn lists(&self, combo: ComboView) -> bool {
        exists|i: int| 0 <= i < self.counts@.len() && (#[trigger] self.counts@[i]).0@ == combo
    }

    /// A map that agrees with the entries is what the table holds.
    proof fn lemma_contents(&self, map: Map<ComboView, nat>)
        requires
            self.distinct(),
            forall|i: int|
                0 <= i < self.counts@.len() ==> map.contains_key((#[trigger] self.counts@[i]).0@)
                    && map[self.counts@[i].0@] == self.counts@[i].1,
            forall|c: ComboView| #[trigger] map.contains_key(c) ==> self.lists(c),
        ensures
            self@ == map,
    {
        assert forall|c: ComboView|
            #![trigger map.contains_key(c)]
            self@.contains_key(c) == map.contains_key(c) && (map.contains_key(c) ==> self@[c]
                == map[c]) by {
            if map.contains_key(c) {
                assert(self.lists(c));
                let i = choose|i: int|
                    0 <= i < self.counts@.len() && (#[trigger] self.counts@[i]).0@ == c;
                self.lemma_entry(i);
            }
            if self@.contains_key(c) {
                let i = self.position(c)->0;
                assert(map.contains_key(self.counts@[i].0@));
            }
        }
        assert(self@ =~= map);
    }

    /// The empty table.
    pub fn new() -> (table: ComboTable)
        ensures
            table.distinct(),
            table@ == Map::<ComboView, nat>::empty(),
    {
        let table = ComboTable { counts: Vec::new() };
        assert(table@ =~= Map::<ComboView, nat>::empty());
        table
    }

    /// A table with the same entries.
    pub fn copied(&self) -> (table: ComboTable)
        requires
            self.distinct(),
        ensures
            table.distinct(),
            table@ == self@,
            table.order() == self.order(),
    {
        let mut counts: Vec<(KeyCombo, usize)> = Vec::new();
        let mut i: usize = 0;
        while i < self.counts.len()
            invariant
                i <= self.counts.len(),
                counts@ == self.counts@.take(i as int),
            decreases self.counts.len() - i,
        {
            counts.push(self.counts[i]);
            assert(self.counts@.take(i + 1) == self.counts@.take(i as int).push(
                self.counts@[i as int],
            ));
            i = i + 1;
        }
        assert(self.counts@.take(i as int) == self.counts@);
        let table = ComboTable { counts };
        proof {
            assert forall|i: int| 0 <= i < table.counts@.len() implies self@.contains_key(
                (#[trigger] table.counts@[i]).0@,
            ) && self@[table.counts@[i].0@] == table.counts@[i].1 by {
                self.lemma_entry(i);
            }
            assert forall|c: ComboView| self@.contains_key(c) implies table.lists(c) by {
                let i = self.position(c)->0;
                assert(table.counts@[i].0@ == c);
            }
            table.lemma_contents(self@);
        }
        table
    }

    fn find(&self, combo: KeyCombo) -> (index: Option<usize>)
        requires
            self.distinct(),
        ensures
            index is Some <==> self@.contains_key(combo@),
            index matches Some(index) ==> index < self.counts@.len() && self.counts@[
            index as int].0@ == combo@,
    {
        let mut i: usize = 0;
        while i < self.counts.len()
            invariant
                i <= self.counts.len(),
                self.distinct(),
                forall|k: int| 0 <= k < i ==> (#[trigger] self.counts@[k]).0@ != combo@,
            decreases self.counts.len() - i,
        {
            if same_combo(self.counts[i].0, combo) {
                proof {
                    self.lemma_entry(i as int);
                }
                return Some(i);
            }
            i = i + 1;
        }
        None
    }

    /// How many controls hold `combo`.
    pub fn count(&self, combo: KeyCombo) -> (count: usize)
        requires
            self.distinct(),
        ensures
            count == (if self@.contains_key(combo@) {
                self@[combo@]
            } else {
                0
            }),
    {
        match self.find(combo) {
            Some(index) => {
                proof {
                    self.lemma_entry(index as int);
                }
                self.counts[index].1
            },
            None => 0,
        }
    }

    /// Sets the count of `combo`.
    pub fn set(&mut self, combo: KeyCombo, count: usize)
        requires
            old(self).distinct(),
        ensures
            final(self).distinct(),
            final(self)@ == old(self)@.insert(combo@, count as nat),
    {
        let ghost before = *self;
        match self.find(combo) {
            Some(index) => {
                let entry = self.counts[index].0;
                self.counts.set(index, (entry, count));
                assert(self.counts@[index as int].0@ == combo@);
            },
            None => {
                self.counts.push((combo, count));
                assert(self.counts@[self.counts@.len() - 1].0@ == combo@);
            },
        }
        proof {
            let after = before@.insert(combo@, count as nat);
            assert forall|i: int, j: int| 0 <= i < j < self.counts@.len() implies (
            #[trigger] self.counts@[i]).0@ != (#[trigger] self.counts@[j]).0@ by {
                if j < before.counts@.len() {
                    assert(before.counts@[i].0@ != before.counts@[j].0@);
                } else {
                    before.lemma_entry(i);
                }
            }
            assert forall|i: int| 0 <= i < self.counts@.len() implies after.contains_key(
                (#[trigger] self.counts@[i]).0@,
            ) && after[self.counts@[i].0@] == self.counts@[i].1 by {
                if i < before.counts@.len() {
                    before.lemma_entry(i);
                }
            }
            assert forall|c: ComboView| after.contains_key(c) implies self.lists(c) by {
                if c != combo@ {
                    let i = before.position(c)->0;
                    assert(self.counts@[i].0@ == c);
                }
            }
            self.lemma_contents(after);
        }
    }

    /// Takes the entry for `combo` out.
    pub fn remove(&mut self, combo: KeyCombo)
        requires
            old(self).distinct(),
        ensures
            final(self).distinct(),
            final(self)@ == old(self)@.remove(combo@),
    {
        let ghost before = *self;
        if let Some(index) = self.find(combo) {
            self.counts.remove(index);
            proof {
                let at = index as int;
                let after = before@.remove(combo@);
                assert forall|i: int|
                    #![trigger self.counts@[i]]
                    0 <= i < self.counts@.len() implies self.counts@[i] == before.counts@[if i
                    < at {
                    i
                } else {
                    i + 1
                }] by {}
                before.lemma_entry(at);
                assert forall|i: int, j: int| 0 <= i < j < self.counts@.len() implies (
                #[trigger] self.counts@[i]).0@ != (#[trigger] self.counts@[j]).0@ by {
                    let a = if i < at {
                        i
                    } else {
                        i + 1
                    };
                    let b = if j < at {
                        j
                    } else {
                        j + 1
                    };
                    assert(before.counts@[a].0@ != before.counts@[b].0@);
                }
                assert forall|i: int| 0 <= i < self.counts@.len() implies after.contains_key(
                    (#[trigger] self.counts@[i]).0@,
                ) && after[self.counts@[i].0@] == self.counts@[i].1 by {
                    let a = if i < at {
                        i
                    } else {
                        i + 1
                    };
                    before.lemma_entry(a);
                    if a < at {
                        assert(before.counts@[a].0@ != before.counts@[at].0@);
                    } else {
                        assert(before.counts@[at].0@ != before.counts@[a].0@);
                    }
                }
                assert forall|c: ComboView| after.contains_key(c) implies self.lists(c) by {
                    let i = before.position(c)->0;
                    let k = if i < at {
                        i
                    } else {
                        i - 1
                    };
                    assert(self.counts@[k].0@ == c);
                }
                self.lemma_contents(after);
            }
        } else {
            assert(self@ =~= before@.remove(combo@));
        }
    }

    /// The number of entries.
    pub fn len(&self) -> (n: usize)
        ensures
            n == self.order().len(),
    {
        self.counts.len()
    }

    /// The combo of an entry.
    pub fn at(&self, index: usize) -> (combo: KeyCombo)
        requires
            index < self.order().len(),
        ensures
            combo@ == self.order()[index as int],
    {
        self.counts[index].0
    }
}

} // verus!
