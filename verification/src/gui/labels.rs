//! The labels under which views are registered.

use crate::gui::registry::ViewId;
use vstd::prelude::*;
use vstd::string::*;

verus! {

/// Whether entry `i` of `entries` is the one for `label`.
spec fn entry_is(entries: Seq<(String, ViewId)>, i: int, label: Seq<char>) -> bool {
    0 <= i < entries.len() && entries[i].0@ == label
}

/// Whether no label occurs in two entries.
spec fn distinct(entries: Seq<(String, ViewId)>) -> bool {
    forall|i: int, j: int| 0 <= i < j < entries.len() ==> entries[i].0@ != entries[j].0@
}

/// The map from each label in `entries` to the identifier beside it.
spec fn as_map(entries: Seq<(String, ViewId)>) -> Map<Seq<char>, ViewId> {
    Map::new(
        |label: Seq<char>| exists|i: int| entry_is(entries, i, label),
        |label: Seq<char>| entries[choose|i: int| entry_is(entries, i, label)].1,
    )
}

/// Where labels are distinct, the map sends a label to the identifier of
/// the one entry that holds it.
proof fn lemma_entry_found(entries: Seq<(String, ViewId)>, i: int, label: Seq<char>)
    requires
        distinct(entries),
        entry_is(entries, i, label),
    ensures
        as_map(entries).contains_key(label),
        as_map(entries)[label] == entries[i].1,
{
    let j = choose|j: int| entry_is(entries, j, label);
    assert(entry_is(entries, j, label));
    if i < j {
        assert(entries[i].0@ != entries[j].0@);
    } else if j < i {
        assert(entries[j].0@ != entries[i].0@);
    }
}

/// A map from the labels of views to their identifiers. A label is a text;
/// each label has at most one identifier.
#[derive(Debug)]
pub struct ViewLabels {
    entries: Vec<(String, ViewId)>,
}

impl View for ViewLabels {
    type V = Map<Seq<char>, ViewId>;

    closed spec fn view(&self) -> Map<Seq<char>, ViewId> {
        as_map(self.entries@)
    }
}

impl ViewLabels {
    #[verifier::type_invariant]
    spec fn labels_distinct(self) -> bool {
        distinct(self.entries@)
    }

    /// A map without labels.
    pub fn new() -> (labels: ViewLabels)
        ensures
            labels@ == Map::<Seq<char>, ViewId>::empty(),
    {
        let labels = ViewLabels { entries: Vec::new() };
        assert(labels@ =~= Map::<Seq<char>, ViewId>::empty());
        labels
    }

    /// The identifier recorded for `label`, if there is one.
    pub fn get(&self, label: &str) -> (id: Option<ViewId>)
        ensures
            id == (if self@.contains_key(label@) {
                Some(self@[label@])
            } else {
                None
            }),
    {
        proof {
            use_type_invariant(self);
        }
        let wanted = String::from_str(label);
        let mut i: usize = 0;
        while i < self.entries.len()
            invariant
                i <= self.entries@.len(),
                wanted@ == label@,
                distinct(self.entries@),
                forall|j: int| 0 <= j < i ==> !entry_is(self.entries@, j, label@),
            decreases self.entries@.len() - i,
        {
            if self.entries[i].0 == wanted {
                proof {
                    lemma_entry_found(self.entries@, i as int, label@);
                }
                return Some(self.entries[i].1);
            }
            i += 1;
        }
        None
    }

    /// Records `id` for `label`, in place of the identifier that the label
    /// had, which is returned.
    pub fn insert(&mut self, label: &str, id: ViewId) -> (previous: Option<ViewId>)
        ensures
            final(self)@ == old(self)@.insert(label@, id),
            previous == (if old(self)@.contains_key(label@) {
                Some(old(self)@[label@])
            } else {
                None
            }),
    {
        proof {
            use_type_invariant(&*self);
        }
        let ghost before = self.entries@;
        let wanted = String::from_str(label);
        let mut entries: Vec<(String, ViewId)> = Vec::new();
        core::mem::swap(&mut self.entries, &mut entries);
        let mut i: usize = 0;
        while i < entries.len()
            invariant
                i <= entries@.len(),
                entries@ == before,
                before == old(self).entries@,
                wanted@ == label@,
                distinct(before),
                forall|j: int| 0 <= j < i ==> !entry_is(before, j, label@),
            decreases entries@.len() - i,
        {
            if entries[i].0 == wanted {
                let previous = entries[i].1;
                proof {
                    lemma_replaced(before, i as int, wanted, id);
                }
                entries.set(i, (wanted, id));
                self.entries = entries;
                return Some(previous);
            }
            i += 1;
        }
        proof {
            lemma_appended(before, wanted, id);
        }
        entries.push((wanted, id));
        self.entries = entries;
        None
    }
}

/// Giving the entry of a label another identifier keeps the labels
/// distinct and changes the map at that label only.
proof fn lemma_replaced(before: Seq<(String, ViewId)>, i: int, label: String, id: ViewId)
    requires
        distinct(before),
        entry_is(before, i, label@),
    ensures
        distinct(before.update(i, (label, id))),
        as_map(before.update(i, (label, id))) == as_map(before).insert(label@, id),
        as_map(before).contains_key(label@),
        as_map(before)[label@] == before[i].1,
{
    let after = before.update(i, (label, id));
    lemma_entry_found(before, i, label@);
    assert(distinct(after)) by {
        assert forall|a: int, b: int| 0 <= a < b < after.len() implies after[a].0@
            != after[b].0@ by {
            assert(after[a].0@ == before[a].0@);
            assert(after[b].0@ == before[b].0@);
        }
    }
    assert forall|l: Seq<char>|
        as_map(after).contains_key(l) <==> #[trigger] as_map(before).insert(
            label@,
            id,
        ).contains_key(l) by {
        if as_map(after).contains_key(l) {
            let j = choose|j: int| entry_is(after, j, l);
            assert(entry_is(before, j, l));
        }
        if as_map(before).contains_key(l) {
            let j = choose|j: int| entry_is(before, j, l);
            assert(entry_is(after, j, l));
        }
        if l == label@ {
            assert(entry_is(after, i, l));
        }
    }
    assert forall|l: Seq<char>| #[trigger] as_map(after).contains_key(l) implies as_map(after)[l]
        == as_map(before).insert(label@, id)[l] by {
        let j = choose|j: int| entry_is(after, j, l);
        lemma_entry_found(after, j, l);
        if l != label@ {
            assert(entry_is(before, j, l));
            lemma_entry_found(before, j, l);
        } else {
            lemma_entry_found(after, i, l);
        }
    }
    assert(as_map(after) =~= as_map(before).insert(label@, id));
}

/// Appending an entry for a label that no entry holds keeps the labels
/// distinct and adds the label to the map.
proof fn lemma_appended(before: Seq<(String, ViewId)>, label: String, id: ViewId)
    requires
        distinct(before),
        forall|j: int| 0 <= j < before.len() ==> !entry_is(before, j, label@),
    ensures
        distinct(before.push((label, id))),
        as_map(before.push((label, id))) == as_map(before).insert(label@, id),
        !as_map(before).contains_key(label@),
{
    let after = before.push((label, id));
    let n = before.len() as int;
    assert(distinct(after)) by {
        assert forall|a: int, b: int| 0 <= a < b < after.len() implies after[a].0@
            != after[b].0@ by {
            if b == n {
                assert(!entry_is(before, a, label@));
            }
        }
    }
    assert(entry_is(after, n, label@));
    lemma_entry_found(after, n, label@);
    assert forall|l: Seq<char>|
        as_map(after).contains_key(l) <==> #[trigger] as_map(before).insert(
            label@,
            id,
        ).contains_key(l) by {
        if as_map(after).contains_key(l) {
            let j = choose|j: int| entry_is(after, j, l);
            if j < n {
                assert(entry_is(before, j, l));
            }
        }
        if as_map(before).contains_key(l) {
            let j = choose|j: int| entry_is(before, j, l);
            assert(entry_is(after, j, l));
        }
    }
    assert forall|l: Seq<char>| #[trigger] as_map(after).contains_key(l) implies as_map(after)[l]
        == as_map(before).insert(label@, id)[l] by {
        let j = choose|j: int| entry_is(after, j, l);
        lemma_entry_found(after, j, l);
        if l != label@ {
            assert(entry_is(before, j, l));
            lemma_entry_found(before, j, l);
        }
    }
    assert(as_map(after) =~= as_map(before).insert(label@, id));
    assert(!as_map(before).contains_key(label@)) by {
        if as_map(before).contains_key(label@) {
            let j = choose|j: int| entry_is(before, j, label@);
            assert(!entry_is(before, j, label@));
        }
    }
}

} // verus!
