//! The model of the view registry, and what holds of it.
//!
//! A view is registered under a label. Registration draws an identifier for
//! the view, records it for the label, and stores the view under the
//! identifier. A view is found again by its label in two steps: from the
//! label to the identifier, from the identifier to the view.

use vstd::prelude::*;

verus! {

/// The identifier of a registered view: the 128 bits of a UUID.
pub type ViewId = u128;

/// Whether `id` has the form of a random (version 4) UUID in the layout of
/// RFC 4122: the version field holds 4 and the variant field holds `10`.
pub open spec fn is_random_uuid(id: ViewId) -> bool {
    &&& (id >> 76) & 0xf == 4
    &&& (id >> 62) & 0x3 == 2
}

/// The registry as two maps: from labels to identifiers, and from
/// identifiers to views.
pub struct Registry<V> {
    pub labels: Map<Seq<char>, ViewId>,
    pub views: Map<ViewId, V>,
}

impl<V> Registry<V> {
    /// The registry in which nothing is registered.
    pub open spec fn empty() -> Registry<V> {
        Registry { labels: Map::empty(), views: Map::empty() }
    }

    /// Whether every label leads to a view: the identifier recorded for a
    /// label is always one under which a view is stored.
    pub open spec fn consistent(self) -> bool {
        forall|label: Seq<char>| #[trigger]
            self.labels.contains_key(label) ==> self.views.contains_key(self.labels[label])
    }

    /// The registry after `view` was registered under `label` with the
    /// identifier `id`.
    pub open spec fn register(self, label: Seq<char>, id: ViewId, view: V) -> Registry<V> {
        Registry { labels: self.labels.insert(label, id), views: self.views.insert(id, view) }
    }

    /// The view that `label` leads to, if it leads to one.
    pub open spec fn lookup(self, label: Seq<char>) -> Option<V> {
        if self.labels.contains_key(label) && self.views.contains_key(self.labels[label]) {
            Some(self.views[self.labels[label]])
        } else {
            None
        }
    }

    /// The registry after the views of `entries` were registered one after
    /// the other, from the first entry to the last.
    pub open spec fn register_all(self, entries: Seq<(Seq<char>, ViewId, V)>) -> Registry<V>
        decreases entries.len(),
    {
        if entries.len() == 0 {
            self
        } else {
            let last = entries.last();
            self.register_all(entries.drop_last()).register(last.0, last.1, last.2)
        }
    }
}

/// Whether the labels of `entries` differ from one another, and the
/// identifiers too.
pub open spec fn pairwise_distinct<V>(entries: Seq<(Seq<char>, ViewId, V)>) -> bool {
    forall|i: int, j: int|
        0 <= i < j < entries.len() ==> entries[i].0 != entries[j].0 && entries[i].1
            != entries[j].1
}

/// Nothing is registered in the empty registry, so every label of it leads
/// to a view.
pub proof fn lemma_empty_consistent<V>()
    ensures
        Registry::<V>::empty().consistent(),
{
}

/// Registration keeps the registry consistent: if every label led to a view
/// before, every label leads to a view afterwards, whatever identifier was
/// drawn.
pub proof fn lemma_register_consistent<V>(
    registry: Registry<V>,
    label: Seq<char>,
    id: ViewId,
    view: V,
)
    requires
        registry.consistent(),
    ensures
        registry.register(label, id, view).consistent(),
{
    let after = registry.register(label, id, view);
    assert forall|other: Seq<char>| #[trigger] after.labels.contains_key(other) implies after.views.contains_key(
        after.labels[other],
    ) by {
        if other != label {
            assert(registry.labels.contains_key(other));
        }
    }
}

/// In a consistent registry every registered label leads to a view.
pub proof fn lemma_registered_label_found<V>(registry: Registry<V>, label: Seq<char>)
    requires
        registry.consistent(),
        registry.labels.contains_key(label),
    ensures
        registry.lookup(label) == Some(registry.views[registry.labels[label]]),
{
}

/// A label leads to the view that was last registered under it.
pub proof fn lemma_lookup_registered<V>(
    registry: Registry<V>,
    label: Seq<char>,
    id: ViewId,
    view: V,
)
    ensures
        registry.register(label, id, view).lookup(label) == Some(view),
{
}

/// Registering a view leaves alone what every other label leads to, unless
/// the identifier drawn is the one recorded for that label.
pub proof fn lemma_lookup_other<V>(
    registry: Registry<V>,
    label: Seq<char>,
    id: ViewId,
    view: V,
    other: Seq<char>,
)
    requires
        other != label,
        registry.labels.contains_key(other) ==> registry.labels[other] != id,
    ensures
        registry.register(label, id, view).lookup(other) == registry.lookup(other),
{
}

/// Views registered one after the other under labels and identifiers that
/// all differ are found again in the order of their registration: the label
/// of each entry leads to the view of that entry.
pub proof fn lemma_lookup_in_registration_order<V>(
    entries: Seq<(Seq<char>, ViewId, V)>,
    k: int,
)
    requires
        pairwise_distinct(entries),
        0 <= k < entries.len(),
    ensures
        Registry::<V>::empty().register_all(entries).lookup(entries[k].0) == Some(entries[k].2),
        Registry::<V>::empty().register_all(entries).labels[entries[k].0] == entries[k].1,
        Registry::<V>::empty().register_all(entries).consistent(),
    decreases entries.len(),
{
    let rest = entries.drop_last();
    let last = entries.last();
    let before = Registry::<V>::empty().register_all(rest);
    lemma_register_all_consistent(Registry::<V>::empty(), entries);
    if k < entries.len() - 1 {
        assert(pairwise_distinct(rest));
        assert(rest[k] == entries[k]);
        lemma_lookup_in_registration_order(rest, k);
        assert(entries[k].0 != last.0 && entries[k].1 != last.1);
        lemma_lookup_other(before, last.0, last.1, last.2, entries[k].0);
    }
}

/// Registering any number of views keeps the registry consistent.
pub proof fn lemma_register_all_consistent<V>(
    registry: Registry<V>,
    entries: Seq<(Seq<char>, ViewId, V)>,
)
    requires
        registry.consistent(),
    ensures
        registry.register_all(entries).consistent(),
    decreases entries.len(),
{
    if entries.len() > 0 {
        let last = entries.last();
        lemma_register_all_consistent(registry, entries.drop_last());
        lemma_register_consistent(
            registry.register_all(entries.drop_last()),
            last.0,
            last.1,
            last.2,
        );
    }
}

} // verus!
