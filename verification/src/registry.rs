//! The registry: which providers exist, and the live backend of each.

use crate::error::GatewayError;
use crate::identity::{native_identity, Identity, ProviderId};
use vstd::prelude::*;

verus! {

/// One registered provider and its live backend.
struct Entry<B> {
    id: ProviderId,
    handle: B,
}

/// The entry at `i` is the one of identity `k`.
spec fn entry_at<B>(entries: Seq<Entry<B>>, k: Identity, i: int) -> bool {
    0 <= i < entries.len() && entries[i].id@ == k
}

/// No identity occurs twice.
spec fn distinct_ids<B>(entries: Seq<Entry<B>>) -> bool {
    forall|i: int, j: int| 0 <= i < j < entries.len() ==> entries[i].id@ != entries[j].id@
}

/// The entries as a map from identity to backend.
spec fn as_map<B>(entries: Seq<Entry<B>>) -> Map<Identity, B> {
    Map::new(
        |k: Identity| exists|i: int| entry_at(entries, k, i),
        |k: Identity| entries[choose|i: int| entry_at(entries, k, i)].handle,
    )
}

/// Each entry is found in the map, under its identity.
proof fn lemma_entry_in_map<B>(entries: Seq<Entry<B>>, i: int)
    requires
        distinct_ids(entries),
        0 <= i < entries.len(),
    ensures
        as_map(entries).contains_key(entries[i].id@),
        as_map(entries)[entries[i].id@] == entries[i].handle,
{
    let k = entries[i].id@;
    assert(entry_at(entries, k, i));
    let c = choose|c: int| entry_at(entries, k, c);
    assert(c == i);
}

/// Appending an entry of a new identity inserts it into the map.
proof fn lemma_push_is_insert<B>(entries: Seq<Entry<B>>, e: Entry<B>)
    requires
        distinct_ids(entries),
        forall|i: int| !entry_at(entries, e.id@, i),
    ensures
        distinct_ids(entries.push(e)),
        as_map(entries.push(e)) == as_map(entries).insert(e.id@, e.handle),
{
    let after = entries.push(e);
    let n = entries.len() as int;
    assert forall|i: int, j: int| 0 <= i < j < after.len() implies after[i].id@ != after[j].id@ by {
        if j == n {
            assert(!entry_at(entries, e.id@, i));
        }
    }
    assert forall|k: Identity| #[trigger]
        as_map(after).contains_key(k) <==> as_map(entries).insert(e.id@, e.handle).contains_key(
            k,
        ) by {
        if as_map(after).contains_key(k) {
            let i = choose|i: int| entry_at(after, k, i);
            if i < n {
                assert(entry_at(entries, k, i));
            }
        }
        if as_map(entries).contains_key(k) {
            let i = choose|i: int| entry_at(entries, k, i);
            assert(entry_at(after, k, i));
        }
        if k == e.id@ {
            assert(entry_at(after, k, n));
        }
    }
    assert forall|k: Identity| #[trigger] as_map(after).contains_key(k) implies as_map(after)[k]
        == as_map(entries).insert(e.id@, e.handle)[k] by {
        let i = choose|i: int| entry_at(after, k, i);
        lemma_entry_in_map(after, i);
        if i < n {
            lemma_entry_in_map(entries, i);
        }
    }
    assert(as_map(after) =~= as_map(entries).insert(e.id@, e.handle));
}

/// Taking an entry out removes its identity from the map.
proof fn lemma_remove_is_remove<B>(entries: Seq<Entry<B>>, at: int)
    requires
        distinct_ids(entries),
        0 <= at < entries.len(),
    ensures
        distinct_ids(entries.remove(at)),
        as_map(entries.remove(at)) == as_map(entries).remove(entries[at].id@),
{
    let after = entries.remove(at);
    let gone = entries[at].id@;
    assert forall|k: Identity| #[trigger]
        as_map(after).contains_key(k) <==> as_map(entries).remove(gone).contains_key(k) by {
        if as_map(after).contains_key(k) {
            let i = choose|i: int| entry_at(after, k, i);
            if i < at {
                assert(entry_at(entries, k, i));
            } else {
                assert(entry_at(entries, k, i + 1));
            }
        }
        if as_map(entries).contains_key(k) && k != gone {
            let i = choose|i: int| entry_at(entries, k, i);
            if i < at {
                assert(entry_at(after, k, i));
            } else {
                assert(entry_at(after, k, i - 1));
            }
        }
    }
    assert forall|k: Identity| #[trigger] as_map(after).contains_key(k) implies as_map(after)[k]
        == as_map(entries).remove(gone)[k] by {
        let i = choose|i: int| entry_at(after, k, i);
        lemma_entry_in_map(after, i);
        if i < at {
            lemma_entry_in_map(entries, i);
        } else {
            lemma_entry_in_map(entries, i + 1);
        }
    }
    assert(as_map(after) =~= as_map(entries).remove(gone));
}

/// The providers that are registered, each with its live backend of type `B`.
/// No identity is registered twice.
pub struct ProvidersMap<B> {
    entries: Vec<Entry<B>>,
}

impl<B> View for ProvidersMap<B> {
    type V = Map<Identity, B>;

    closed spec fn view(&self) -> Map<Identity, B> {
        as_map(self.entries@)
    }
}

impl<B> ProvidersMap<B> {
    /// The registry's invariant: no identity is registered twice, and the
    /// home-directory provider is registered. Every registry that this crate
    /// hands out satisfies it.
    pub closed spec fn well_formed(&self) -> bool {
        &&& distinct_ids(self.entries@)
        &&& as_map(self.entries@).contains_key(native_identity())
    }

    /// The home-directory provider is registered in every registry.
    pub proof fn lemma_native_registered(&self)
        requires
            self.well_formed(),
        ensures
            self@.contains_key(native_identity()),
    {
    }

    /// A registry that holds the home-directory provider and nothing else.
    pub fn with_native(native: B) -> (r: Self)
        ensures
            r.well_formed(),
            r@ == Map::<Identity, B>::empty().insert(native_identity(), native),
    {
        let mut entries: Vec<Entry<B>> = Vec::new();
        let entry = Entry { id: ProviderId::native(), handle: native };
        proof {
            lemma_push_is_insert(entries@, entry);
            assert(as_map(entries@) =~= Map::<Identity, B>::empty());
        }
        entries.push(entry);
        ProvidersMap { entries }
    }

    /// Where the entry of `provider` stands, if it is registered.
    fn position(&self, provider: &ProviderId) -> (r: Option<usize>)
        ensures
            r matches Some(i) ==> entry_at(self.entries@, provider@, i as int),
            r is None ==> forall|i: int| !entry_at(self.entries@, provider@, i),
    {
        let mut i: usize = 0;
        while i < self.entries.len()
            invariant
                i <= self.entries.len(),
                forall|j: int| 0 <= j < i ==> self.entries@[j].id@ != provider@,
            decreases self.entries.len() - i,
        {
            if self.entries[i].id == *provider {
                return Some(i);
            }
            i += 1;
        }
        None
    }

    /// The live backend registered under `provider`.
    pub fn get_provider(&self, provider: &ProviderId) -> (r: Result<&B, GatewayError>)
        requires
            self.well_formed(),
        ensures
            self@.contains_key(provider@) ==> r == Ok::<&B, GatewayError>(&self@[provider@]),
            !self@.contains_key(provider@) ==> r == Err::<&B, GatewayError>(
                GatewayError::NotFound,
            ),
    {
        match self.position(provider) {
            Some(i) => {
                proof {
                    lemma_entry_in_map(self.entries@, i as int);
                }
                Ok(&self.entries[i].handle)
            },
            None => Err(GatewayError::NotFound),
        }
    }

    /// Whether a provider is registered under `provider`.
    pub fn contains(&self, provider: &ProviderId) -> (r: bool)
        requires
            self.well_formed(),
        ensures
            r == self@.contains_key(provider@),
    {
        match self.position(provider) {
            Some(i) => {
                proof {
                    lemma_entry_in_map(self.entries@, i as int);
                }
                true
            },
            None => false,
        }
    }

    /// Registers `handle` under `provider`, in place of what was registered
    /// under that identity before.
    pub(crate) fn insert(&mut self, provider: ProviderId, handle: B)
        requires
            old(self).well_formed(),
        ensures
            final(self).well_formed(),
            final(self)@ == old(self)@.insert(provider@, handle),
    {
        let ghost before = self.entries@;
        match self.position(&provider) {
            Some(i) => {
                proof {
                    lemma_remove_is_remove(before, i as int);
                }
                self.entries.remove(i);
            },
            None => {},
        }
        let ghost between = self.entries@;
        let entry = Entry { id: provider, handle };
        proof {
            assert forall|i: int| !entry_at(between, entry.id@, i) by {
                if entry_at(between, entry.id@, i) {
                    assert(as_map(between).contains_key(entry.id@));
                }
            }
            lemma_push_is_insert(between, entry);
            assert(as_map(before).remove(entry.id@).insert(entry.id@, entry.handle) =~= as_map(
                before,
            ).insert(entry.id@, entry.handle));
        }
        self.entries.push(entry);
    }

    /// Takes the provider registered under `provider` out of the registry.
    pub(crate) fn discard(&mut self, provider: &ProviderId)
        requires
            old(self).well_formed(),
            provider@ != native_identity(),
        ensures
            final(self).well_formed(),
            final(self)@ == old(self)@.remove(provider@),
    {
        match self.position(provider) {
            Some(i) => {
                proof {
                    lemma_remove_is_remove(self.entries@, i as int);
                }
                self.entries.remove(i);
            },
            None => {
                proof {
                    assert(!as_map(self.entries@).contains_key(provider@));
                    assert(as_map(self.entries@).remove(provider@) =~= as_map(self.entries@));
                }
            },
        }
    }

    /// The identities of all registered providers, each once, in no
    /// particular order.
    pub fn list_providers(&self) -> (r: Vec<ProviderId>)
        requires
            self.well_formed(),
        ensures
            forall|k: Identity| self@.contains_key(k) <==> exists|i: int|
                0 <= i < r.len() && #[trigger] r[i]@ == k,
            forall|i: int, j: int| 0 <= i < j < r.len() ==> r[i]@ != r[j]@,
            self@.dom().finite(),
            r.len() == self@.len(),
    {
        let mut providers_vec: Vec<ProviderId> = Vec::new();
        let mut i: usize = 0;
        while i < self.entries.len()
            invariant
                i <= self.entries.len(),
                providers_vec.len() == i,
                forall|j: int| 0 <= j < i ==> providers_vec[j]@ == self.entries@[j].id@,
            decreases self.entries.len() - i,
        {
            providers_vec.push(self.entries[i].id.clone());
            i += 1;
        }
        proof {
            assert forall|k: Identity| self@.contains_key(k) <==> exists|i: int|
                0 <= i < providers_vec.len() && #[trigger] providers_vec[i]@ == k by {
                if self@.contains_key(k) {
                    let c = choose|c: int| entry_at(self.entries@, k, c);
                    assert(providers_vec[c]@ == k);
                }
                if exists|i: int| 0 <= i < providers_vec.len() && #[trigger] providers_vec[i]@ == k {
                    let c = choose|c: int| 0 <= c < providers_vec.len() && #[trigger] providers_vec[c]@ == k;
                    assert(entry_at(self.entries@, k, c));
                }
            }
            lemma_size(self.entries@);
        }
        providers_vec
    }
}

/// A registry has as many providers as it has entries.
proof fn lemma_size<B>(entries: Seq<Entry<B>>)
    requires
        distinct_ids(entries),
    ensures
        as_map(entries).dom().finite(),
        as_map(entries).len() == entries.len(),
    decreases entries.len(),
{
    if entries.len() == 0 {
        assert(as_map(entries) =~= Map::<Identity, B>::empty());
    } else {
        let last = entries.last();
        let front = entries.drop_last();
        lemma_size(front);
        assert forall|i: int| !entry_at(front, last.id@, i) by {
            if entry_at(front, last.id@, i) {
                assert(entries[i].id@ == front[i].id@);
            }
        }
        lemma_push_is_insert(front, last);
        assert(front.push(last) =~= entries);
        assert(!as_map(front).contains_key(last.id@));
    }
}

} // verus!
