//! Building the registry when the process starts: finding the directory of
//! credential records, and registering the backends rebuilt from them.

use crate::error::GatewayError;
use crate::identity::{
    identity_of_record, kind_of, lemma_record_name_determined, lemma_record_name_read_back,
    native_identity, record_name_of, Identity, ProviderId, ProviderKind,
};
use crate::registry::ProvidersMap;
use vstd::prelude::*;

verus! {

/// How far the search for the credential records has come.
#[derive(Debug, Clone, Copy, PartialEq, Eq, Structural)]
pub enum Discovery {
    /// The directory is being listed for the first time.
    Listing,
    /// The directory was absent and is being created.
    Creating,
    /// The directory was created and is being listed again.
    Relisting,
}

/// What came of the step that the caller carried out.
#[derive(Debug, Clone, Copy, PartialEq, Eq, Structural)]
pub enum DiscoveryEvent {
    /// The directory was listed.
    Listed,
    /// There is no such directory.
    Absent,
    /// The directory is there and cannot be read.
    Unreadable,
    /// The directory was created.
    Created,
    /// The directory could not be created.
    CreateFailed,
}

/// What the caller is to do next.
#[derive(Debug, Clone, Copy, PartialEq, Eq, Structural)]
pub enum DiscoveryStep {
    /// Create the directory, and report the result with `Discovery::Creating`.
    Create,
    /// List the directory, and report the result with `Discovery::Relisting`.
    List,
    /// The records are those that were listed.
    Ready,
    /// The records cannot be had.
    Fail(GatewayError),
}

/// The step that follows `event` in `state`. A directory that is absent is
/// created, once, and listed again; every other trouble is a
/// `DiscoveryError`.
pub open spec fn discovery_step(state: Discovery, event: DiscoveryEvent) -> DiscoveryStep {
    match (state, event) {
        (Discovery::Listing, DiscoveryEvent::Listed) => DiscoveryStep::Ready,
        (Discovery::Listing, DiscoveryEvent::Absent) => DiscoveryStep::Create,
        (Discovery::Creating, DiscoveryEvent::Created) => DiscoveryStep::List,
        (Discovery::Relisting, DiscoveryEvent::Listed) => DiscoveryStep::Ready,
        _ => DiscoveryStep::Fail(GatewayError::DiscoveryError),
    }
}

/// Decides what follows `event` in the search for the credential records.
pub fn discover(state: Discovery, event: DiscoveryEvent) -> (step: DiscoveryStep)
    ensures
        step == discovery_step(state, event),
{
    match state {
        Discovery::Listing => match event {
            DiscoveryEvent::Listed => DiscoveryStep::Ready,
            DiscoveryEvent::Absent => DiscoveryStep::Create,
            _ => DiscoveryStep::Fail(GatewayError::DiscoveryError),
        },
        Discovery::Creating => match event {
            DiscoveryEvent::Created => DiscoveryStep::List,
            _ => DiscoveryStep::Fail(GatewayError::DiscoveryError),
        },
        Discovery::Relisting => match event {
            DiscoveryEvent::Listed => DiscoveryStep::Ready,
            _ => DiscoveryStep::Fail(GatewayError::DiscoveryError),
        },
    }
}

/// The provider that a record of this name stands for, where its kind is one
/// that is rebuilt from a record. Records of other kinds are passed over, so
/// that a directory written by a later version can still be read.
pub open spec fn admitted(name: Seq<char>) -> Option<Identity> {
    match identity_of_record(name) {
        Some(p) => if kind_of(p.provider_type).has_record() {
            Some(p)
        } else {
            None
        },
        None => None,
    }
}

/// No record stands for the home-directory provider.
pub proof fn lemma_native_has_no_record(name: Seq<char>)
    ensures
        admitted(name) != Some(native_identity()),
{
    reveal_strlit("native_fs");
    reveal_strlit("S3");
    reveal_strlit("Google");
    reveal_strlit("OneDrive");
    assert("native_fs"@.len() == 9);
    assert("S3"@.len() == 2);
    assert("Google"@.len() == 6);
    assert("OneDrive"@.len() == 8);
    assert(kind_of("native_fs"@) == ProviderKind::NativeFs);
}

/// Reads the name of a record: the provider it stands for, where the caller
/// is to rebuild its backend.
pub fn recognise(name: &str) -> (r: Option<ProviderId>)
    ensures
        match r {
            Some(p) => admitted(name@) == Some(p@),
            None => admitted(name@) is None,
        },
{
    match ProviderId::from_record_name(name) {
        Some(p) => if p.kind().has_record() {
            Some(p)
        } else {
            None
        },
        None => None,
    }
}

/// One record of the directory, after the caller tried to rebuild a backend
/// from it: the record's name, and the backend unless that failed.
#[derive(Debug)]
pub struct Loaded<B> {
    pub name: String,
    pub handle: Option<B>,
}

/// The providers that the records give, each with its backend. A record
/// whose backend could not be rebuilt gives none, and where two records
/// stand for one provider the later one counts.
pub open spec fn loaded_map<B>(loaded: Seq<Loaded<B>>) -> Map<Identity, B>
    decreases loaded.len(),
{
    if loaded.len() == 0 {
        Map::empty()
    } else {
        let before = loaded_map(loaded.drop_last());
        match (admitted(loaded.last().name@), loaded.last().handle) {
            (Some(p), Some(handle)) => before.insert(p, handle),
            _ => before,
        }
    }
}

/// The names of the records whose backend could not be rebuilt, in the order
/// of the records.
pub open spec fn failures<B>(loaded: Seq<Loaded<B>>) -> Seq<Seq<char>>
    decreases loaded.len(),
{
    if loaded.len() == 0 {
        Seq::empty()
    } else {
        let before = failures(loaded.drop_last());
        match (admitted(loaded.last().name@), loaded.last().handle) {
            (Some(p), None) => before.push(loaded.last().name@),
            _ => before,
        }
    }
}

/// The registry that a start of the process builds: what the records give,
/// and the home-directory provider.
pub open spec fn initial_registry<B>(native: B, loaded: Seq<Loaded<B>>) -> Map<Identity, B> {
    loaded_map(loaded).insert(native_identity(), native)
}

/// The views of some texts.
pub open spec fn texts(names: Seq<String>) -> Seq<Seq<char>> {
    names.map_values(|s: String| s@)
}

impl<B> ProvidersMap<B> {
    /// Builds the registry at the start of the process, from the backends
    /// that were rebuilt from the credential records and from the backend of
    /// the home directory. A record whose backend could not be rebuilt does
    /// not stop the others: its name is returned beside the registry.
    pub fn new(native: B, loaded: Vec<Loaded<B>>) -> (r: (ProvidersMap<B>, Vec<String>))
        ensures
            r.0.well_formed(),
            r.0@ == initial_registry(native, loaded@),
            texts(r.1@) == failures(loaded@),
    {
        let mut registry = ProvidersMap::with_native(native);
        let mut failed: Vec<String> = Vec::new();
        let ghost all = loaded@;
        proof {
            assert(loaded_map(all.take(0)) =~= Map::<Identity, B>::empty());
            assert(texts(failed@) =~= failures(all.take(0)));
        }
        for item in it: loaded
            invariant
                it.seq() == all,
                registry.well_formed(),
                registry@ == initial_registry(native, all.take(it.index() as int)),
                texts(failed@) == failures(all.take(it.index() as int)),
        {
            let ghost i = it.index() as int;
            proof {
                assert(all.take(i + 1).drop_last() =~= all.take(i));
                assert(all.take(i + 1).last() == item);
                lemma_native_has_no_record(item.name@);
            }
            let Loaded { name, handle } = item;
            match recognise(name.as_str()) {
                Some(provider) => match handle {
                    Some(h) => {
                        registry.insert(provider, h);
                        proof {
                            assert(registry@ =~= initial_registry(native, all.take(i + 1)));
                        }
                    },
                    None => {
                        failed.push(name);
                        proof {
                            assert(texts(failed@) =~= failures(all.take(i + 1)));
                        }
                    },
                },
                None => {},
            }
        }
        proof {
            assert(all.take(all.len() as int) =~= all);
        }
        (registry, failed)
    }
}

/// After a start, a provider is registered exactly if it is the
/// home-directory provider, or the directory held its credential record and
/// its backend could be rebuilt from it.
pub proof fn lemma_registered_after_start<B>(native: B, loaded: Seq<Loaded<B>>, provider: Identity)
    ensures
        initial_registry(native, loaded).contains_key(provider) <==> {
            ||| provider == native_identity()
            ||| {
                &&& kind_of(provider.provider_type).has_record()
                &&& !provider.id.contains('.')
                &&& exists|i: int|
                    0 <= i < loaded.len() && (#[trigger] loaded[i]).name@ == record_name_of(
                        provider,
                    ) && loaded[i].handle is Some
            }
        },
    decreases loaded.len(),
{
    if loaded.len() == 0 {
    } else {
        let before = loaded.drop_last();
        let last = loaded.last();
        lemma_registered_after_start(native, before, provider);
        if admitted(last.name@) == Some(provider) {
            lemma_record_name_determined(last.name@, provider);
        }
        if last.name@ == record_name_of(provider) && !provider.id.contains('.') {
            lemma_record_name_read_back(provider);
        }
        if exists|i: int|
            0 <= i < before.len() && (#[trigger] before[i]).name@ == record_name_of(provider)
                && before[i].handle is Some {
            let i = choose|i: int|
                0 <= i < before.len() && (#[trigger] before[i]).name@ == record_name_of(provider)
                    && before[i].handle is Some;
            assert(loaded[i] == before[i]);
        }
        if exists|i: int|
            0 <= i < loaded.len() && (#[trigger] loaded[i]).name@ == record_name_of(provider)
                && loaded[i].handle is Some {
            let i = choose|i: int|
                0 <= i < loaded.len() && (#[trigger] loaded[i]).name@ == record_name_of(provider)
                    && loaded[i].handle is Some;
            if i < before.len() {
                assert(loaded[i] == before[i]);
            }
        }
    }
}

/// The directory of credential records as a map from the name of a record
/// to its content, after a record was written.
pub open spec fn after_store(
    directory: Map<Seq<char>, Seq<u8>>,
    name: Seq<char>,
    blob: Seq<u8>,
) -> Map<Seq<char>, Seq<u8>> {
    directory.insert(name, blob)
}

/// The directory after a record was deleted.
pub open spec fn after_delete(directory: Map<Seq<char>, Seq<u8>>, name: Seq<char>) -> Map<
    Seq<char>,
    Seq<u8>,
> {
    directory.remove(name)
}

/// Every record in `loaded` is one of `directory`.
pub open spec fn read_from<B>(loaded: Seq<Loaded<B>>, directory: Map<Seq<char>, Seq<u8>>) -> bool {
    forall|i: int| 0 <= i < loaded.len() ==> directory.contains_key((#[trigger] loaded[i]).name@)
}

} // verus!
