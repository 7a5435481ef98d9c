//! Adding and removing providers.
//!
//! Both take work that only the caller can do: building a backend, probing
//! it, writing and deleting credential records. So each is cut into steps.
//! The functions here decide what is done next and change the registry; the
//! caller carries out each [`EnrolStep`] and reports what came of it.

use crate::config::{S3Members, S3Params};
use crate::error::GatewayError;
use crate::identity::{kind_of, native_identity, record_name_of, Identity, ProviderId, ProviderKind};
use crate::registry::ProvidersMap;
use crate::startup::{
    after_delete, after_store, initial_registry, lemma_registered_after_start, read_from, Loaded,
};
use serde_json::Value;
use vstd::prelude::*;

verus! {

/// What the caller is to build a backend from.
#[derive(Debug, PartialEq, Eq)]
pub enum BuildRequest {
    /// An object store, reached with these parameters.
    S3(S3Params),
    /// A Google Drive account; the user is asked for consent.
    Google,
    /// A OneDrive account; the user is asked for consent.
    OneDrive,
}

/// How far the adding of a provider has come. A backend that was built
/// stays in here until it is registered.
#[derive(Debug, PartialEq, Eq)]
pub enum Enrolment<B> {
    /// The backend is being built.
    Building { provider: ProviderId },
    /// The backend is being probed: does it answer with these credentials?
    Probing { provider: ProviderId, handle: B },
    /// The credential record is being written.
    Storing { provider: ProviderId, handle: B },
}

/// What came of the step that the caller carried out.
#[derive(Debug, PartialEq, Eq)]
pub enum EnrolEvent<B> {
    /// The backend was built.
    Built(B),
    /// The backend could not be built.
    BuildFailed,
    /// The backend answered the probe; these are its credentials, serialised.
    Probed { credentials: Vec<u8> },
    /// The backend did not answer the probe.
    ProbeFailed,
    /// The credential record was written.
    Stored,
    /// The credential record could not be written.
    StoreFailed,
}

/// What the caller is to do next.
#[derive(Debug, PartialEq, Eq)]
pub enum EnrolStep<B> {
    /// Build the backend that `request` describes.
    Build { request: BuildRequest, then: Enrolment<B> },
    /// Probe the backend held in `then`, and serialise its credentials.
    Probe { then: Enrolment<B> },
    /// Write `blob` to the credential record called `name`, in place of what
    /// a record of that name held before.
    Store { name: String, blob: Vec<u8>, then: Enrolment<B> },
    /// The adding has ended, with this result.
    Finish(Result<(), GatewayError>),
}

/// The first step of adding `provider`. Only providers whose kind has
/// credential records can be added, and an object store only with all its
/// parameters.
pub open spec fn begin_step<B>(provider: ProviderId, params: Option<S3Params>) -> EnrolStep<B> {
    match kind_of(provider.provider_type@) {
        ProviderKind::S3 => match params {
            Some(p) => EnrolStep::Build {
                request: BuildRequest::S3(p),
                then: Enrolment::Building { provider },
            },
            None => EnrolStep::Finish(Err(GatewayError::AddProviderError)),
        },
        ProviderKind::Google => EnrolStep::Build {
            request: BuildRequest::Google,
            then: Enrolment::Building { provider },
        },
        ProviderKind::OneDrive => EnrolStep::Build {
            request: BuildRequest::OneDrive,
            then: Enrolment::Building { provider },
        },
        _ => EnrolStep::Finish(Err(GatewayError::AddProviderError)),
    }
}

/// Whether `step` is what follows `event` in `state`: after the build the
/// probe, after the probe the writing of the record, after that the end.
/// Any failure, and any event that does not answer the step before it, ends
/// the adding with `AddProviderError`.
pub open spec fn is_enrol_step<B>(
    state: Enrolment<B>,
    event: EnrolEvent<B>,
    step: EnrolStep<B>,
) -> bool {
    match (state, event) {
        (Enrolment::Building { provider }, EnrolEvent::Built(handle)) => step == (EnrolStep::Probe {
            then: Enrolment::Probing { provider, handle },
        }),
        (Enrolment::Probing { provider, handle }, EnrolEvent::Probed { credentials }) => {
            &&& step matches EnrolStep::Store { name, blob, then }
            &&& name@ == record_name_of(provider@)
            &&& blob == credentials
            &&& then == (Enrolment::Storing { provider, handle })
        },
        (Enrolment::Storing { provider, handle }, EnrolEvent::Stored) => step
            == EnrolStep::<B>::Finish(Ok(())),
        _ => step == EnrolStep::<B>::Finish(Err(GatewayError::AddProviderError)),
    }
}

/// The registry after `event` in `state`: the provider is registered once its
/// record is written, and nothing changes before that.
pub open spec fn enrolled<B>(
    registry: Map<Identity, B>,
    state: Enrolment<B>,
    event: EnrolEvent<B>,
) -> Map<Identity, B> {
    match (state, event) {
        (Enrolment::Storing { provider, handle }, EnrolEvent::Stored) => registry.insert(
            provider@,
            handle,
        ),
        _ => registry,
    }
}

/// What the removing of `provider` ends in, given whether its credential
/// record was deleted. The home-directory provider always stays.
pub open spec fn removal_result(provider: Identity, deleted: bool) -> Result<(), GatewayError> {
    if provider == native_identity() || !deleted {
        Err(GatewayError::RemoveProviderError)
    } else {
        Ok(())
    }
}

/// Starts the adding of `provider_id`, for an object store with `params`.
pub fn begin_with<B>(provider_id: ProviderId, params: Option<S3Params>) -> (step: EnrolStep<B>)
    ensures
        step == begin_step::<B>(provider_id, params),
{
    match provider_id.kind() {
        ProviderKind::S3 => match params {
            Some(p) => EnrolStep::Build {
                request: BuildRequest::S3(p),
                then: Enrolment::Building { provider: provider_id },
            },
            None => EnrolStep::Finish(Err(GatewayError::AddProviderError)),
        },
        ProviderKind::Google => EnrolStep::Build {
            request: BuildRequest::Google,
            then: Enrolment::Building { provider: provider_id },
        },
        ProviderKind::OneDrive => EnrolStep::Build {
            request: BuildRequest::OneDrive,
            then: Enrolment::Building { provider: provider_id },
        },
        _ => EnrolStep::Finish(Err(GatewayError::AddProviderError)),
    }
}

/// Starts the adding of `provider_id`, configured by `config`. An object
/// store takes its bucket, region, endpoint, access key and secret key from
/// the members of `config` of those names.
pub fn begin_add<B>(provider_id: ProviderId, config: &Value) -> (step: EnrolStep<B>)
    ensures
        exists|members: S3Members|
            members.found_in(*config) && step == begin_step::<B>(provider_id, members.params()),
{
    let members = S3Members::read(config);
    let params = members.into_params();
    begin_with(provider_id, params)
}

/// Whether `r` is what the removing of `provider` starts with: the name of
/// its credential record, or `RemoveProviderError` for the home-directory
/// provider, which always stays.
pub open spec fn is_removal_request(provider: Identity, r: Result<String, GatewayError>) -> bool {
    if provider == native_identity() {
        r == Err::<String, GatewayError>(GatewayError::RemoveProviderError)
    } else {
        r matches Ok(name) && name@ == record_name_of(provider)
    }
}

/// Starts the removing of `provider_id`: the name of the credential record
/// that the caller is to delete.
pub fn begin_remove(provider_id: &ProviderId) -> (r: Result<String, GatewayError>)
    ensures
        is_removal_request(provider_id@, r),
{
    if provider_id.is_native() {
        Err(GatewayError::RemoveProviderError)
    } else {
        Ok(provider_id.record_name())
    }
}

impl<B> Enrolment<B> {
    /// The backend that is being added, once it is built.
    pub fn handle(&self) -> (r: Option<&B>)
        ensures
            match *self {
                Enrolment::Building { .. } => r is None,
                Enrolment::Probing { handle, .. } => r == Some(&handle),
                Enrolment::Storing { handle, .. } => r == Some(&handle),
            },
    {
        match self {
            Enrolment::Building { .. } => None,
            Enrolment::Probing { handle, .. } => Some(handle),
            Enrolment::Storing { handle, .. } => Some(handle),
        }
    }
}

impl<B> ProvidersMap<B> {
    /// Takes the adding of a provider one step further. The provider is
    /// registered when its credential record has been written, and the
    /// registry does not change before that, nor when anything fails.
    pub fn add_provider(&mut self, state: Enrolment<B>, event: EnrolEvent<B>) -> (step: EnrolStep<
        B,
    >)
        requires
            old(self).well_formed(),
        ensures
            final(self).well_formed(),
            is_enrol_step(state, event, step),
            final(self)@ == enrolled(old(self)@, state, event),
    {
        match state {
            Enrolment::Building { provider } => match event {
                EnrolEvent::Built(handle) => EnrolStep::Probe {
                    then: Enrolment::Probing { provider, handle },
                },
                _ => EnrolStep::Finish(Err(GatewayError::AddProviderError)),
            },
            Enrolment::Probing { provider, handle } => match event {
                EnrolEvent::Probed { credentials } => {
                    let name = provider.record_name();
                    EnrolStep::Store {
                        name,
                        blob: credentials,
                        then: Enrolment::Storing { provider, handle },
                    }
                },
                _ => EnrolStep::Finish(Err(GatewayError::AddProviderError)),
            },
            Enrolment::Storing { provider, handle } => match event {
                EnrolEvent::Stored => {
                    self.insert(provider, handle);
                    EnrolStep::Finish(Ok(()))
                },
                _ => EnrolStep::Finish(Err(GatewayError::AddProviderError)),
            },
        }
    }

    /// Ends the removing of `provider_id`, given whether its credential
    /// record was deleted. The provider leaves the registry only if it was.
    pub fn remove_provider(&mut self, provider_id: &ProviderId, deleted: bool) -> (r: Result<
        (),
        GatewayError,
    >)
        requires
            old(self).well_formed(),
        ensures
            final(self).well_formed(),
            r == removal_result(provider_id@, deleted),
            r is Ok ==> final(self)@ == old(self)@.remove(provider_id@),
            r is Err ==> final(self)@ == old(self)@,
    {
        if provider_id.is_native() || !deleted {
            Err(GatewayError::RemoveProviderError)
        } else {
            self.discard(provider_id);
            Ok(())
        }
    }
}

/// A credential record is written only for a backend that answered its
/// probe: the step that asks for the write follows a successful probe and
/// nothing else, a failed probe ends the adding, and the registry changes
/// only after the record is written.
pub proof fn lemma_store_only_after_probe<B>(
    registry: Map<Identity, B>,
    state: Enrolment<B>,
    event: EnrolEvent<B>,
    step: EnrolStep<B>,
)
    requires
        is_enrol_step(state, event, step),
    ensures
        step is Store ==> state is Probing && event is Probed,
        event is ProbeFailed ==> step == EnrolStep::<B>::Finish(
            Err(GatewayError::AddProviderError),
        ),
        step matches EnrolStep::Store { then, .. } ==> then is Storing,
        !(state is Storing && event is Stored) ==> enrolled(registry, state, event) == registry,
        step matches EnrolStep::Finish(Err(_)) ==> enrolled(registry, state, event) == registry,
{
}

/// Two providers of different identities that are added one after the other
/// are both registered afterwards, each with its own backend, and in
/// whichever order their records were written the registry is the same.
pub proof fn lemma_adds_keep_each_other<B>(
    registry: Map<Identity, B>,
    a: ProviderId,
    handle_a: B,
    b: ProviderId,
    handle_b: B,
)
    requires
        a@ != b@,
    ensures
        ({
            let first = enrolled(
                registry,
                Enrolment::Storing { provider: a, handle: handle_a },
                EnrolEvent::Stored,
            );
            let both = enrolled(
                first,
                Enrolment::Storing { provider: b, handle: handle_b },
                EnrolEvent::Stored,
            );
            let other = enrolled(
                enrolled(
                    registry,
                    Enrolment::Storing { provider: b, handle: handle_b },
                    EnrolEvent::Stored,
                ),
                Enrolment::Storing { provider: a, handle: handle_a },
                EnrolEvent::Stored,
            );
            &&& both.contains_key(a@) && both[a@] == handle_a
            &&& both.contains_key(b@) && both[b@] == handle_b
            &&& both == other
        }),
{
    let both = registry.insert(a@, handle_a).insert(b@, handle_b);
    let other = registry.insert(b@, handle_b).insert(a@, handle_a);
    assert(both =~= other);
}

/// A provider that was added and then removed is not registered at the next
/// start. The record that the adding writes and the record that the removing
/// deletes are the same, and once it is deleted no record that is left in
/// the directory stands for the provider.
pub proof fn lemma_removed_provider_stays_away<B>(
    directory: Map<Seq<char>, Seq<u8>>,
    provider: ProviderId,
    handle: B,
    credentials: Vec<u8>,
    store: EnrolStep<B>,
    removal: Result<String, GatewayError>,
    native: B,
    loaded: Seq<Loaded<B>>,
)
    requires
        is_enrol_step(
            Enrolment::Probing { provider, handle },
            EnrolEvent::Probed { credentials },
            store,
        ),
        is_removal_request(provider@, removal),
        removal is Ok,
        store matches EnrolStep::Store { name, blob, .. } && read_from(
            loaded,
            after_delete(after_store(directory, name@, blob@), removal->Ok_0@),
        ),
    ensures
        !initial_registry(native, loaded).contains_key(provider@),
{
    lemma_registered_after_start(native, loaded, provider@);
}

} // verus!
