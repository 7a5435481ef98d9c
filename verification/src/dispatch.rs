//! The dispatcher: for each command, which backend is asked for what, and
//! what the caller is told in the end.
//!
//! The dispatcher itself never waits. A command starts with one of the
//! functions named after it, which returns a [`Step`]. The caller does what
//! the step asks (calls the backend, launches an application), reports what
//! came of it as an [`Event`] to [`resume`], and goes on until a step is
//! [`Step::Finish`].

use crate::error::{surfaced, BackendError, GatewayError};
use crate::identity::{Identity, ProviderId};
use crate::objects::{File, ObjectId};
use crate::registry::ProvidersMap;
use vstd::prelude::*;

verus! {

/// One operation of a backend, with its operands.
#[derive(Debug, PartialEq, Eq)]
pub enum BackendCall {
    ReadFile { path: ObjectId },
    WriteFile { path: ObjectId, content: Vec<u8> },
    ListFolderContent { path: ObjectId },
    GetMetadata { path: ObjectId },
    Create { parent: ObjectId, file: File },
    Rename { path: ObjectId, new_name: String },
    Delete { path: ObjectId },
    MoveTo { path: ObjectId, new_path: ObjectId },
}

/// What a command waits for while its caller carries out a step.
#[derive(Debug, PartialEq, Eq)]
pub enum Pending {
    /// The content of a file that the command returns.
    Read,
    /// The end of a write.
    Write,
    /// The entries of a folder.
    List,
    /// The metadata of the object to open.
    Open,
    /// The launch of the application that opens the object.
    Launch,
    /// The end of a create.
    Create,
    /// The end of a rename.
    Rename,
    /// The end of a delete.
    Delete,
    /// The end of a move inside one backend.
    Move,
    /// The content of the source of a move between two backends.
    CopyRead { new_provider: ProviderId, new_path: ObjectId },
    /// The end of the write that completes a move between two backends.
    CopyWrite,
}

/// What came of the step that the caller carried out.
#[derive(Debug, PartialEq, Eq)]
pub enum Event {
    /// The backend returned the content of a file.
    Content(Vec<u8>),
    /// The backend returned the entries of a folder.
    Files(Vec<File>),
    /// The backend returned metadata: where the object can be opened.
    Metadata { open_path: String },
    /// The operation, or the launch, succeeded and returned nothing.
    Completed,
    /// The backend failed.
    Failed(BackendError),
    /// The application could not be launched.
    LaunchFailed,
}

/// What a command returns when it succeeds.
#[derive(Debug, PartialEq, Eq)]
pub enum Reply {
    Content(Vec<u8>),
    Files(Vec<File>),
    Done,
}

/// What the caller is to do next.
#[derive(Debug, PartialEq, Eq)]
pub enum Step<'a, B> {
    /// Make `call` on the backend `handle`, and report the result together
    /// with `then`.
    Call { handle: &'a B, call: BackendCall, then: Pending },
    /// Open `open_path` with the system's default application, and report
    /// the result together with [`Pending::Launch`].
    Launch { open_path: String },
    /// The command has ended, with this result.
    Finish(Result<Reply, GatewayError>),
}

/// The step that asks the backend of `provider` for `call`, or ends the
/// command with `NotFound` where no such provider is registered.
pub open spec fn call_step<'a, B>(
    registry: Map<Identity, B>,
    provider: Identity,
    call: BackendCall,
    then: Pending,
) -> Step<'a, B> {
    if registry.contains_key(provider) {
        Step::Call { handle: &registry[provider], call, then }
    } else {
        Step::Finish(Err(GatewayError::NotFound))
    }
}

/// Whether `step` is the first step of a listing. Where no such provider is
/// registered the listing is empty, so that one misconfigured provider does
/// not stop the caller from showing the others.
pub open spec fn is_list_step<'a, B>(
    registry: Map<Identity, B>,
    provider: Identity,
    path: ObjectId,
    step: Step<'a, B>,
) -> bool {
    if registry.contains_key(provider) {
        step == (Step::Call {
            handle: &registry[provider],
            call: BackendCall::ListFolderContent { path },
            then: Pending::List,
        })
    } else {
        step matches Step::Finish(Ok(Reply::Files(files))) && files@.len() == 0
    }
}

/// The first step of a move. Inside one backend, the backend moves the
/// object itself. Between two backends the content is read from the source
/// and then written to the destination; nothing is asked of either backend
/// unless both are registered.
pub open spec fn move_step<'a, B>(
    registry: Map<Identity, B>,
    provider: ProviderId,
    path: ObjectId,
    new_provider: ProviderId,
    new_path: ObjectId,
) -> Step<'a, B> {
    if provider@ == new_provider@ {
        call_step(registry, provider@, BackendCall::MoveTo { path, new_path }, Pending::Move)
    } else if registry.contains_key(new_provider@) {
        call_step(
            registry,
            provider@,
            BackendCall::ReadFile { path },
            Pending::CopyRead { new_provider, new_path },
        )
    } else {
        Step::Finish(Err(GatewayError::NotFound))
    }
}

/// The step that follows `event`, for a command that waits for `pending`.
/// An event that does not answer what the command waits for ends it with
/// `IoError`.
pub open spec fn resume_step<'a, B>(
    registry: Map<Identity, B>,
    pending: Pending,
    event: Event,
) -> Step<'a, B> {
    match event {
        Event::Failed(e) => Step::Finish(Err(surfaced(e))),
        Event::LaunchFailed => Step::Finish(Err(GatewayError::IoError)),
        Event::Content(content) => match pending {
            Pending::Read => Step::Finish(Ok(Reply::Content(content))),
            Pending::CopyRead { new_provider, new_path } => call_step(
                registry,
                new_provider@,
                BackendCall::WriteFile { path: new_path, content },
                Pending::CopyWrite,
            ),
            _ => Step::Finish(Err(GatewayError::IoError)),
        },
        Event::Files(files) => match pending {
            Pending::List => Step::Finish(Ok(Reply::Files(files))),
            _ => Step::Finish(Err(GatewayError::IoError)),
        },
        Event::Metadata { open_path } => match pending {
            Pending::Open => Step::Launch { open_path },
            _ => Step::Finish(Err(GatewayError::IoError)),
        },
        Event::Completed => match pending {
            Pending::Write
            | Pending::Launch
            | Pending::Create
            | Pending::Rename
            | Pending::Delete
            | Pending::Move
            | Pending::CopyWrite => Step::Finish(Ok(Reply::Done)),
            _ => Step::Finish(Err(GatewayError::IoError)),
        },
    }
}

/// Looks `provider_id` up and asks its backend for `call`.
fn call_on<'a, B>(
    registry: &'a ProvidersMap<B>,
    provider_id: &ProviderId,
    call: BackendCall,
    then: Pending,
) -> (step: Step<'a, B>)
    requires
        registry.well_formed(),
    ensures
        step == call_step::<B>(registry@, provider_id@, call, then),
{
    match registry.get_provider(provider_id) {
        Ok(handle) => Step::Call { handle, call, then },
        Err(e) => Step::Finish(Err(e)),
    }
}

/// Starts the command that returns the content of the file at `path`.
pub fn read_file<'a, B>(
    registry: &'a ProvidersMap<B>,
    provider_id: &ProviderId,
    path: ObjectId,
) -> (step: Step<'a, B>)
    requires
        registry.well_formed(),
    ensures
        step == call_step::<B>(
            registry@,
            provider_id@,
            BackendCall::ReadFile { path },
            Pending::Read,
        ),
{
    call_on(registry, provider_id, BackendCall::ReadFile { path }, Pending::Read)
}

/// Starts the command that writes `content` to the file at `path`.
pub fn write_file<'a, B>(
    registry: &'a ProvidersMap<B>,
    provider_id: &ProviderId,
    path: ObjectId,
    content: Vec<u8>,
) -> (step: Step<'a, B>)
    requires
        registry.well_formed(),
    ensures
        step == call_step::<B>(
            registry@,
            provider_id@,
            BackendCall::WriteFile { path, content },
            Pending::Write,
        ),
{
    call_on(registry, provider_id, BackendCall::WriteFile { path, content }, Pending::Write)
}

/// Starts the command that lists the folder at `path`.
pub fn list_folder_content<'a, B>(
    registry: &'a ProvidersMap<B>,
    provider_id: &ProviderId,
    path: ObjectId,
) -> (step: Step<'a, B>)
    requires
        registry.well_formed(),
    ensures
        is_list_step::<B>(registry@, provider_id@, path, step),
{
    match registry.get_provider(provider_id) {
        Ok(handle) => Step::Call {
            handle,
            call: BackendCall::ListFolderContent { path },
            then: Pending::List,
        },
        Err(_) => Step::Finish(Ok(Reply::Files(Vec::new()))),
    }
}

/// Starts the command that opens the object at `path` with the system's
/// default application.
pub fn open<'a, B>(
    registry: &'a ProvidersMap<B>,
    provider_id: &ProviderId,
    path: ObjectId,
) -> (step: Step<'a, B>)
    requires
        registry.well_formed(),
    ensures
        step == call_step::<B>(
            registry@,
            provider_id@,
            BackendCall::GetMetadata { path },
            Pending::Open,
        ),
{
    call_on(registry, provider_id, BackendCall::GetMetadata { path }, Pending::Open)
}

/// Starts the command that moves the object at `path` of one provider to
/// `new_path` of another, or of the same.
pub fn move_to<'a, B>(
    registry: &'a ProvidersMap<B>,
    provider_id: ProviderId,
    path: ObjectId,
    new_provider_id: ProviderId,
    new_path: ObjectId,
) -> (step: Step<'a, B>)
    requires
        registry.well_formed(),
    ensures
        step == move_step::<B>(registry@, provider_id, path, new_provider_id, new_path),
{
    if provider_id == new_provider_id {
        call_on(registry, &provider_id, BackendCall::MoveTo { path, new_path }, Pending::Move)
    } else if registry.contains(&new_provider_id) {
        call_on(
            registry,
            &provider_id,
            BackendCall::ReadFile { path },
            Pending::CopyRead { new_provider: new_provider_id, new_path },
        )
    } else {
        Step::Finish(Err(GatewayError::NotFound))
    }
}

/// Starts the command that gives the object at `path` the name `new_name`.
pub fn rename<'a, B>(
    registry: &'a ProvidersMap<B>,
    provider_id: &ProviderId,
    path: ObjectId,
    new_name: String,
) -> (step: Step<'a, B>)
    requires
        registry.well_formed(),
    ensures
        step == call_step::<B>(
            registry@,
            provider_id@,
            BackendCall::Rename { path, new_name },
            Pending::Rename,
        ),
{
    call_on(registry, provider_id, BackendCall::Rename { path, new_name }, Pending::Rename)
}

/// Starts the command that creates `file` in the folder at `path`.
pub fn create<'a, B>(
    registry: &'a ProvidersMap<B>,
    provider_id: &ProviderId,
    path: ObjectId,
    file: File,
) -> (step: Step<'a, B>)
    requires
        registry.well_formed(),
    ensures
        step == call_step::<B>(
            registry@,
            provider_id@,
            BackendCall::Create { parent: path, file },
            Pending::Create,
        ),
{
    call_on(registry, provider_id, BackendCall::Create { parent: path, file }, Pending::Create)
}

/// Starts the command that deletes the object at `path`.
pub fn delete<'a, B>(
    registry: &'a ProvidersMap<B>,
    provider_id: &ProviderId,
    path: ObjectId,
) -> (step: Step<'a, B>)
    requires
        registry.well_formed(),
    ensures
        step == call_step::<B>(
            registry@,
            provider_id@,
            BackendCall::Delete { path },
            Pending::Delete,
        ),
{
    call_on(registry, provider_id, BackendCall::Delete { path }, Pending::Delete)
}

/// Takes a command up again after its caller carried out a step.
pub fn resume<'a, B>(registry: &'a ProvidersMap<B>, pending: Pending, event: Event) -> (step: Step<
    'a,
    B,
>)
    requires
        registry.well_formed(),
    ensures
        step == resume_step::<B>(registry@, pending, event),
{
    match event {
        Event::Failed(e) => Step::Finish(Err(GatewayError::from_backend(e))),
        Event::LaunchFailed => Step::Finish(Err(GatewayError::IoError)),
        Event::Content(content) => match pending {
            Pending::Read => Step::Finish(Ok(Reply::Content(content))),
            Pending::CopyRead { new_provider, new_path } => call_on(
                registry,
                &new_provider,
                BackendCall::WriteFile { path: new_path, content },
                Pending::CopyWrite,
            ),
            _ => Step::Finish(Err(GatewayError::IoError)),
        },
        Event::Files(files) => match pending {
            Pending::List => Step::Finish(Ok(Reply::Files(files))),
            _ => Step::Finish(Err(GatewayError::IoError)),
        },
        Event::Metadata { open_path } => match pending {
            Pending::Open => Step::Launch { open_path },
            _ => Step::Finish(Err(GatewayError::IoError)),
        },
        Event::Completed => match pending {
            Pending::Write
            | Pending::Launch
            | Pending::Create
            | Pending::Rename
            | Pending::Delete
            | Pending::Move
            | Pending::CopyWrite => Step::Finish(Ok(Reply::Done)),
            _ => Step::Finish(Err(GatewayError::IoError)),
        },
    }
}

/// A move inside one provider asks nothing of any other backend. Its first
/// step is a call of the move on that provider's own backend, or the end of
/// the command where the provider is not registered; and whatever comes of
/// that call, the command then ends.
pub proof fn lemma_move_within_one_provider<B>(
    registry: Map<Identity, B>,
    provider: ProviderId,
    path: ObjectId,
    new_provider: ProviderId,
    new_path: ObjectId,
    event: Event,
)
    requires
        provider@ == new_provider@,
    ensures
        registry.contains_key(provider@) ==> move_step(
            registry,
            provider,
            path,
            new_provider,
            new_path,
        ) == (Step::Call {
            handle: &registry[provider@],
            call: BackendCall::MoveTo { path, new_path },
            then: Pending::Move,
        }),
        !registry.contains_key(provider@) ==> move_step(
            registry,
            provider,
            path,
            new_provider,
            new_path,
        ) == Step::<B>::Finish(Err(GatewayError::NotFound)),
        resume_step(registry, Pending::Move, event) is Finish,
{
}

/// A move between two registered providers reads the source, then writes
/// to the destination, at the new path, the very content that was read, and
/// ends when that is written.
pub proof fn lemma_move_between_providers_copies<B>(
    registry: Map<Identity, B>,
    provider: ProviderId,
    path: ObjectId,
    new_provider: ProviderId,
    new_path: ObjectId,
    content: Vec<u8>,
)
    requires
        provider@ != new_provider@,
        registry.contains_key(provider@),
        registry.contains_key(new_provider@),
    ensures
        move_step(registry, provider, path, new_provider, new_path) == (Step::Call {
            handle: &registry[provider@],
            call: BackendCall::ReadFile { path },
            then: Pending::CopyRead { new_provider, new_path },
        }),
        resume_step(
            registry,
            Pending::CopyRead { new_provider, new_path },
            Event::Content(content),
        ) == (Step::Call {
            handle: &registry[new_provider@],
            call: BackendCall::WriteFile { path: new_path, content },
            then: Pending::CopyWrite,
        }),
        resume_step(registry, Pending::CopyWrite, Event::Completed) == Step::<B>::Finish(
            Ok(Reply::Done),
        ),
{
}

/// Once a command has started, the only call it still makes is the write
/// that completes a move between two backends. So no command deletes the
/// source of a move: the object stays where it was.
pub proof fn lemma_only_a_copy_calls_again<B>(
    registry: Map<Identity, B>,
    pending: Pending,
    event: Event,
)
    ensures
        resume_step(registry, pending, event) matches Step::Call { call, then, .. } ==> {
            &&& pending is CopyRead
            &&& event is Content
            &&& call is WriteFile
            &&& then == Pending::CopyWrite
        },
{
}

} // verus!
