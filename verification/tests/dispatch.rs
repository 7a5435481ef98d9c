use storage_gateway::dispatch::{
    create, delete, list_folder_content, move_to, open, read_file, rename, resume, write_file,
    BackendCall, Event, Pending, Reply, Step,
};
use storage_gateway::error::{BackendError, GatewayError};
use storage_gateway::identity::ProviderId;
use storage_gateway::objects::{ContentKind, File, ObjectId};
use storage_gateway::registry::ProvidersMap;
use storage_gateway::startup::Loaded;

fn named(id: &str, provider_type: &str) -> ProviderId {
    ProviderId { id: id.to_string(), provider_type: provider_type.to_string() }
}

fn text(path: &str) -> ObjectId {
    ObjectId::plain_text(path.to_string())
}

fn two_providers() -> ProvidersMap<&'static str> {
    let loaded = vec![
        Loaded { name: "work.S3".to_string(), handle: Some("bucket") },
        Loaded { name: "me.Google".to_string(), handle: Some("drive") },
    ];
    ProvidersMap::new("home", loaded).0
}

fn not_found<'a>() -> Step<'a, &'static str> {
    Step::Finish(Err(GatewayError::NotFound))
}

#[test]
fn object_references_keep_path_and_kind() {
    let d = ObjectId::directory("/tmp".to_string());
    assert_eq!(d.as_str(), "/tmp");
    assert_eq!(d.kind, ContentKind::Directory);
    let t = ObjectId::plain_text("a.txt".to_string());
    assert_eq!(t.as_str(), "a.txt");
    assert_eq!(t.kind, ContentKind::PlainText);
    assert_ne!(ObjectId::directory("x".to_string()), ObjectId::plain_text("x".to_string()));
    assert_eq!(t.clone(), t);
}

#[test]
fn file_clone_is_the_same_file() {
    let f = File { id: text("a.txt"), name: "a.txt".to_string(), mime_type: Some("text/plain".to_string()) };
    assert_eq!(f.clone(), f);
    let g = File { id: text("b"), name: "b".to_string(), mime_type: None };
    assert_eq!(g.clone(), g);
}

#[test]
fn read_file_asks_the_provider_for_the_content() {
    let registry = two_providers();
    assert_eq!(
        read_file(&registry, &named("work", "S3"), text("a.txt")),
        Step::Call {
            handle: &"bucket",
            call: BackendCall::ReadFile { path: text("a.txt") },
            then: Pending::Read,
        }
    );
    assert_eq!(
        resume(&registry, Pending::Read, Event::Content(vec![1, 2, 3])),
        Step::Finish(Ok(Reply::Content(vec![1, 2, 3])))
    );
}

#[test]
fn commands_on_an_unknown_provider_are_not_found() {
    let registry = two_providers();
    let who = named("nobody", "S3");
    assert_eq!(read_file(&registry, &who, text("a")), not_found());
    assert_eq!(write_file(&registry, &who, text("a"), vec![1]), not_found());
    assert_eq!(open(&registry, &who, text("a")), not_found());
    assert_eq!(rename(&registry, &who, text("a"), "b".to_string()), not_found());
    assert_eq!(delete(&registry, &who, text("a")), not_found());
    let f = File { id: text("a/b"), name: "b".to_string(), mime_type: None };
    assert_eq!(create(&registry, &who, text("a"), f), not_found());
    assert_eq!(
        move_to(&registry, who.clone(), text("a"), who.clone(), text("b")),
        not_found()
    );
    assert_eq!(
        move_to(&registry, who, text("a"), named("work", "S3"), text("b")),
        not_found()
    );
}

#[test]
fn listing_an_unknown_provider_is_empty() {
    let registry = two_providers();
    assert_eq!(
        list_folder_content(&registry, &named("nobody", "S3"), ObjectId::directory("/".to_string())),
        Step::Finish(Ok(Reply::Files(vec![])))
    );
}

#[test]
fn listing_returns_what_the_backend_lists() {
    let registry = two_providers();
    let root = ObjectId::directory("/".to_string());
    assert_eq!(
        list_folder_content(&registry, &ProviderId::native(), root.clone()),
        Step::Call {
            handle: &"home",
            call: BackendCall::ListFolderContent { path: root },
            then: Pending::List,
        }
    );
    let files = vec![File { id: text("/a"), name: "a".to_string(), mime_type: None }];
    assert_eq!(
        resume(&registry, Pending::List, Event::Files(files.clone())),
        Step::Finish(Ok(Reply::Files(files)))
    );
}

#[test]
fn write_create_rename_delete_ask_their_backend_and_end_when_it_is_done() {
    let registry = two_providers();
    let work = named("work", "S3");
    assert_eq!(
        write_file(&registry, &work, text("a"), vec![7, 8]),
        Step::Call {
            handle: &"bucket",
            call: BackendCall::WriteFile { path: text("a"), content: vec![7, 8] },
            then: Pending::Write,
        }
    );
    let f = File { id: text("d/n"), name: "n".to_string(), mime_type: Some("text/plain".to_string()) };
    assert_eq!(
        create(&registry, &work, ObjectId::directory("d".to_string()), f.clone()),
        Step::Call {
            handle: &"bucket",
            call: BackendCall::Create { parent: ObjectId::directory("d".to_string()), file: f },
            then: Pending::Create,
        }
    );
    assert_eq!(
        rename(&registry, &work, text("a"), "b".to_string()),
        Step::Call {
            handle: &"bucket",
            call: BackendCall::Rename { path: text("a"), new_name: "b".to_string() },
            then: Pending::Rename,
        }
    );
    assert_eq!(
        delete(&registry, &work, text("a")),
        Step::Call {
            handle: &"bucket",
            call: BackendCall::Delete { path: text("a") },
            then: Pending::Delete,
        }
    );
    for pending in [Pending::Write, Pending::Create, Pending::Rename, Pending::Delete, Pending::Move] {
        assert_eq!(resume(&registry, pending, Event::Completed), Step::Finish(Ok(Reply::Done)));
    }
}

#[test]
fn open_asks_for_metadata_then_launches() {
    let registry = two_providers();
    assert_eq!(
        open(&registry, &named("me", "Google"), text("doc")),
        Step::Call {
            handle: &"drive",
            call: BackendCall::GetMetadata { path: text("doc") },
            then: Pending::Open,
        }
    );
    assert_eq!(
        resume(&registry, Pending::Open, Event::Metadata { open_path: "https://x/doc".to_string() }),
        Step::Launch { open_path: "https://x/doc".to_string() }
    );
    assert_eq!(resume(&registry, Pending::Launch, Event::Completed), Step::Finish(Ok(Reply::Done)));
    assert_eq!(
        resume(&registry, Pending::Launch, Event::LaunchFailed),
        Step::Finish(Err(GatewayError::IoError))
    );
    assert_eq!(
        resume(&registry, Pending::Open, Event::Failed(BackendError::NotFound)),
        Step::Finish(Err(GatewayError::NotFound))
    );
}

#[test]
fn move_inside_one_provider_is_the_backends_own_move() {
    let registry = two_providers();
    let work = named("work", "S3");
    assert_eq!(
        move_to(&registry, work.clone(), text("a"), work, text("b")),
        Step::Call {
            handle: &"bucket",
            call: BackendCall::MoveTo { path: text("a"), new_path: text("b") },
            then: Pending::Move,
        }
    );
    assert_eq!(resume(&registry, Pending::Move, Event::Completed), Step::Finish(Ok(Reply::Done)));
    assert_eq!(
        resume(&registry, Pending::Move, Event::Failed(BackendError::IoError)),
        Step::Finish(Err(GatewayError::IoError))
    );
}

#[test]
fn move_between_providers_reads_then_writes_the_same_bytes() {
    let registry = two_providers();
    let step = move_to(&registry, named("work", "S3"), text("a"), named("me", "Google"), text("b"));
    assert_eq!(
        step,
        Step::Call {
            handle: &"bucket",
            call: BackendCall::ReadFile { path: text("a") },
            then: Pending::CopyRead { new_provider: named("me", "Google"), new_path: text("b") },
        }
    );
    let content: Vec<u8> = vec![0, 255, 10, 13, 0, 1];
    let pending = Pending::CopyRead { new_provider: named("me", "Google"), new_path: text("b") };
    assert_eq!(
        resume(&registry, pending, Event::Content(content.clone())),
        Step::Call {
            handle: &"drive",
            call: BackendCall::WriteFile { path: text("b"), content },
            then: Pending::CopyWrite,
        }
    );
    assert_eq!(
        resume(&registry, Pending::CopyWrite, Event::Completed),
        Step::Finish(Ok(Reply::Done))
    );
}

#[test]
fn move_to_an_unknown_destination_reads_nothing() {
    let registry = two_providers();
    assert_eq!(
        move_to(&registry, named("work", "S3"), text("a"), named("gone", "Google"), text("b")),
        not_found()
    );
}

#[test]
fn move_whose_destination_left_meanwhile_is_not_found() {
    let mut registry = two_providers();
    let pending = Pending::CopyRead { new_provider: named("me", "Google"), new_path: text("b") };
    assert_eq!(registry.remove_provider(&named("me", "Google"), true), Ok(()));
    assert_eq!(resume(&registry, pending, Event::Content(vec![1])), not_found());
}

#[test]
fn move_whose_read_fails_writes_nothing() {
    let registry = two_providers();
    let pending = Pending::CopyRead { new_provider: named("me", "Google"), new_path: text("b") };
    assert_eq!(
        resume(&registry, pending, Event::Failed(BackendError::NotFound)),
        Step::Finish(Err(GatewayError::NotFound))
    );
}

#[test]
fn backend_failures_are_surfaced() {
    let registry = two_providers();
    let cases = [
        (BackendError::NotFound, GatewayError::NotFound),
        (BackendError::AlreadyExists, GatewayError::AlreadyExists),
        (BackendError::IoError, GatewayError::IoError),
        (BackendError::QuotaExceeded, GatewayError::IoError),
        (BackendError::Timeout, GatewayError::TimeoutError),
    ];
    for (backend, surfaced) in cases {
        assert_eq!(GatewayError::from_backend(backend), surfaced);
        assert_eq!(
            resume(&registry, Pending::Write, Event::Failed(backend)),
            Step::Finish(Err(surfaced))
        );
    }
}

#[test]
fn an_event_that_answers_nothing_is_an_io_error() {
    let registry = two_providers();
    let io = || -> Step<'static, &'static str> { Step::Finish(Err(GatewayError::IoError)) };
    assert_eq!(resume(&registry, Pending::Write, Event::Content(vec![1])), io());
    assert_eq!(resume(&registry, Pending::Read, Event::Completed), io());
    assert_eq!(resume(&registry, Pending::Read, Event::Files(vec![])), io());
    assert_eq!(resume(&registry, Pending::List, Event::Completed), io());
    assert_eq!(
        resume(&registry, Pending::Read, Event::Metadata { open_path: "p".to_string() }),
        io()
    );
    assert_eq!(resume(&registry, Pending::Open, Event::Completed), io());
    let pending = Pending::CopyRead { new_provider: named("me", "Google"), new_path: text("b") };
    assert_eq!(resume(&registry, pending, Event::Completed), io());
}

#[test]
fn every_failure_has_its_message() {
    assert_eq!(GatewayError::NotFound.message(), "Provider or object not found");
    assert_eq!(GatewayError::AlreadyExists.message(), "Object already exists");
    assert_eq!(GatewayError::IoError.message(), "Input/output error");
    assert_eq!(GatewayError::AddProviderError.message(), "Unable to add provider");
    assert_eq!(GatewayError::RemoveProviderError.message(), "Unable to remove provider");
    assert_eq!(GatewayError::DiscoveryError.message(), "Unable to read the provider directory");
    assert_eq!(GatewayError::TimeoutError.message(), "Operation timed out");
}
