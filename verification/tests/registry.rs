use storage_gateway::error::GatewayError;
use storage_gateway::identity::ProviderId;
use storage_gateway::provision::{EnrolEvent, EnrolStep, Enrolment};
use storage_gateway::registry::ProvidersMap;

fn id_of(id: &str, provider_type: &str) -> ProviderId {
    ProviderId { id: id.to_string(), provider_type: provider_type.to_string() }
}

fn register(registry: &mut ProvidersMap<u8>, provider: ProviderId, handle: u8) {
    let state = Enrolment::Storing { provider, handle };
    assert_eq!(registry.add_provider(state, EnrolEvent::Stored), EnrolStep::Finish(Ok(())));
}

#[test]
fn registry_with_native_holds_only_the_home_directory() {
    let registry = ProvidersMap::with_native("home");
    assert_eq!(registry.list_providers(), vec![ProviderId::native()]);
    assert_eq!(registry.get_provider(&ProviderId::native()), Ok(&"home"));
    assert!(registry.contains(&ProviderId::native()));
}

#[test]
fn get_provider_of_an_unknown_identity_is_not_found() {
    let registry = ProvidersMap::with_native(0u8);
    assert_eq!(registry.get_provider(&id_of("work", "S3")), Err(GatewayError::NotFound));
    assert!(!registry.contains(&id_of("work", "S3")));
    assert_eq!(
        registry.get_provider(&id_of("my local files", "native_fs")),
        Err(GatewayError::NotFound)
    );
}

#[test]
fn adding_registers_and_replaces() {
    let mut registry = ProvidersMap::with_native(0u8);
    register(&mut registry, id_of("work", "S3"), 1);
    register(&mut registry, id_of("home", "Google"), 2);
    assert_eq!(registry.get_provider(&id_of("work", "S3")), Ok(&1));
    assert_eq!(registry.get_provider(&id_of("home", "Google")), Ok(&2));
    assert_eq!(registry.list_providers().len(), 3);
    register(&mut registry, id_of("work", "S3"), 9);
    assert_eq!(registry.get_provider(&id_of("work", "S3")), Ok(&9));
    assert_eq!(registry.get_provider(&id_of("home", "Google")), Ok(&2));
    assert_eq!(registry.get_provider(&ProviderId::native()), Ok(&0));
    assert_eq!(registry.list_providers().len(), 3);
}

#[test]
fn list_providers_names_each_provider_once() {
    let mut registry = ProvidersMap::with_native(0u8);
    register(&mut registry, id_of("a", "S3"), 1);
    register(&mut registry, id_of("b", "S3"), 2);
    register(&mut registry, id_of("a", "Google"), 3);
    register(&mut registry, id_of("a", "S3"), 4);
    let mut listed: Vec<(String, String)> =
        registry.list_providers().into_iter().map(|p| (p.id, p.provider_type)).collect();
    listed.sort();
    assert_eq!(
        listed,
        vec![
            ("My local files".to_string(), "native_fs".to_string()),
            ("a".to_string(), "Google".to_string()),
            ("a".to_string(), "S3".to_string()),
            ("b".to_string(), "S3".to_string()),
        ]
    );
}
