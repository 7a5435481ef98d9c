use storage_gateway::identity::{ProviderId, ProviderKind};

fn provider(id: &str, provider_type: &str) -> ProviderId {
    ProviderId { id: id.to_string(), provider_type: provider_type.to_string() }
}

#[test]
fn record_name_joins_id_and_type_with_a_dot() {
    let p = provider("work", "S3");
    assert_eq!(p.record_name(), "work.S3");
    assert_eq!(provider("", "Google").record_name(), ".Google");
    assert_eq!(provider("a.b", "OneDrive").record_name(), "a.b.OneDrive");
}

#[test]
fn record_path_puts_the_name_behind_the_directory() {
    let p = provider("work", "S3");
    assert_eq!(p.record_path("/data/Files/"), "/data/Files/work.S3");
    assert_eq!(p.record_path(""), "work.S3");
}

#[test]
fn record_name_is_split_at_its_first_dot() {
    assert_eq!(ProviderId::from_record_name("work.S3"), Some(provider("work", "S3")));
    assert_eq!(ProviderId::from_record_name("a.b.c"), Some(provider("a", "b.c")));
    assert_eq!(ProviderId::from_record_name(".S3"), Some(provider("", "S3")));
    assert_eq!(ProviderId::from_record_name("work."), Some(provider("work", "")));
    assert_eq!(ProviderId::from_record_name("."), Some(provider("", "")));
}

#[test]
fn record_name_without_a_dot_names_nothing() {
    assert_eq!(ProviderId::from_record_name("work"), None);
    assert_eq!(ProviderId::from_record_name(""), None);
}

#[test]
fn record_name_with_letters_outside_ascii_is_split_by_characters() {
    assert_eq!(
        ProviderId::from_record_name("b\u{fc}ro \u{1f4c1}.OneDrive"),
        Some(provider("b\u{fc}ro \u{1f4c1}", "OneDrive"))
    );
}

#[test]
fn record_name_is_read_back_where_the_id_has_no_dot() {
    for (id, ty) in [("work", "S3"), ("", "Google"), ("My local files", "native_fs"), ("x", "")] {
        let p = provider(id, ty);
        assert_eq!(ProviderId::from_record_name(&p.record_name()), Some(p));
    }
}

#[test]
fn record_name_of_an_id_with_a_dot_is_read_back_as_another_provider() {
    let p = provider("a.b", "S3");
    assert_eq!(ProviderId::from_record_name(&p.record_name()), Some(provider("a", "b.S3")));
}

#[test]
fn kind_goes_by_the_type_name_to_the_letter() {
    assert_eq!(provider("x", "S3").kind(), ProviderKind::S3);
    assert_eq!(provider("x", "Google").kind(), ProviderKind::Google);
    assert_eq!(provider("x", "OneDrive").kind(), ProviderKind::OneDrive);
    assert_eq!(provider("x", "native_fs").kind(), ProviderKind::NativeFs);
    assert_eq!(provider("x", "s3").kind(), ProviderKind::Unknown);
    assert_eq!(provider("x", "google").kind(), ProviderKind::Unknown);
    assert_eq!(provider("x", "").kind(), ProviderKind::Unknown);
    assert_eq!(provider("x", "Dropbox").kind(), ProviderKind::Unknown);
}

#[test]
fn kinds_with_a_record_are_the_three_remote_ones() {
    assert!(ProviderKind::S3.has_record());
    assert!(ProviderKind::Google.has_record());
    assert!(ProviderKind::OneDrive.has_record());
    assert!(!ProviderKind::NativeFs.has_record());
    assert!(!ProviderKind::Unknown.has_record());
}

#[test]
fn native_identity_is_the_home_directory() {
    let n = ProviderId::native();
    assert_eq!(n, provider("My local files", "native_fs"));
    assert!(n.is_native());
    assert_eq!(n.kind(), ProviderKind::NativeFs);
    assert!(!provider("my local files", "native_fs").is_native());
    assert!(!provider("My local files", "S3").is_native());
}

#[test]
fn identities_are_equal_when_both_fields_are() {
    assert_eq!(provider("work", "S3"), provider("work", "S3"));
    assert_ne!(provider("work", "S3"), provider("Work", "S3"));
    assert_ne!(provider("work", "S3"), provider("work", "Google"));
    let p = provider("work", "S3");
    assert_eq!(p.clone(), p);
}
