use mod_updater::error::UpdateError;
use mod_updater::source::{kind_of_lowered, SourceKind, UpdateKey, UpdateKeys};

fn key(s: &str) -> UpdateKey {
    UpdateKey::parse(s).unwrap()
}

#[test]
fn parse_hosted_release_key() {
    let k = key("github:owner/repo");
    assert_eq!(k.source, "github");
    assert_eq!(k.id, "owner/repo");
    assert_eq!(k.subkey, None);
    assert_eq!(k.kind(), Some(SourceKind::HostedRelease));
}

#[test]
fn parse_mod_site_key_with_subkey() {
    let k = key("nexus:123@x");
    assert_eq!(k.source, "nexus");
    assert_eq!(k.id, "123");
    assert_eq!(k.subkey, Some("@x".to_string()));
    assert_eq!(k.kind(), Some(SourceKind::ModSite));
}

#[test]
fn parse_without_separator_fails() {
    assert_eq!(UpdateKey::parse("github"), Err(UpdateError::InvalidFormat));
    assert_eq!(UpdateKey::parse(""), Err(UpdateError::InvalidFormat));
}

#[test]
fn parse_splits_at_first_separators() {
    let k = key("a:b:c@d@e");
    assert_eq!(k.source, "a");
    assert_eq!(k.id, "b:c");
    assert_eq!(k.subkey, Some("@d@e".to_string()));
    let e = key(":");
    assert_eq!(e.source, "");
    assert_eq!(e.id, "");
}

#[test]
fn kind_ignores_case() {
    assert_eq!(key("GitHub:a/b").kind(), Some(SourceKind::HostedRelease));
    assert_eq!(key("NEXUS:1").kind(), Some(SourceKind::ModSite));
    assert_eq!(key("ModDrop:1").kind(), None);
}

#[test]
fn preferred_takes_hosted_release_over_earlier_mod_site() {
    let keys = vec![key("nexus:1"), key("github:2")];
    let p = keys.preferred().unwrap();
    assert_eq!(p.source, "github");
    assert_eq!(p.id, "2");
}

#[test]
fn preferred_falls_back_to_mod_site() {
    let keys = vec![key("ModDrop:9"), key("nexus:1"), key("nexus:2")];
    assert_eq!(keys.preferred().unwrap().id, "1");
}

#[test]
fn preferred_takes_first_hosted_release() {
    let keys = vec![key("github:a/b"), key("nexus:1"), key("github:c/d")];
    assert_eq!(keys.preferred().unwrap().id, "a/b");
}

#[test]
fn preferred_none_when_unsupported() {
    let keys = vec![key("ModDrop:9"), key("Chucklefish:4")];
    assert!(keys.preferred().is_none());
    let empty: Vec<UpdateKey> = vec![];
    assert!(empty.preferred().is_none());
}

#[test]
fn lowered_names() {
    assert_eq!(kind_of_lowered("github"), Some(SourceKind::HostedRelease));
    assert_eq!(kind_of_lowered("nexus"), Some(SourceKind::ModSite));
    assert_eq!(kind_of_lowered("GitHub"), None);
    assert_eq!(kind_of_lowered(""), None);
}

#[test]
fn preferred_kind_ignores_order() {
    let a = vec![key("nexus:1"), key("ModDrop:3"), key("GitHub:x/y")];
    let b = vec![key("GitHub:x/y"), key("nexus:1"), key("ModDrop:3")];
    assert_eq!(a.preferred().unwrap().kind(), b.preferred().unwrap().kind());
}
