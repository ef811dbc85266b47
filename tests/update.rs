use mod_updater::compat::{classify_reply, compat_entry, gate_outcome, interpret_reply, update_suggested, CompatReply};
use mod_updater::error::UpdateError;
use mod_updater::manifest::{Manifest, Mod};
use mod_updater::modsite::{cookie_header, download_url, listing_url, locate_file_id, pick_file_id, session_token,
    url_from_field};
use mod_updater::outcome::{decimal, failed, report_line, summary_line, tally, Tally, UpdateOutcome};
use mod_updater::release::{normalize_tag, pick_asset, release_step, split_repo, ReleaseStep};
use mod_updater::source::{SourceKind, UpdateKey};
use mod_updater::update::{display_name, route};

fn package(name: &str, version: Option<&str>, keys: &[&str]) -> Mod {
    Mod {
        path: format!("/mods/{name}"),
        manifest: Manifest {
            name: Some(name.to_string()),
            author: None,
            version: version.map(|v| v.to_string()),
            description: None,
            unique_id: None,
            update_keys: keys.iter().map(|k| UpdateKey::parse(k).unwrap()).collect(),
        },
    }
}

fn strings(v: &[&str]) -> Vec<String> {
    v.iter().map(|s| s.to_string()).collect()
}

#[test]
fn scenario_newer_release_is_installed() {
    let m = package("widget", Some("1.2.0"), &["github:acme/widget"]);
    let (kind, key) = route(&m).unwrap();
    assert_eq!(kind, SourceKind::HostedRelease);
    assert_eq!(split_repo(&key.id), Ok(("acme".to_string(), "widget".to_string())));
    assert_eq!(gate_outcome(true), None);
    let step = release_step(&m.manifest.version, false, "v1.3.0", &strings(&["widget.zip"]));
    assert_eq!(step, Ok(ReleaseStep::Fetch { asset: 0, version: "1.3.0".to_string() }));
    let outcome = UpdateOutcome::Updated { new_version: "1.3.0".to_string() };
    assert_eq!(report_line("widget", &m.manifest.version, &outcome), "widget: 1.2.0 -> 1.3.0");
}

#[test]
fn scenario_no_update_suggested() {
    assert_eq!(gate_outcome(false), Some(UpdateOutcome::UpToDate));
}

#[test]
fn scenario_two_archive_assets() {
    let step = release_step(&Some("1.2.0".to_string()), false, "v1.3.0", &strings(&["a.zip", "notes.txt", "b.zip"]));
    let e = step.unwrap_err();
    assert_eq!(e, UpdateError::Ambiguous("Multiple valid assets found: a.zip, b.zip".to_string()));
    assert_eq!(failed(&e), UpdateOutcome::Failed("Multiple valid assets found: a.zip, b.zip".to_string()));
}

#[test]
fn same_version_is_up_to_date_unless_forced() {
    let v = Some("1.3.0".to_string());
    assert_eq!(release_step(&v, false, "v1.3.0", &strings(&["w.zip"])), Ok(ReleaseStep::UpToDate));
    assert_eq!(
        release_step(&v, true, "v1.3.0", &strings(&["w.zip"])),
        Ok(ReleaseStep::Fetch { asset: 0, version: "1.3.0".to_string() })
    );
}

#[test]
fn no_archive_asset() {
    assert_eq!(
        pick_asset(&strings(&["src.tar.gz", "zip"])),
        Err(UpdateError::Ambiguous("No valid release assets found".to_string()))
    );
    assert_eq!(pick_asset(&strings(&["notes.md", "w.zip"])), Ok(1));
}

#[test]
fn tags_lose_version_prefix() {
    assert_eq!(normalize_tag("v1.3.0"), "1.3.0");
    assert_eq!(normalize_tag("V2"), "2");
    assert_eq!(normalize_tag("vV0.1"), "V0.1");
    assert_eq!(normalize_tag("1.0"), "1.0");
    assert_eq!(normalize_tag("vvv"), "vv");
    assert_eq!(normalize_tag("vv1"), "v1");
    assert_eq!(normalize_tag(""), "");
}

#[test]
fn repo_without_slash() {
    assert_eq!(split_repo("widget"), Err(UpdateError::Malformed("Invalid GitHub repo".to_string())));
    assert_eq!(split_repo("a/b/c"), Ok(("a".to_string(), "b/c".to_string())));
}

#[test]
fn routing_failures() {
    let m = package("w", None, &["ModDrop:1"]);
    assert_eq!(route(&m).unwrap_err(), UpdateError::Unsupported("Unknown or unsupported source".to_string()));
    let m = package("w", None, &[]);
    assert!(route(&m).is_err());
    let m = package("w", None, &["nexus:5@beta", "github:a/b@x"]);
    assert_eq!(route(&m).unwrap_err(), UpdateError::Unsupported("Subkeys are not yet supported".to_string()));
    let m = package("w", None, &["nexus:5"]);
    let (kind, key) = route(&m).unwrap();
    assert_eq!(kind, SourceKind::ModSite);
    assert_eq!(key.id, "5");
}

#[test]
fn compat_entry_fields() {
    let mut m = package("w", Some("1.0"), &["github:a/b"]);
    let key = UpdateKey::parse("github:a/b").unwrap();
    let e = compat_entry(&m, &key);
    assert_eq!(e.id, "FAKE.github.a/b");
    assert_eq!(e.update_key, "github:a/b");
    assert_eq!(e.installed_version, "1.0");
    m.manifest.unique_id = Some("acme.Widget".to_string());
    m.manifest.version = None;
    let e = compat_entry(&m, &key);
    assert_eq!(e.id, "acme.Widget");
    assert_eq!(e.installed_version, "");
}

#[test]
fn compat_replies() {
    assert_eq!(update_suggested(r#"[{"id":"x","suggestedUpdate":{"version":"2"}}]"#), Ok(true));
    assert_eq!(update_suggested(r#"[{"id":"x"}]"#), Ok(false));
    assert_eq!(update_suggested(r#"{"id":"x"}"#), Err(UpdateError::Malformed("Expected array".to_string())));
    assert_eq!(update_suggested("not json"), Err(UpdateError::Malformed("Expected array".to_string())));
    assert_eq!(update_suggested("[]"), Err(UpdateError::Malformed("Expected a reply entry".to_string())));
    assert_eq!(update_suggested("[1]"), Err(UpdateError::Malformed("Expected object".to_string())));
    assert_eq!(classify_reply(Some(Some(Some(true)))), CompatReply::Entry { suggested_update: true });
    assert_eq!(classify_reply(Some(None)), CompatReply::Empty);
    assert_eq!(interpret_reply(CompatReply::NotObject), Err(UpdateError::Malformed("Expected object".to_string())));
}

#[test]
fn mod_site_listing() {
    let page = r#"<html><body>
        <div id="file-container-update-files"><dt class="file-expander-header" data-id="77"></dt></div>
        <div id="file-container-main-files"><dt class="file-expander-header" data-id="42"></dt></div>
        </body></html>"#;
    assert_eq!(locate_file_id(page), Ok("42".to_string()));
    let only_update = r#"<div id="file-container-update-files"><dt class="file-expander-header" data-id="77"></dt></div>"#;
    assert_eq!(locate_file_id(only_update), Ok("77".to_string()));
    let no_id = r#"<div id="file-container-main-files"><dt class="file-expander-header"></dt></div>"#;
    assert_eq!(
        locate_file_id(no_id),
        Err(UpdateError::Malformed("HTML parsing failed: couldn't find data-id attribute".to_string()))
    );
    assert_eq!(
        locate_file_id("<p>nothing</p>"),
        Err(UpdateError::Malformed("HTML parsing failed: couldn't locate main file element".to_string()))
    );
    assert_eq!(pick_file_id(None, Some(Some("3".to_string()))), Ok("3".to_string()));
    assert_eq!(pick_file_id(Some(None), Some(Some("3".to_string()))).is_err(), true);
}

#[test]
fn mod_site_requests() {
    assert_eq!(listing_url("123"), "https://nexusmods.com/stardewvalley/mods/123?tab=files");
    assert_eq!(cookie_header("abc"), "sid_develop=abc");
    let cookies = vec![
        ("other".to_string(), "1".to_string()),
        ("sid_develop".to_string(), "tok".to_string()),
        ("sid_develop".to_string(), "later".to_string()),
    ];
    assert_eq!(session_token(&cookies), Ok("tok".to_string()));
    assert!(matches!(session_token(&vec![]), Err(UpdateError::Malformed(_))));
    assert_eq!(download_url(r#"{"url":"https://files/x.zip"}"#), Ok("https://files/x.zip".to_string()));
    assert_eq!(
        download_url(r#"{"url":3}"#),
        Err(UpdateError::Malformed("Invalid response from Nexus: Expected string".to_string()))
    );
    assert_eq!(download_url("[]"), Err(UpdateError::Malformed("Invalid response from Nexus: Expected url".to_string())));
    assert_eq!(download_url(r#"{"u":1}"#), Err(UpdateError::Malformed("Invalid response from Nexus: Expected url".to_string())));
}

#[test]
fn tally_and_summary() {
    let outcomes = vec![
        UpdateOutcome::Updated { new_version: "2".to_string() },
        UpdateOutcome::Failed("x".to_string()),
        UpdateOutcome::UpToDate,
        UpdateOutcome::Failed("y".to_string()),
    ];
    let t = tally(&outcomes);
    assert_eq!(t, Tally { updated: 1, failed: 2, up_to_date: 1 });
    assert_eq!(summary_line(t, false), "1 updated, 2 failed, 1 already up to date");
    assert_eq!(summary_line(t, true), "1 updated, 2 failed");
    assert_eq!(tally(&vec![]), Tally { updated: 0, failed: 0, up_to_date: 0 });
}

#[test]
fn decimals() {
    assert_eq!(decimal(0), "0");
    assert_eq!(decimal(1303), "1303");
    assert_eq!(decimal(u64::MAX), u64::MAX.to_string());
}

#[test]
fn report_lines() {
    assert_eq!(report_line("w", &None, &UpdateOutcome::Updated { new_version: "latest".to_string() }), "w: latest");
    assert_eq!(report_line("w", &None, &UpdateOutcome::UpToDate), "w: Already up to date");
    assert_eq!(report_line("w", &None, &UpdateOutcome::Failed("boom".to_string())), "w: boom");
    assert_eq!(UpdateError::InvalidFormat.reason(), "UpdateKey must contain ':'");
}

#[test]
fn display_names() {
    let mut m = package("Widget", None, &[]);
    assert_eq!(display_name(&m, "Widget"), "Widget");
    m.manifest.name = None;
    assert_eq!(display_name(&m, "group/Widget"), "group/Widget");
}

#[test]
fn url_field_cases() {
    assert_eq!(url_from_field(Some(Some("u".to_string()))), Ok("u".to_string()));
    assert_eq!(
        url_from_field(None),
        Err(UpdateError::Malformed("Invalid response from Nexus: Expected url".to_string()))
    );
    assert_eq!(
        url_from_field(Some(None)),
        Err(UpdateError::Malformed("Invalid response from Nexus: Expected string".to_string()))
    );
}
