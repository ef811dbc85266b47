use std::io::{Cursor, Write};
use mod_updater::error::UpdateError;
use mod_updater::install::{archive_root, backup_entry_name, check_archive, config_name, copy_action,
    migration_targets, plan_install, set_aside_name, CopyAction, EntryKind, InstallPlan};

fn names(v: &[&str]) -> Vec<String> {
    v.iter().map(|s| s.to_string()).collect()
}

fn path(v: &[&str]) -> Vec<String> {
    names(v)
}

fn zip_of(entries: &[&str]) -> Vec<u8> {
    let mut w = zip::ZipWriter::new(Cursor::new(Vec::new()));
    let opts = zip::write::SimpleFileOptions::default().compression_method(zip::CompressionMethod::Stored);
    for e in entries {
        w.start_file(e.to_string(), opts).unwrap();
        w.write_all(b"{}").unwrap();
    }
    w.finish().unwrap().into_inner()
}

#[test]
fn single_root_is_found() {
    let r = archive_root(&names(&["Widget/", "Widget/info.json", "Widget/assets/a.png"]));
    assert_eq!(r, Ok("Widget".to_string()));
}

#[test]
fn two_roots_are_rejected() {
    let r = archive_root(&names(&["A/info.json", "B/info.json"]));
    assert_eq!(r, Err(UpdateError::Malformed("Zip archive must contain exactly one item in the root".to_string())));
}

#[test]
fn file_beside_root_is_rejected() {
    let r = archive_root(&names(&["readme.txt", "A/info.json"]));
    assert_eq!(r, Err(UpdateError::Malformed("Zip archive must contain exactly one item in the root".to_string())));
    let r = archive_root(&names(&["A/info.json", "readme.txt"]));
    assert!(matches!(r, Err(UpdateError::Malformed(_))));
}

#[test]
fn empty_archive_is_rejected() {
    assert_eq!(archive_root(&vec![]), Err(UpdateError::Malformed("Zip archive is empty".to_string())));
}

#[test]
fn real_archive_root() {
    let bytes = zip_of(&["Widget/info.json", "Widget/config.json"]);
    assert_eq!(check_archive(&bytes), Ok("Widget".to_string()));
    let bytes = zip_of(&["A/x", "B/y"]);
    assert!(matches!(check_archive(&bytes), Err(UpdateError::Malformed(_))));
    let bytes = zip_of(&[]);
    assert_eq!(check_archive(&bytes), Err(UpdateError::Malformed("Zip archive is empty".to_string())));
}

#[test]
fn unreadable_archive() {
    assert_eq!(check_archive(b"not a zip"), Err(UpdateError::Malformed("Invalid zip archive".to_string())));
}

#[test]
fn backup_names() {
    assert_eq!(backup_entry_name("Widget", &Some("1.2.0".to_string())), "Widget - 1.2.0");
    assert_eq!(backup_entry_name("Widget", &None), "Widget - unknown");
}

#[test]
fn plan_checks_backup_first() {
    let bytes = zip_of(&["A/x", "B/y"]);
    assert_eq!(
        plan_install("Widget", &None, true, &bytes),
        Err(UpdateError::AlreadyExists("File exists: Widget - unknown".to_string()))
    );
    assert!(matches!(plan_install("Widget", &None, false, &bytes), Err(UpdateError::Malformed(_))));
    let good = zip_of(&["Widget2/info.json"]);
    assert_eq!(
        plan_install("Widget", &Some("1.0".to_string()), false, &good),
        Ok(InstallPlan { backup_name: "Widget - 1.0".to_string(), root: "Widget2".to_string() })
    );
}

#[test]
fn plan_twice_gives_same_answer() {
    let bytes = zip_of(&["A/x", "B/y"]);
    assert_eq!(plan_install("W", &None, false, &bytes), plan_install("W", &None, false, &bytes));
}

#[test]
fn config_names() {
    assert!(config_name("config.json"));
    assert!(config_name("config"));
    assert!(!config_name("Config.json"));
    assert!(!config_name("config.json.new"));
}

#[test]
fn migration_selects_outermost_configs() {
    let entries = vec![
        path(&["info.json"]),
        path(&["config.json"]),
        path(&["config"]),
        path(&["config", "config.json"]),
        path(&["data", "config.json"]),
        path(&["data", "x.json"]),
        vec![],
    ];
    assert_eq!(migration_targets(&entries), vec![1, 2, 4]);
    assert_eq!(migration_targets(&vec![]), Vec::<usize>::new());
}

#[test]
fn set_aside_keeps_both_names() {
    let n = set_aside_name("config.json");
    assert_eq!(n, "config.json.new");
    assert_ne!(n, "config.json");
}

#[test]
fn copy_actions() {
    assert_eq!(copy_action(EntryKind::File, "a"), Ok(CopyAction::CopyFile));
    assert_eq!(copy_action(EntryKind::Dir, "a"), Ok(CopyAction::CreateDir));
    assert_eq!(
        copy_action(EntryKind::Other, "/mods/.old/W - 1/config"),
        Err(UpdateError::NotAFileOrDir("/mods/.old/W - 1/config is neither a file nor a directory".to_string()))
    );
}
