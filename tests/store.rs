use tmucks::store::{ConfigManager, FileOp, Presence, StoreError};

fn seen(live_exists: bool, snapshot_exists: bool) -> Presence {
    Presence { live_exists, snapshot_exists }
}

fn store() -> ConfigManager {
    ConfigManager::new(vec!["b.conf".to_string(), "a.conf".to_string()])
}

#[test]
fn open_sorts_the_listing() {
    let m = store();
    assert_eq!(m.list(), &vec!["a.conf".to_string(), "b.conf".to_string()]);
}

#[test]
fn apply_restores_an_existing_snapshot() {
    assert!(matches!(store().apply_config("a.conf", seen(false, true)), Ok(FileOp::Restore)));
}

#[test]
fn apply_of_a_missing_snapshot_is_not_found() {
    let r = store().apply_config("x.conf", seen(true, false));
    match r {
        Err(e) => {
            assert!(matches!(&e, StoreError::SnapshotNotFound(n) if n == "x.conf"));
            assert!(e.is_not_found());
            assert_eq!(e.message(), "Config file not found: x.conf");
        }
        Ok(_) => panic!("expected an error"),
    }
}

#[test]
fn save_captures_a_new_snapshot() {
    assert!(matches!(store().save_current_config("n.conf", seen(true, false)), Ok(FileOp::Capture)));
}

#[test]
fn save_twice_is_already_exists() {
    let m = store();
    assert!(m.save_current_config("n.conf", seen(true, false)).is_ok());
    let second = m.save_current_config("n.conf", seen(true, true));
    match second {
        Err(e) => {
            assert!(matches!(&e, StoreError::AlreadyExists(n) if n == "n.conf"));
            assert!(!e.is_not_found());
            assert_eq!(
                e.message(),
                "Config 'n.conf' already exists. Use 'update' command to overwrite an existing config."
            );
        }
        Ok(_) => panic!("expected an error"),
    }
}

#[test]
fn save_without_live_file_is_not_found() {
    let r = store().save_current_config("n.conf", seen(false, true));
    match r {
        Err(e) => {
            assert!(matches!(e, StoreError::LiveConfigNotFound));
            assert!(e.is_not_found());
            assert_eq!(e.message(), "No tmux config file found at ~/.tmux.conf");
        }
        Ok(_) => panic!("expected an error"),
    }
}

#[test]
fn update_overwrites_an_existing_snapshot() {
    assert!(matches!(store().update_config("a.conf", seen(true, true)), Ok(FileOp::Capture)));
}

#[test]
fn update_of_an_unsaved_name_is_not_found() {
    let r = store().update_config("never.conf", seen(true, false));
    match r {
        Err(e) => {
            assert!(matches!(&e, StoreError::UpdateTargetNotFound(n) if n == "never.conf"));
            assert!(e.is_not_found());
            assert_eq!(
                e.message(),
                "Config 'never.conf' does not exist. Use 'save' command to create a new config."
            );
        }
        Ok(_) => panic!("expected an error"),
    }
    let r = store().update_config("never.conf", seen(false, false));
    assert!(matches!(r, Err(StoreError::LiveConfigNotFound)));
}

#[test]
fn delete_removes_an_existing_snapshot() {
    assert!(matches!(store().delete_config("b.conf", seen(false, true)), Ok(FileOp::Remove)));
    assert!(matches!(
        store().delete_config("x.conf", seen(true, false)),
        Err(StoreError::SnapshotNotFound(_))
    ));
}

#[test]
fn other_error_messages() {
    assert_eq!(StoreError::Io("denied".to_string()).message(), "denied");
    assert!(!StoreError::Io("denied".to_string()).is_not_found());
    assert_eq!(StoreError::HomeDirUnavailable.message(), "Could not find home directory");
}
