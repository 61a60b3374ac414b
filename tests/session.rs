use tmucks::session::{error_message, NOTIFICATION_MILLIS};
use tmucks::store::{ConfigManager, StoreError};
use tmucks::{App, InputMode};

const DEFAULT: &str = "use j/k to navigate, enter to apply config, s to save current, u to update existing, d to delete, q to quit";

fn store(names: &[&str]) -> ConfigManager {
    ConfigManager::new(names.iter().map(|s| s.to_string()).collect())
}

fn three() -> App {
    App::new(store(&["c.conf", "a.conf", "b.conf"]))
}

#[test]
fn new_session_selects_the_first_snapshot() {
    let app = three();
    assert_eq!(app.selected, Some(0));
    assert_eq!(app.input_mode, InputMode::Normal);
    assert_eq!(app.status_message, DEFAULT);
    assert_eq!(app.default_status_message, DEFAULT);
    assert_eq!(app.status_message_time, None);
    assert_eq!(app.selected_config(), Some("a.conf".to_string()));
}

#[test]
fn next_wraps_around_after_len_steps() {
    let mut app = three();
    app.next();
    assert_eq!(app.selected, Some(1));
    for start in 0..3 {
        app.selected = Some(start);
        for _ in 0..3 {
            app.next();
        }
        assert_eq!(app.selected, Some(start));
    }
}

#[test]
fn previous_wraps_around_after_len_steps() {
    let mut app = three();
    app.previous();
    assert_eq!(app.selected, Some(2));
    for start in 0..3 {
        app.selected = Some(start);
        for _ in 0..3 {
            app.previous();
        }
        assert_eq!(app.selected, Some(start));
    }
}

#[test]
fn navigation_on_an_empty_list_does_nothing() {
    let mut app = App::new(store(&[]));
    assert_eq!(app.selected, None);
    app.next();
    assert_eq!(app.selected, None);
    app.previous();
    assert_eq!(app.selected, None);
    assert_eq!(app.selected_config(), None);
}

#[test]
fn notification_expires_after_five_seconds() {
    let mut app = three();
    let t0: u64 = 10_000;
    app.set_status_message("Test notification message".to_string(), t0);
    assert_eq!(app.status_message_time, Some(t0));
    app.update_status_message(t0 + 3_000);
    assert_eq!(app.status_message, "Test notification message");
    app.update_status_message(t0 + 4_999);
    assert_eq!(app.status_message, "Test notification message");
    app.update_status_message(t0 + 6_000);
    assert_eq!(app.status_message, DEFAULT);
    assert_eq!(app.status_message_time, None);
}

#[test]
fn notification_expires_exactly_at_the_boundary() {
    let mut app = three();
    app.set_status_message("Another test message".to_string(), 0);
    app.update_status_message(NOTIFICATION_MILLIS);
    assert_eq!(app.status_message, DEFAULT);
    assert_eq!(NOTIFICATION_MILLIS, 5_000);
}

#[test]
fn apply_reports_success_and_failure() {
    let mut app = three();
    app.next();
    app.apply_config(Ok(()), 5);
    assert_eq!(app.status_message, "+ applied config: b.conf");
    assert_eq!(app.status_message_time, Some(5));
    app.apply_config(Err(StoreError::SnapshotNotFound("b.conf".to_string())), 6);
    assert_eq!(app.status_message, "- error: Config file not found: b.conf");
}

#[test]
fn apply_without_selection_does_nothing() {
    let mut app = App::new(store(&[]));
    app.apply_config(Ok(()), 5);
    assert_eq!(app.status_message, DEFAULT);
    assert_eq!(app.status_message_time, None);
}

#[test]
fn delete_first_of_three_selects_the_next() {
    let mut app = three();
    assert_eq!(app.selected_config(), Some("a.conf".to_string()));
    app.delete_config(Ok(store(&["b.conf", "c.conf"])), 1);
    assert_eq!(app.config_manager.configs, vec!["b.conf".to_string(), "c.conf".to_string()]);
    assert_eq!(app.selected, Some(0));
    assert_eq!(app.selected_config(), Some("b.conf".to_string()));
    assert_eq!(app.status_message, "+ deleted config: a.conf");
}

#[test]
fn delete_last_moves_selection_to_new_last() {
    let mut app = three();
    app.selected = Some(2);
    app.delete_config(Ok(store(&["a.conf", "b.conf"])), 1);
    assert_eq!(app.selected, Some(1));
    assert_eq!(app.status_message, "+ deleted config: c.conf");
}

#[test]
fn delete_of_the_only_snapshot_clears_selection() {
    let mut app = App::new(store(&["a.conf"]));
    app.delete_config(Ok(store(&[])), 1);
    assert_eq!(app.selected, None);
    assert!(app.config_manager.configs.is_empty());
}

#[test]
fn delete_failure_keeps_the_list() {
    let mut app = three();
    app.delete_config(Err(StoreError::Io("permission denied".to_string())), 1);
    assert_eq!(app.config_manager.configs.len(), 3);
    assert_eq!(app.selected, Some(0));
    assert_eq!(app.status_message, "- error: permission denied");
}

#[test]
fn save_into_an_empty_store() {
    let mut app = App::new(store(&[]));
    app.start_save_mode();
    assert_eq!(app.input_mode, InputMode::Saving);
    assert_eq!(app.status_message, "enter config name (without .conf): ");
    for c in "work".chars() {
        app.input_char(c);
    }
    assert_eq!(app.input_buffer, "work");
    let name = app.confirm_save(7).expect("a name to save under");
    assert_eq!(name, "work.conf");
    assert_eq!(app.input_mode, InputMode::Normal);
    assert_eq!(app.input_buffer, "");
    app.save_current_config(&name, Ok(store(&["work.conf"])), 8);
    assert_eq!(app.config_manager.configs, vec!["work.conf".to_string()]);
    assert_eq!(app.selected, Some(0));
    assert_eq!(app.status_message, "+ saved current config as: work.conf");
}

#[test]
fn save_failure_reports_the_error() {
    let mut app = three();
    app.save_current_config("a.conf", Err(StoreError::AlreadyExists("a.conf".to_string())), 8);
    assert_eq!(app.config_manager.configs.len(), 3);
    assert_eq!(
        app.status_message,
        "- error: Config 'a.conf' already exists. Use 'update' command to overwrite an existing config."
    );
}

#[test]
fn typed_name_with_suffix_is_kept_and_backspace_erases() {
    let mut app = three();
    app.start_save_mode();
    for c in "home.confx".chars() {
        app.input_char(c);
    }
    app.erase_char();
    assert_eq!(app.input_buffer, "home.conf");
    assert_eq!(app.confirm_save(1), Some("home.conf".to_string()));
}

#[test]
fn backspace_on_empty_name_does_nothing() {
    let mut app = three();
    app.start_save_mode();
    app.erase_char();
    assert_eq!(app.input_buffer, "");
    assert_eq!(app.input_mode, InputMode::Saving);
}

#[test]
fn blank_name_is_refused() {
    let mut app = three();
    app.start_save_mode();
    app.input_char(' ');
    app.input_char('\t');
    assert_eq!(app.confirm_save(3), None);
    assert_eq!(app.input_mode, InputMode::Normal);
    assert_eq!(app.input_buffer, "");
    assert_eq!(app.status_message, "- error: name cannot be empty");
    assert_eq!(app.status_message_time, Some(3));
}

#[test]
fn submitted_name_keeps_surrounding_spaces() {
    let mut app = three();
    app.start_save_mode();
    app.input_char(' ');
    app.input_char('w');
    assert_eq!(app.submit_save_name(false, 3), Some(" w.conf".to_string()));
}

#[test]
fn cancel_save_restores_default() {
    let mut app = three();
    app.set_status_message("x".to_string(), 1);
    app.start_save_mode();
    app.input_char('a');
    app.cancel_save();
    assert_eq!(app.input_mode, InputMode::Normal);
    assert_eq!(app.input_buffer, "");
    assert_eq!(app.status_message, DEFAULT);
    assert_eq!(app.status_message_time, None);
}

#[test]
fn typing_outside_name_entry_is_ignored() {
    let mut app = three();
    app.input_char('a');
    assert_eq!(app.input_buffer, "");
    assert_eq!(app.confirm_save(1), None);
    assert_eq!(app.status_message, DEFAULT);
}

#[test]
fn update_confirmed() {
    let mut app = three();
    app.next();
    app.start_update_mode(1);
    assert_eq!(app.input_mode, InputMode::UpdateConfirm);
    assert_eq!(app.pending_update_config, Some("b.conf".to_string()));
    app.confirm_update(Ok(()), 2);
    assert_eq!(app.input_mode, InputMode::Normal);
    assert_eq!(app.pending_update_config, None);
    assert_eq!(app.status_message, "+ updated config 'b.conf' with current ~/.tmux.conf");
}

#[test]
fn update_failure_reports_the_error() {
    let mut app = three();
    app.start_update_mode(1);
    app.confirm_update(Err(StoreError::LiveConfigNotFound), 2);
    assert_eq!(app.input_mode, InputMode::Normal);
    assert_eq!(app.status_message, "- error: No tmux config file found at ~/.tmux.conf");
}

#[test]
fn update_declined_leaves_store_unchanged() {
    let mut app = three();
    app.next();
    assert_eq!(app.selected_config(), Some("b.conf".to_string()));
    app.start_update_mode(1);
    app.cancel_update();
    assert_eq!(app.input_mode, InputMode::Normal);
    assert_eq!(app.pending_update_config, None);
    assert_eq!(app.status_message, DEFAULT);
    assert_eq!(
        app.config_manager.configs,
        vec!["a.conf".to_string(), "b.conf".to_string(), "c.conf".to_string()]
    );
}

#[test]
fn update_without_selection_says_so() {
    let mut app = App::new(store(&[]));
    app.start_update_mode(4);
    assert_eq!(app.input_mode, InputMode::Normal);
    assert_eq!(app.pending_update_config, None);
    assert_eq!(app.status_message, "- no config selected to update");
    assert_eq!(app.status_message_time, Some(4));
}

#[test]
fn error_message_prefix() {
    assert_eq!(error_message(&StoreError::HomeDirUnavailable), "- error: Could not find home directory");
}
