use activity_indicator::content::{ActionTag, AutoUpdateState, Icon};
use activity_indicator::indicator::{ActivityIndicator, Event, error_review_text};
use activity_indicator::pending::{PendingWorkItem, ProviderStatus, TokenProgress};
use activity_indicator::pending::pending_language_server_work;
use activity_indicator::status::{InstallStatus, StatusRecord};

fn provider(name: &str, work: Vec<TokenProgress>) -> ProviderStatus {
    ProviderStatus { name: name.to_string(), pending_work: work }
}

fn token(tok: &str, message: Option<&str>, percentage: Option<u8>, at: u64) -> TokenProgress {
    TokenProgress {
        token: tok.to_string(),
        message: message.map(|m| m.to_string()),
        percentage,
        last_update_at: at,
    }
}

fn no_providers() -> Vec<ProviderStatus> {
    Vec::new()
}

fn no_tasks() -> Vec<String> {
    Vec::new()
}

#[test]
fn updates_replace_per_name() {
    let mut ind = ActivityIndicator::new(None);
    ind.update_status("X".to_string(), InstallStatus::Downloading);
    ind.update_status("X".to_string(), InstallStatus::CheckingForUpdate);
    ind.update_status("Y".to_string(), InstallStatus::Downloading);
    ind.update_status(
        "X".to_string(),
        InstallStatus::Failed { error: "boom".to_string() },
    );
    assert_eq!(ind.statuses.len(), 2);
    assert_eq!(ind.statuses[0].name, "Y");
    assert!(matches!(ind.statuses[0].status, InstallStatus::Downloading));
    assert_eq!(ind.statuses[1].name, "X");
    assert!(matches!(ind.statuses[1].status, InstallStatus::Failed { .. }));
}

#[test]
fn drain_failed_emits_in_table_order() {
    let mut ind = ActivityIndicator::new(None);
    ind.update_status(
        "A".to_string(),
        InstallStatus::Failed { error: "e1".to_string() },
    );
    ind.update_status("B".to_string(), InstallStatus::Downloading);
    ind.update_status(
        "C".to_string(),
        InstallStatus::Failed { error: "e2".to_string() },
    );
    let events = ind.show_error_message();
    assert_eq!(events.len(), 2);
    match &events[0] {
        Event::ShowError { lsp_name, error } => {
            assert_eq!(lsp_name, "A");
            assert_eq!(error, "e1");
        }
    }
    match &events[1] {
        Event::ShowError { lsp_name, error } => {
            assert_eq!(lsp_name, "C");
            assert_eq!(error, "e2");
        }
    }
    assert_eq!(ind.statuses.len(), 1);
    assert_eq!(ind.statuses[0].name, "B");
    // Draining twice: nothing left to drain.
    let again = ind.show_error_message();
    assert_eq!(again.len(), 0);
    assert_eq!(ind.statuses.len(), 1);
}

#[test]
fn pending_head_is_most_recent_and_order_is_stable() {
    let providers = vec![
        provider("A", vec![token("t1", None, None, 5)]),
        provider("B", vec![token("t2", None, None, 9)]),
        provider("C", vec![token("t3", None, None, 9)]),
    ];
    let items: Vec<PendingWorkItem> = pending_language_server_work(&providers);
    assert_eq!(items.len(), 3);
    assert_eq!(items[0].provider_name, "C");
    assert_eq!(items[0].last_update_at, 9);
    assert_eq!(items[1].provider_name, "B");
    assert_eq!(items[1].last_update_at, 9);
    assert_eq!(items[2].provider_name, "A");
    assert_eq!(items[2].last_update_at, 5);
}

#[test]
fn provider_with_only_empty_token_contributes_nothing() {
    let providers = vec![provider("A", vec![token("", Some("hidden"), None, 3)])];
    let items = pending_language_server_work(&providers);
    assert_eq!(items.len(), 0);
}

#[test]
fn pending_wins_over_failed_install() {
    let mut ind = ActivityIndicator::new(None);
    ind.update_status(
        "X".to_string(),
        InstallStatus::Failed { error: "e".to_string() },
    );
    let providers = vec![provider("Rust", vec![token("build", None, None, 1)])];
    let c = ind.content_to_render(&providers, &no_tasks());
    assert_eq!(c.message, "Rust: build");
    assert_eq!(c.icon, None);
    assert_eq!(c.action, None);
}

#[test]
fn failed_wins_over_updater_errored() {
    let mut ind = ActivityIndicator::new(Some(AutoUpdateState::Errored));
    ind.update_status(
        "X".to_string(),
        InstallStatus::Failed { error: "e".to_string() },
    );
    let c = ind.content_to_render(&no_providers(), &no_tasks());
    assert_eq!(
        c.message,
        "Failed to download X language server. Click to show error."
    );
    assert_eq!(c.icon, Some(Icon::Warning));
    assert_eq!(c.action, Some(ActionTag::ShowErrors));
}

#[test]
fn one_name_takes_no_plural() {
    let mut ind = ActivityIndicator::new(None);
    ind.update_status("Python".to_string(), InstallStatus::Downloading);
    let c = ind.content_to_render(&no_providers(), &no_tasks());
    assert_eq!(c.message, "Downloading Python language server...");
}

#[test]
fn two_names_take_plural() {
    let mut ind = ActivityIndicator::new(None);
    ind.update_status("Python".to_string(), InstallStatus::Downloading);
    ind.update_status("Go".to_string(), InstallStatus::Downloading);
    let c = ind.content_to_render(&no_providers(), &no_tasks());
    assert_eq!(c.message, "Downloading Python, Go language servers...");
    assert_eq!(c.icon, Some(Icon::Download));
    assert_eq!(c.action, None);
}

#[test]
fn checking_bucket_message() {
    let mut ind = ActivityIndicator::new(None);
    ind.update_status("Zig".to_string(), InstallStatus::CheckingForUpdate);
    let c = ind.content_to_render(&no_providers(), &no_tasks());
    assert_eq!(c.message, "Checking for updates to Zig language server...");
    assert_eq!(c.icon, Some(Icon::Download));
    assert_eq!(c.action, None);
}

#[test]
fn downloading_beats_checking_and_failed() {
    let mut ind = ActivityIndicator::new(None);
    ind.update_status("A".to_string(), InstallStatus::CheckingForUpdate);
    ind.update_status(
        "B".to_string(),
        InstallStatus::Failed { error: "e".to_string() },
    );
    ind.update_status("C".to_string(), InstallStatus::Downloading);
    let c = ind.content_to_render(&no_providers(), &no_tasks());
    assert_eq!(c.message, "Downloading C language server...");
}

#[test]
fn terminal_success_statuses_produce_no_message() {
    let mut ind = ActivityIndicator::new(None);
    ind.update_status("A".to_string(), InstallStatus::Downloaded);
    ind.update_status("B".to_string(), InstallStatus::Cached);
    let c = ind.content_to_render(&no_providers(), &no_tasks());
    assert_eq!(c.message, "");
    assert_eq!(c.icon, None);
    assert_eq!(c.action, None);
}

#[test]
fn ambient_task_shows_most_recent() {
    let ind = ActivityIndicator::new(None);
    let tasks = vec!["Indexing files".to_string(), "Formatting".to_string()];
    let c = ind.content_to_render(&no_providers(), &tasks);
    assert_eq!(c.message, "Formatting");
    assert_eq!(c.icon, None);
    assert_eq!(c.action, None);
}

#[test]
fn updater_updated_offers_restart() {
    let mut ind = ActivityIndicator::new(Some(AutoUpdateState::Updated));
    let c = ind.content_to_render(&no_providers(), &no_tasks());
    assert_eq!(c.message, "Click to restart and update");
    assert_eq!(c.icon, None);
    assert_eq!(c.action, Some(ActionTag::RestartToUpdate));
    let outcome = ind.dispatch_action(ActionTag::RestartToUpdate);
    assert!(outcome.restart);
    assert!(!outcome.dismiss_update_error);
    assert_eq!(outcome.events.len(), 0);
}

#[test]
fn updater_state_table() {
    let cases = vec![
        (AutoUpdateState::Checking, "Checking for updates…", Some(Icon::Download), None),
        (AutoUpdateState::Downloading, "Downloading update…", Some(Icon::Download), None),
        (AutoUpdateState::Installing, "Installing update…", Some(Icon::Download), None),
        (
            AutoUpdateState::Errored,
            "Auto update failed",
            Some(Icon::Warning),
            Some(ActionTag::DismissUpdateError),
        ),
    ];
    for (state, message, icon, action) in cases {
        let ind = ActivityIndicator::new(Some(state));
        let c = ind.content_to_render(&no_providers(), &no_tasks());
        assert_eq!(c.message, message);
        assert_eq!(c.icon, icon);
        assert_eq!(c.action, action);
    }
}

#[test]
fn attached_idle_updater_ends_the_cascade() {
    let ind = ActivityIndicator::new(Some(AutoUpdateState::Idle));
    let tasks = vec!["Formatting".to_string()];
    let c = ind.content_to_render(&no_providers(), &tasks);
    assert_eq!(c.message, "");
    assert_eq!(c.icon, None);
    assert_eq!(c.action, None);
}

#[test]
fn pending_detail_with_percentage_and_more_count() {
    let providers = vec![
        provider("Other", vec![token("index", None, None, 1)]),
        provider("Rust", vec![token("build", None, Some(42), 7)]),
    ];
    let ind = ActivityIndicator::new(None);
    let c = ind.content_to_render(&providers, &no_tasks());
    assert_eq!(c.message, "Rust: build (42%) + 1 more");
    assert_eq!(c.icon, None);
    assert_eq!(c.action, None);
}

#[test]
fn pending_counts_render_multi_digit_numbers() {
    let mut work = vec![token("head", None, Some(100), 50)];
    for i in 0..11u64 {
        work.push(token("w", None, None, i));
    }
    let providers = vec![provider("Rust", work)];
    let ind = ActivityIndicator::new(None);
    let c = ind.content_to_render(&providers, &no_tasks());
    assert_eq!(c.message, "Rust: head (100%) + 11 more");

    let providers = vec![provider("Go", vec![token("vet", None, Some(0), 1)])];
    let c = ind.content_to_render(&providers, &no_tasks());
    assert_eq!(c.message, "Go: vet (0%)");
}

#[test]
fn pending_message_preferred_over_token() {
    let providers = vec![provider(
        "Rust",
        vec![token("build", Some("compiling crates"), None, 7)],
    )];
    let ind = ActivityIndicator::new(None);
    let c = ind.content_to_render(&providers, &no_tasks());
    assert_eq!(c.message, "Rust: compiling crates");
}

#[test]
fn dispatch_show_errors_drains_table() {
    let mut ind = ActivityIndicator::new(None);
    ind.update_status(
        "A".to_string(),
        InstallStatus::Failed { error: "e1".to_string() },
    );
    let outcome = ind.dispatch_action(ActionTag::ShowErrors);
    assert_eq!(outcome.events.len(), 1);
    assert!(!outcome.dismiss_update_error);
    assert!(!outcome.restart);
    assert_eq!(ind.statuses.len(), 0);
}

#[test]
fn dispatch_dismiss_forwards_only_when_attached() {
    let mut attached = ActivityIndicator::new(Some(AutoUpdateState::Errored));
    let outcome = attached.dispatch_action(ActionTag::DismissUpdateError);
    assert!(outcome.dismiss_update_error);
    assert!(!outcome.restart);
    assert_eq!(outcome.events.len(), 0);

    let mut absent = ActivityIndicator::new(None);
    let outcome = absent.dispatch_action(ActionTag::DismissUpdateError);
    assert!(!outcome.dismiss_update_error);
}

#[test]
fn observe_auto_update_state_only_when_attached() {
    let mut attached = ActivityIndicator::new(Some(AutoUpdateState::Idle));
    attached.observe_auto_update_state(AutoUpdateState::Downloading);
    assert_eq!(attached.auto_updater, Some(AutoUpdateState::Downloading));

    let mut absent = ActivityIndicator::new(None);
    absent.observe_auto_update_state(AutoUpdateState::Downloading);
    assert_eq!(absent.auto_updater, None);
}

#[test]
fn error_review_text_for_one_event() {
    let event = Event::ShowError {
        lsp_name: "Rust".to_string(),
        error: "no binary found".to_string(),
    };
    let text = error_review_text(&event);
    assert_eq!(text, "Language server error: Rust\n\nno binary found");
}

#[test]
fn mixed_tokens_emit_one_item_per_token() {
    // A provider with one empty and one non-empty token shows up with both.
    let providers = vec![provider(
        "Rust",
        vec![token("", None, None, 2), token("build", None, None, 1)],
    )];
    let items = pending_language_server_work(&providers);
    assert_eq!(items.len(), 2);
    assert_eq!(items[0].token, "");
    assert_eq!(items[0].last_update_at, 2);
    assert_eq!(items[1].token, "build");
}

#[test]
fn pending_records_survive_update_of_statuses() {
    // A status update arriving after a drain lands in the drained table.
    let mut ind = ActivityIndicator::new(None);
    ind.update_status(
        "A".to_string(),
        InstallStatus::Failed { error: "e".to_string() },
    );
    let _ = ind.show_error_message();
    ind.update_status("A".to_string(), InstallStatus::Downloading);
    assert_eq!(ind.statuses.len(), 1);
    assert!(matches!(ind.statuses[0].status, InstallStatus::Downloading));
}
