use sync_wizard::account::UserOperation;
use sync_wizard::present::{account_panel, prerequisite_notice, progress_marker, snapshot, title_of};
use sync_wizard::task::{Event, TaskKind};
use sync_wizard::wizard::{LoadingConf, Message, WizardState};

#[test]
fn every_step_has_a_title() {
    assert_eq!(title_of(0), "Welcome");
    assert_eq!(title_of(1), "Address and certificates");
    assert_eq!(title_of(2), "Desktop shortcut");
    assert_eq!(title_of(3), "Account management");
}

#[test]
fn markers_show_progress() {
    assert_eq!(progress_marker(true), "OK");
    assert_eq!(progress_marker(false), "...");
}

#[test]
fn the_prerequisite_notice_persists_until_met() {
    assert_eq!(prerequisite_notice(false), "prerequisite not met");
    assert_eq!(prerequisite_notice(true), "");
}

#[test]
fn unmet_prerequisite_blocks_and_is_shown() {
    let mut s = WizardState::new(&LoadingConf { prerequisite_ok: false, existing_account_count: 0 });
    let tasks = s.apply(Message::Advance);
    assert!(tasks.is_empty());
    let snap = snapshot(&s);
    assert_eq!(snap.prerequisite_notice, "prerequisite not met");
    assert!(!snap.show_next);
    assert!(!snap.show_back);
    assert_eq!(snap.title, "Welcome");
}

#[test]
fn the_panel_follows_the_picked_operation() {
    let none = account_panel(None);
    assert!(!none.show_username_input && !none.show_password_input && !none.show_submit);

    let list = account_panel(Some(UserOperation::List));
    assert!(!list.show_username_input && !list.show_password_input && !list.show_submit);

    let delete = account_panel(Some(UserOperation::Delete));
    assert!(delete.show_username_input && !delete.show_password_input && delete.show_submit);

    let add = account_panel(Some(UserOperation::Add));
    assert!(add.show_username_input && add.show_password_input && add.show_submit);

    let pass = account_panel(Some(UserOperation::ChangePassword));
    assert!(pass.show_username_input && pass.show_password_input && pass.show_submit);
}

#[test]
fn the_snapshot_tracks_the_address_chain() {
    let mut s = WizardState::new(&LoadingConf { prerequisite_ok: true, existing_account_count: 1 });
    s.apply(Message::Advance);
    let snap = snapshot(&s);
    assert_eq!(snap.title, "Address and certificates");
    assert_eq!(snap.address_pushed_marker, "...");
    assert_eq!(snap.sync_address, "https://:27701");
    assert!(snap.show_back);
    assert!(!snap.show_next);

    s.apply(Message::TaskCompleted(
        TaskKind::DiscoverLanAddress,
        Ok(Event::Received(Some("10.0.0.5".to_string()))),
    ));
    s.apply(Message::TaskCompleted(TaskKind::PushAddressToClient, Ok(Event::Received(None))));
    s.apply(Message::ToggleConsent(true));
    let snap = snapshot(&s);
    assert_eq!(snap.address_pushed_marker, "OK");
    assert_eq!(snap.trust_store_marker, "...");
    assert_eq!(snap.sync_address, "https://10.0.0.5:27701");
    assert_eq!(snap.media_address, "https://10.0.0.5:27701/msync");
    assert!(snap.show_next);
}

#[test]
fn the_welcome_step_offers_accounts_only_with_existing_ones() {
    let with_accounts = WizardState::new(&LoadingConf { prerequisite_ok: true, existing_account_count: 1 });
    assert!(snapshot(&with_accounts).welcome_offers_accounts);

    let without = WizardState::new(&LoadingConf { prerequisite_ok: true, existing_account_count: 0 });
    assert!(!snapshot(&without).welcome_offers_accounts);

    let unmet = WizardState::new(&LoadingConf { prerequisite_ok: false, existing_account_count: 3 });
    assert!(!snapshot(&unmet).welcome_offers_accounts);
}
