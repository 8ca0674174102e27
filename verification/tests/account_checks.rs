use sync_wizard::account::{UserOperation, ValidationError, validate};
use sync_wizard::errors::CMDError;
use sync_wizard::task::{Event, OneShotTask, TaskKind};
use sync_wizard::wizard::{LoadingConf, Message, WizardState};

#[test]
fn delete_needs_a_username() {
    assert_eq!(
        validate(UserOperation::Delete, "", "x"),
        Err(ValidationError::EmptyUsername)
    );
    assert_eq!(validate(UserOperation::Delete, "bob", ""), Ok(()));
}

#[test]
fn add_and_change_password_need_both_fields() {
    assert_eq!(
        validate(UserOperation::Add, "bob", ""),
        Err(ValidationError::EmptyUsernameOrPassword)
    );
    assert_eq!(
        validate(UserOperation::Add, "", "pw"),
        Err(ValidationError::EmptyUsernameOrPassword)
    );
    assert_eq!(validate(UserOperation::Add, "bob", "pw"), Ok(()));
    assert_eq!(
        validate(UserOperation::ChangePassword, "bob", ""),
        Err(ValidationError::EmptyUsernameOrPassword)
    );
    assert_eq!(validate(UserOperation::ChangePassword, "bob", "pw"), Ok(()));
}

#[test]
fn list_is_never_rejected() {
    assert_eq!(validate(UserOperation::List, "", ""), Ok(()));
}

#[test]
fn validation_messages_are_readable() {
    assert_eq!(ValidationError::EmptyUsername.message(), "empty username");
    assert_eq!(
        ValidationError::EmptyUsernameOrPassword.message(),
        "empty username or password"
    );
}

#[test]
fn all_lists_every_operation_once() {
    let ops = UserOperation::all();
    assert_eq!(
        ops,
        [
            UserOperation::Add,
            UserOperation::List,
            UserOperation::Delete,
            UserOperation::ChangePassword,
        ]
    );
}

#[test]
fn operation_labels_are_readable() {
    assert_eq!(UserOperation::Add.label(), "add account");
    assert_eq!(UserOperation::List.label(), "list accounts");
    assert_eq!(UserOperation::Delete.label(), "delete account");
    assert_eq!(UserOperation::ChangePassword.label(), "change password");
}

fn ready_state() -> WizardState {
    WizardState::new(&LoadingConf { prerequisite_ok: true, existing_account_count: 1 })
}

#[test]
fn submitting_a_delete_dispatches_it_and_completion_clears_the_fields() {
    let mut s = ready_state();
    s.apply(Message::SelectOperation(UserOperation::Delete));
    s.apply(Message::EditUsername("bob".to_string()));
    let tasks = s.apply(Message::Submit);
    assert_eq!(tasks.len(), 1);
    match &tasks[0] {
        OneShotTask::RunAccountOperation { operation, account } => {
            assert_eq!(*operation, UserOperation::Delete);
            assert_eq!(account.username, "bob");
            assert_eq!(account.password, "");
        }
        other => panic!("expected the account mutation, got {:?}", other),
    }
    assert_eq!(s.status_message, "");
    // The fields clear only once the completion event arrives.
    assert_eq!(s.username, "bob");

    let tasks = s.apply(Message::TaskCompleted(
        TaskKind::RunAccountOperation,
        Ok(Event::Received(None)),
    ));
    assert!(tasks.is_empty());
    assert_eq!(s.username, "");
    assert_eq!(s.password, "");
    assert_eq!(s.status_message, "");
}

#[test]
fn an_invalid_submit_dispatches_nothing_and_reports_why() {
    let mut s = ready_state();
    s.apply(Message::SelectOperation(UserOperation::Add));
    s.apply(Message::EditUsername("bob".to_string()));
    let tasks = s.apply(Message::Submit);
    assert!(tasks.is_empty());
    assert_eq!(s.status_message, "empty username or password");
    // The typed input stays for the user to mend.
    assert_eq!(s.username, "bob");

    s.apply(Message::EditPassword("pw".to_string()));
    let tasks = s.apply(Message::Submit);
    assert_eq!(tasks.len(), 1);
    assert_eq!(s.status_message, "");
}

#[test]
fn a_failed_mutation_still_clears_the_fields() {
    let mut s = ready_state();
    s.apply(Message::SelectOperation(UserOperation::Add));
    s.apply(Message::EditUsername("bob".to_string()));
    s.apply(Message::EditPassword("pw".to_string()));
    let tasks = s.apply(Message::Submit);
    assert_eq!(tasks.len(), 1);

    let tasks = s.apply(Message::TaskCompleted(
        TaskKind::RunAccountOperation,
        Err(CMDError::ExcError),
    ));
    assert!(tasks.is_empty());
    assert_eq!(s.username, "");
    assert_eq!(s.password, "");
}

#[test]
fn submit_with_nothing_selected_dispatches_nothing() {
    let mut s = ready_state();
    let tasks = s.apply(Message::Submit);
    assert!(tasks.is_empty());
    assert_eq!(s.status_message, "");

    s.apply(Message::SelectOperation(UserOperation::List));
    let tasks = s.apply(Message::Submit);
    assert!(tasks.is_empty());
    assert_eq!(s.status_message, "");
}
