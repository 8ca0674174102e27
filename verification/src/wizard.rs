//! The wizard step state machine.
//!
//! A single `WizardState` value holds everything the four steps show and
//! gate on. It is mutated only by `WizardState::apply`, which takes one
//! event and reports which one-shot tasks became eligible to run. Two
//! chains of readiness flags drive the background work: the address/cert
//! chain of step one (discover address, push it, import the trust root,
//! install server certificates) and the shortcut chain of step two
//! (create the shortcut, enable search indexing). Each chain is a strict
//! pipeline: at most one of its flags is armed at any time, and a task's
//! success arms only the next link.

use vstd::prelude::*;
use crate::account::{UserAccount, UserOperation, validate, validate_spec};
use crate::errors::{CMDError, LoadError};
use crate::task::{Event, OneShotTask, TaskKind};

verus! {

/// The index of the last wizard step.
pub const LAST_STEP: u8 = 3;

/// The baseline read at startup: whether the installed companion version
/// meets the prerequisite, and how many accounts already exist.
#[derive(Clone, Copy, Debug, PartialEq, Eq, Structural)]
pub struct LoadingConf {
    pub prerequisite_ok: bool,
    pub existing_account_count: u8,
}

/// All state of the four wizard steps.
pub struct WizardState {
    /// The step currently shown, always at most `LAST_STEP`.
    pub step: u8,
    /// Whether the prerequisite version check passed at startup.
    pub prerequisite_ok: bool,
    /// How many accounts existed at startup.
    pub existing_account_count: u8,
    /// The LAN address found by discovery, once it has succeeded.
    pub lan_address: Option<String>,
    /// Address/cert chain: the address was pushed to the client device.
    pub address_pushed: bool,
    /// Address/cert chain: the trust root was imported into the system store.
    pub ca_in_trust_store: bool,
    /// Address/cert chain: the server certificates were installed.
    pub server_certs_installed: bool,
    /// The user confirmed the irreversible push/import actions of step one.
    pub user_consented_to_push: bool,
    /// Shortcut chain: the desktop shortcut was created.
    pub shortcut_created: bool,
    /// Shortcut chain: search indexing of the shortcut was enabled.
    pub search_index_enabled: bool,
    /// The account operation picked on the account step.
    pub selected_operation: Option<UserOperation>,
    /// The typed username; holds the user listing while `List` is selected.
    pub username: String,
    /// The typed password.
    pub password: String,
    /// The validation text of the last submit, empty when it passed.
    pub status_message: String,
    /// Readiness flag: address discovery is armed or in flight.
    pub awaiting_lookup: bool,
    /// Readiness flag: the address push is armed or in flight.
    pub awaiting_address_push: bool,
    /// Readiness flag: the trust-store import is armed or in flight.
    pub awaiting_trust_import: bool,
    /// Readiness flag: the certificate install is armed or in flight.
    pub awaiting_cert_install: bool,
    /// Readiness flag: the shortcut creation is armed or in flight.
    pub awaiting_shortcut: bool,
    /// Readiness flag: enabling search indexing is armed or in flight.
    pub awaiting_search_index: bool,
}

impl WizardState {
    /// How many flags of the address/cert chain are armed.
    pub open spec fn address_chain_armed(self) -> int {
        (if self.awaiting_lookup { 1int } else { 0int })
            + (if self.awaiting_address_push { 1int } else { 0int })
            + (if self.awaiting_trust_import { 1int } else { 0int })
            + (if self.awaiting_cert_install { 1int } else { 0int })
    }

    /// How many flags of the shortcut chain are armed.
    pub open spec fn shortcut_chain_armed(self) -> int {
        (if self.awaiting_shortcut { 1int } else { 0int })
            + (if self.awaiting_search_index { 1int } else { 0int })
    }

    /// Well-formedness: the step index is in range, each chain is a
    /// strict pipeline with at most one flag armed, and every chain
    /// position past discovery has an address to work with.
    pub open spec fn wf(self) -> bool {
        &&& self.step <= LAST_STEP
        &&& self.address_chain_armed() <= 1
        &&& self.shortcut_chain_armed() <= 1
        &&& (self.awaiting_address_push || self.awaiting_trust_import
            || self.awaiting_cert_install) ==> self.lan_address is Some
    }

    /// The freshly loaded state: the welcome step, nothing armed,
    /// nothing typed, nothing done.
    pub fn new(conf: &LoadingConf) -> (s: WizardState)
        ensures
            s.wf(),
            s.step == 0,
            s.prerequisite_ok == conf.prerequisite_ok,
            s.existing_account_count == conf.existing_account_count,
            s.lan_address is None,
            !s.address_pushed && !s.ca_in_trust_store && !s.server_certs_installed,
            !s.user_consented_to_push,
            !s.shortcut_created && !s.search_index_enabled,
            s.selected_operation is None,
            s.username@ == Seq::<char>::empty(),
            s.password@ == Seq::<char>::empty(),
            s.status_message@ == Seq::<char>::empty(),
            s.address_chain_armed() == 0,
            s.shortcut_chain_armed() == 0,
    {
        WizardState {
            step: 0,
            prerequisite_ok: conf.prerequisite_ok,
            existing_account_count: conf.existing_account_count,
            lan_address: None,
            address_pushed: false,
            ca_in_trust_store: false,
            server_certs_installed: false,
            user_consented_to_push: false,
            shortcut_created: false,
            search_index_enabled: false,
            selected_operation: None,
            username: String::new(),
            password: String::new(),
            status_message: String::new(),
            awaiting_lookup: false,
            awaiting_address_push: false,
            awaiting_trust_import: false,
            awaiting_cert_install: false,
            awaiting_shortcut: false,
            awaiting_search_index: false,
        }
    }

    /// Whether a back step exists.
    pub fn has_previous(&self) -> (b: bool)
        ensures
            b == (self.step > 0),
    {
        self.step > 0
    }

    /// Whether the current step may be advanced. This is the one hard
    /// gate of the machine: nothing advances while the prerequisite
    /// fails, the last step is terminal, and step one also demands the
    /// user's explicit consent to the irreversible actions.
    pub fn can_continue(&self) -> (b: bool)
        ensures
            b == can_advance_spec(*self),
    {
        self.prerequisite_ok && self.step < LAST_STEP && (self.step != 1
            || self.user_consented_to_push)
    }
}

/// Whether `Advance` is accepted in this state: see `can_continue`.
pub open spec fn can_advance_spec(s: WizardState) -> bool {
    s.prerequisite_ok && s.step < LAST_STEP && (s.step == 1 ==> s.user_consented_to_push)
}

/// Every event the engine takes: the baseline load, the buttons and
/// fields of the four steps, and the completion of a one-shot task.
pub enum Message {
    /// The startup baseline load finished.
    Loaded(Result<LoadingConf, LoadError>),
    /// The user asked for the next step.
    Advance,
    /// The user asked for the previous step.
    GoBack,
    /// The user picked an account operation.
    SelectOperation(UserOperation),
    /// The user edited the username field.
    EditUsername(String),
    /// The user edited the password field.
    EditPassword(String),
    /// The user toggled the consent switch of the address/cert step.
    ToggleConsent(bool),
    /// The user submitted the picked account operation.
    Submit,
    /// A dispatched task finished, well or badly.
    TaskCompleted(TaskKind, Result<Event, CMDError>),
}

/// The state on entering a step, fresh or again: the entered step's
/// first task is armed, every other readiness flag is cleared, and the
/// entered step's completion marks are reset so that no stale state of
/// an earlier pass is shown.
pub open spec fn entered(s: WizardState, step: u8) -> WizardState {
    if step == 1 {
        WizardState {
            step,
            awaiting_lookup: true,
            awaiting_address_push: false,
            awaiting_trust_import: false,
            awaiting_cert_install: false,
            awaiting_shortcut: false,
            awaiting_search_index: false,
            address_pushed: false,
            ca_in_trust_store: false,
            server_certs_installed: false,
            ..s
        }
    } else if step == 2 {
        WizardState {
            step,
            awaiting_lookup: false,
            awaiting_address_push: false,
            awaiting_trust_import: false,
            awaiting_cert_install: false,
            awaiting_shortcut: true,
            awaiting_search_index: false,
            shortcut_created: false,
            search_index_enabled: false,
            ..s
        }
    } else {
        WizardState {
            step,
            awaiting_lookup: false,
            awaiting_address_push: false,
            awaiting_trust_import: false,
            awaiting_cert_install: false,
            awaiting_shortcut: false,
            awaiting_search_index: false,
            ..s
        }
    }
}

/// The tasks that arming a freshly entered step dispatches.
pub open spec fn entry_tasks(step: u8) -> Seq<OneShotTask> {
    if step == 1 {
        seq![OneShotTask::DiscoverLanAddress]
    } else if step == 2 {
        seq![OneShotTask::CreateDesktopShortcut]
    } else {
        Seq::<OneShotTask>::empty()
    }
}

/// The event neither changed the state nor dispatched anything.
pub open spec fn unchanged(pre: WizardState, post: WizardState, tasks: Seq<OneShotTask>) -> bool {
    post == pre && tasks.len() == 0
}

/// What `Advance` does: nothing unless the step's gate is open, else
/// the next step is entered and its first task dispatched.
pub open spec fn advance_spec(pre: WizardState, post: WizardState, tasks: Seq<OneShotTask>) -> bool {
    if can_advance_spec(pre) {
        post == entered(pre, (pre.step + 1) as u8) && tasks =~= entry_tasks((pre.step + 1) as u8)
    } else {
        unchanged(pre, post, tasks)
    }
}

/// What `GoBack` does: nothing on the first step, else the previous
/// step is re-entered, re-armed exactly as a fresh entry would arm it.
pub open spec fn go_back_spec(pre: WizardState, post: WizardState, tasks: Seq<OneShotTask>) -> bool {
    if pre.step > 0 {
        post == entered(pre, (pre.step - 1) as u8) && tasks =~= entry_tasks((pre.step - 1) as u8)
    } else {
        unchanged(pre, post, tasks)
    }
}

/// What picking an operation does: `List` clears the text fields and
/// dispatches the listing; any other choice only resets the status text,
/// deferring validation to submit time.
pub open spec fn select_operation_spec(
    pre: WizardState,
    op: UserOperation,
    post: WizardState,
    tasks: Seq<OneShotTask>,
) -> bool {
    if op == UserOperation::List {
        &&& WizardState {
            selected_operation: pre.selected_operation,
            username: pre.username,
            password: pre.password,
            ..post
        } == pre
        &&& post.selected_operation == Some(op)
        &&& post.username@ == Seq::<char>::empty()
        &&& post.password@ == Seq::<char>::empty()
        &&& tasks =~= seq![OneShotTask::ListAccounts]
    } else {
        &&& WizardState {
            selected_operation: pre.selected_operation,
            status_message: pre.status_message,
            ..post
        } == pre
        &&& post.selected_operation == Some(op)
        &&& post.status_message@ == Seq::<char>::empty()
        &&& tasks.len() == 0
    }
}

/// What `Submit` does: with a mutation selected, the typed input is
/// validated; the status text reports the outcome, and only valid input
/// dispatches the mutation, carrying a copy of the credentials. With
/// nothing or `List` selected there is nothing to run, and the status
/// text is cleared. The fields are cleared only when the completion
/// event arrives, not at submit time.
pub open spec fn submit_spec(pre: WizardState, post: WizardState, tasks: Seq<OneShotTask>) -> bool {
    match pre.selected_operation {
        Some(op) => if op.is_mutation() {
            &&& WizardState { status_message: pre.status_message, ..post } == pre
            &&& match validate_spec(op, pre.username@, pre.password@) {
                Ok(()) => {
                    &&& post.status_message@ == Seq::<char>::empty()
                    &&& tasks =~= seq![
                        OneShotTask::RunAccountOperation {
                            operation: op,
                            account: UserAccount {
                                username: pre.username,
                                password: pre.password,
                            },
                        },
                    ]
                },
                Err(e) => {
                    &&& post.status_message@ == e.message_spec()
                    &&& tasks.len() == 0
                },
            }
        } else {
            &&& WizardState { status_message: pre.status_message, ..post } == pre
            &&& post.status_message@ == Seq::<char>::empty()
            &&& tasks.len() == 0
        },
        None => {
            &&& WizardState { status_message: pre.status_message, ..post } == pre
            &&& post.status_message@ == Seq::<char>::empty()
            &&& tasks.len() == 0
        },
    }
}

/// What a completion event does. A completion whose readiness flag is
/// no longer armed is stale and does nothing: navigation has moved on,
/// and the chain position it reports no longer exists. An armed
/// completion always disarms its flag; success records the effect and
/// arms the next link of its chain, failure leaves the chain stalled
/// until the step is re-entered.
pub open spec fn task_completed_spec(
    pre: WizardState,
    kind: TaskKind,
    outcome: Result<Event, CMDError>,
    post: WizardState,
    tasks: Seq<OneShotTask>,
) -> bool {
    match kind {
        TaskKind::DiscoverLanAddress => if !pre.awaiting_lookup {
            unchanged(pre, post, tasks)
        } else {
            match outcome {
                Ok(Event::Received(Some(a))) => {
                    &&& post == WizardState {
                        awaiting_lookup: false,
                        lan_address: Some(a),
                        awaiting_address_push: true,
                        ..pre
                    }
                    &&& tasks =~= seq![OneShotTask::PushAddressToClient { address: a }]
                },
                _ => {
                    &&& post == WizardState { awaiting_lookup: false, ..pre }
                    &&& tasks.len() == 0
                },
            }
        },
        TaskKind::PushAddressToClient => if !pre.awaiting_address_push {
            unchanged(pre, post, tasks)
        } else {
            match outcome {
                Ok(_) => {
                    &&& post == WizardState {
                        awaiting_address_push: false,
                        address_pushed: true,
                        awaiting_trust_import: true,
                        ..pre
                    }
                    &&& tasks =~= seq![OneShotTask::ImportCaToTrustStore]
                },
                Err(_) => {
                    &&& post == WizardState { awaiting_address_push: false, ..pre }
                    &&& tasks.len() == 0
                },
            }
        },
        TaskKind::ImportCaToTrustStore => if !pre.awaiting_trust_import {
            unchanged(pre, post, tasks)
        } else {
            match outcome {
                Ok(_) => {
                    &&& post == WizardState {
                        awaiting_trust_import: false,
                        ca_in_trust_store: true,
                        awaiting_cert_install: true,
                        ..pre
                    }
                    &&& match pre.lan_address {
                        Some(a) => tasks =~= seq![
                            OneShotTask::InstallServerCertificates { address: a },
                        ],
                        None => tasks.len() == 0,
                    }
                },
                Err(_) => {
                    &&& post == WizardState { awaiting_trust_import: false, ..pre }
                    &&& tasks.len() == 0
                },
            }
        },
        TaskKind::InstallServerCertificates => if !pre.awaiting_cert_install {
            unchanged(pre, post, tasks)
        } else {
            match outcome {
                Ok(_) => {
                    &&& post == WizardState {
                        awaiting_cert_install: false,
                        server_certs_installed: true,
                        ..pre
                    }
                    &&& tasks.len() == 0
                },
                Err(_) => {
                    &&& post == WizardState { awaiting_cert_install: false, ..pre }
                    &&& tasks.len() == 0
                },
            }
        },
        TaskKind::CreateDesktopShortcut => if !pre.awaiting_shortcut {
            unchanged(pre, post, tasks)
        } else {
            match outcome {
                Ok(_) => {
                    &&& post == WizardState {
                        awaiting_shortcut: false,
                        shortcut_created: true,
                        awaiting_search_index: true,
                        ..pre
                    }
                    &&& tasks =~= seq![OneShotTask::EnableSearchIndexing]
                },
                Err(_) => {
                    &&& post == WizardState { awaiting_shortcut: false, ..pre }
                    &&& tasks.len() == 0
                },
            }
        },
        TaskKind::EnableSearchIndexing => if !pre.awaiting_search_index {
            unchanged(pre, post, tasks)
        } else {
            match outcome {
                Ok(_) => {
                    &&& post == WizardState {
                        awaiting_search_index: false,
                        search_index_enabled: true,
                        ..pre
                    }
                    &&& tasks.len() == 0
                },
                Err(_) => {
                    &&& post == WizardState { awaiting_search_index: false, ..pre }
                    &&& tasks.len() == 0
                },
            }
        },
        TaskKind::ListAccounts => if pre.selected_operation == Some(UserOperation::List) {
            match outcome {
                Ok(Event::Received(Some(users))) => {
                    &&& post == WizardState { username: users, ..pre }
                    &&& tasks.len() == 0
                },
                _ => unchanged(pre, post, tasks),
            }
        } else {
            unchanged(pre, post, tasks)
        },
        TaskKind::RunAccountOperation => {
            &&& WizardState { username: pre.username, password: pre.password, ..post } == pre
            &&& post.username@ == Seq::<char>::empty()
            &&& post.password@ == Seq::<char>::empty()
            &&& tasks.len() == 0
        },
    }
}

/// The full transition relation of `WizardState::apply`: one case per
/// event. `Loaded` is consumed by `WizardController` before a state
/// exists and does nothing here.
pub open spec fn apply_spec(
    pre: WizardState,
    msg: Message,
    post: WizardState,
    tasks: Seq<OneShotTask>,
) -> bool {
    match msg {
        Message::Loaded(_) => unchanged(pre, post, tasks),
        Message::Advance => advance_spec(pre, post, tasks),
        Message::GoBack => go_back_spec(pre, post, tasks),
        Message::SelectOperation(op) => select_operation_spec(pre, op, post, tasks),
        Message::EditUsername(u) => {
            &&& post == WizardState { username: u, ..pre }
            &&& tasks.len() == 0
        },
        Message::EditPassword(p) => {
            &&& post == WizardState { password: p, ..pre }
            &&& tasks.len() == 0
        },
        Message::ToggleConsent(b) => {
            &&& post == WizardState { user_consented_to_push: b, ..pre }
            &&& tasks.len() == 0
        },
        Message::Submit => submit_spec(pre, post, tasks),
        Message::TaskCompleted(kind, outcome) => task_completed_spec(pre, kind, outcome, post, tasks),
    }
}

impl WizardState {
    /// Enters a step, arming it as `entered` describes, and returns the
    /// tasks that the arming dispatches.
    #[verifier::rlimit(60)]
    fn enter_step(&mut self, step: u8) -> (tasks: Vec<OneShotTask>)
        ensures
            *final(self) == entered(*old(self), step),
            tasks@ =~= entry_tasks(step),
    {
        let mut tasks: Vec<OneShotTask> = Vec::new();
        self.step = step;
        self.awaiting_lookup = false;
        self.awaiting_address_push = false;
        self.awaiting_trust_import = false;
        self.awaiting_cert_install = false;
        self.awaiting_shortcut = false;
        self.awaiting_search_index = false;
        if step == 1 {
            self.awaiting_lookup = true;
            self.address_pushed = false;
            self.ca_in_trust_store = false;
            self.server_certs_installed = false;
            tasks.push(OneShotTask::DiscoverLanAddress);
        } else if step == 2 {
            self.awaiting_shortcut = true;
            self.shortcut_created = false;
            self.search_index_enabled = false;
            tasks.push(OneShotTask::CreateDesktopShortcut);
        }
        tasks
    }

    /// Takes one event, updates the state as `apply_spec` describes, and
    /// returns the tasks that became eligible to run through it. The
    /// host runs each returned task once and feeds its outcome back as a
    /// `TaskCompleted` event; a task is never dispatched again until a
    /// later transition re-arms it.
    #[verifier::spinoff_prover]
    #[verifier::rlimit(100)]
    pub fn apply(&mut self, msg: Message) -> (tasks: Vec<OneShotTask>)
        requires
            old(self).wf(),
        ensures
            final(self).wf(),
            apply_spec(*old(self), msg, *final(self), tasks@),
    {
        match msg {
            Message::Loaded(_) => Vec::new(),
            Message::Advance => {
                if self.can_continue() {
                    let next = self.step + 1;
                    self.enter_step(next)
                } else {
                    Vec::new()
                }
            },
            Message::GoBack => {
                if self.step > 0 {
                    let previous = self.step - 1;
                    self.enter_step(previous)
                } else {
                    Vec::new()
                }
            },
            Message::SelectOperation(op) => self.select_operation(op),
            Message::EditUsername(u) => {
                self.username = u;
                Vec::new()
            },
            Message::EditPassword(p) => {
                self.password = p;
                Vec::new()
            },
            Message::ToggleConsent(b) => {
                self.user_consented_to_push = b;
                Vec::new()
            },
            Message::Submit => self.submit(),
            Message::TaskCompleted(kind, outcome) => self.complete_task(kind, outcome),
        }
    }

    /// Records the picked operation as `select_operation_spec` describes.
    fn select_operation(&mut self, op: UserOperation) -> (tasks: Vec<OneShotTask>)
        ensures
            select_operation_spec(*old(self), op, *final(self), tasks@),
    {
        let mut tasks: Vec<OneShotTask> = Vec::new();
        self.selected_operation = Some(op);
        if op == UserOperation::List {
            self.username = String::new();
            self.password = String::new();
            tasks.push(OneShotTask::ListAccounts);
        } else {
            self.status_message = String::new();
        }
        tasks
    }

    /// Validates and dispatches the picked mutation as `submit_spec`
    /// describes.
    #[verifier::spinoff_prover]
    #[verifier::rlimit(100)]
    fn submit(&mut self) -> (tasks: Vec<OneShotTask>)
        ensures
            submit_spec(*old(self), *final(self), tasks@),
    {
        let mut tasks: Vec<OneShotTask> = Vec::new();
        match self.selected_operation {
            Some(
                op @ (UserOperation::Add | UserOperation::Delete | UserOperation::ChangePassword),
            ) => {
                match validate(op, self.username.as_str(), self.password.as_str()) {
                    Ok(()) => {
                        self.status_message = String::new();
                        let account = UserAccount {
                            username: self.username.clone(),
                            password: self.password.clone(),
                        };
                        tasks.push(OneShotTask::RunAccountOperation { operation: op, account });
                    },
                    Err(e) => {
                        self.status_message = e.message();
                    },
                }
            },
            _ => {
                self.status_message = String::new();
            },
        }
        tasks
    }

    /// Applies a completion event as `task_completed_spec` describes.
    #[verifier::spinoff_prover]
    #[verifier::rlimit(100)]
    fn complete_task(&mut self, kind: TaskKind, outcome: Result<Event, CMDError>) -> (tasks: Vec<
        OneShotTask,
    >)
        ensures
            task_completed_spec(*old(self), kind, outcome, *final(self), tasks@),
    {
        let mut tasks: Vec<OneShotTask> = Vec::new();
        match kind {
                    TaskKind::DiscoverLanAddress => {
                        if self.awaiting_lookup {
                            self.awaiting_lookup = false;
                            if let Ok(Event::Received(Some(a))) = outcome {
                                self.lan_address = Some(a.clone());
                                self.awaiting_address_push = true;
                                tasks.push(OneShotTask::PushAddressToClient { address: a });
                            }
                        }
                    },
                    TaskKind::PushAddressToClient => {
                        if self.awaiting_address_push {
                            self.awaiting_address_push = false;
                            if outcome.is_ok() {
                                self.address_pushed = true;
                                self.awaiting_trust_import = true;
                                tasks.push(OneShotTask::ImportCaToTrustStore);
                            }
                        }
                    },
                    TaskKind::ImportCaToTrustStore => {
                        if self.awaiting_trust_import {
                            self.awaiting_trust_import = false;
                            if outcome.is_ok() {
                                self.ca_in_trust_store = true;
                                self.awaiting_cert_install = true;
                                if let Some(a) = &self.lan_address {
                                    tasks.push(
                                        OneShotTask::InstallServerCertificates {
                                            address: a.clone(),
                                        },
                                    );
                                }
                            }
                        }
                    },
                    TaskKind::InstallServerCertificates => {
                        if self.awaiting_cert_install {
                            self.awaiting_cert_install = false;
                            if outcome.is_ok() {
                                self.server_certs_installed = true;
                            }
                        }
                    },
                    TaskKind::CreateDesktopShortcut => {
                        if self.awaiting_shortcut {
                            self.awaiting_shortcut = false;
                            if outcome.is_ok() {
                                self.shortcut_created = true;
                                self.awaiting_search_index = true;
                                tasks.push(OneShotTask::EnableSearchIndexing);
                            }
                        }
                    },
                    TaskKind::EnableSearchIndexing => {
                        if self.awaiting_search_index {
                            self.awaiting_search_index = false;
                            if outcome.is_ok() {
                                self.search_index_enabled = true;
                            }
                        }
                    },
                    TaskKind::ListAccounts => {
                        if self.selected_operation == Some(UserOperation::List) {
                            if let Ok(Event::Received(Some(users))) = outcome {
                                self.username = users;
                            }
                        }
                    },
                    TaskKind::RunAccountOperation => {
                        self.username = String::new();
                        self.password = String::new();
                    },
                }
        tasks
    }

    /// The kinds armed right now, in chain order: a pure reading of the
    /// readiness flags, plus the listing that stays armed while `List`
    /// is the selected operation.
    #[verifier::spinoff_prover]
    #[verifier::rlimit(100)]
    pub fn eligible_tasks(&self) -> (kinds: Vec<TaskKind>)
        ensures
            kinds@ =~= eligible_spec(*self),
    {
        let mut kinds: Vec<TaskKind> = Vec::new();
        if self.awaiting_lookup {
            kinds.push(TaskKind::DiscoverLanAddress);
        }
        assert(kinds@ =~= armed_piece(self.awaiting_lookup, TaskKind::DiscoverLanAddress));
        if self.awaiting_address_push {
            kinds.push(TaskKind::PushAddressToClient);
        }
        if self.awaiting_trust_import {
            kinds.push(TaskKind::ImportCaToTrustStore);
        }
        assert(kinds@ =~= armed_piece(self.awaiting_lookup, TaskKind::DiscoverLanAddress)
            + armed_piece(self.awaiting_address_push, TaskKind::PushAddressToClient)
            + armed_piece(self.awaiting_trust_import, TaskKind::ImportCaToTrustStore));
        if self.awaiting_cert_install {
            kinds.push(TaskKind::InstallServerCertificates);
        }
        if self.awaiting_shortcut {
            kinds.push(TaskKind::CreateDesktopShortcut);
        }
        assert(kinds@ =~= armed_piece(self.awaiting_lookup, TaskKind::DiscoverLanAddress)
            + armed_piece(self.awaiting_address_push, TaskKind::PushAddressToClient)
            + armed_piece(self.awaiting_trust_import, TaskKind::ImportCaToTrustStore)
            + armed_piece(self.awaiting_cert_install, TaskKind::InstallServerCertificates)
            + armed_piece(self.awaiting_shortcut, TaskKind::CreateDesktopShortcut));
        if self.awaiting_search_index {
            kinds.push(TaskKind::EnableSearchIndexing);
        }
        if self.selected_operation == Some(UserOperation::List) {
            kinds.push(TaskKind::ListAccounts);
        }
        kinds
    }
}

/// One singleton or empty piece of the eligible-task list.
pub open spec fn armed_piece(armed: bool, kind: TaskKind) -> Seq<TaskKind> {
    if armed {
        seq![kind]
    } else {
        Seq::<TaskKind>::empty()
    }
}

/// The kinds armed in a state, in chain order: see `eligible_tasks`.
pub open spec fn eligible_spec(s: WizardState) -> Seq<TaskKind> {
    armed_piece(s.awaiting_lookup, TaskKind::DiscoverLanAddress) + armed_piece(
        s.awaiting_address_push,
        TaskKind::PushAddressToClient,
    ) + armed_piece(s.awaiting_trust_import, TaskKind::ImportCaToTrustStore) + armed_piece(
        s.awaiting_cert_install,
        TaskKind::InstallServerCertificates,
    ) + armed_piece(s.awaiting_shortcut, TaskKind::CreateDesktopShortcut) + armed_piece(
        s.awaiting_search_index,
        TaskKind::EnableSearchIndexing,
    ) + armed_piece(
        s.selected_operation == Some(UserOperation::List),
        TaskKind::ListAccounts,
    )
}

/// The readiness flag that gates completions of a chain task. The
/// listing and the account mutation are not chain tasks and have none.
pub open spec fn chain_flag_armed(s: WizardState, kind: TaskKind) -> bool {
    match kind {
        TaskKind::DiscoverLanAddress => s.awaiting_lookup,
        TaskKind::PushAddressToClient => s.awaiting_address_push,
        TaskKind::ImportCaToTrustStore => s.awaiting_trust_import,
        TaskKind::InstallServerCertificates => s.awaiting_cert_install,
        TaskKind::CreateDesktopShortcut => s.awaiting_shortcut,
        TaskKind::EnableSearchIndexing => s.awaiting_search_index,
        TaskKind::ListAccounts | TaskKind::RunAccountOperation => false,
    }
}

/// The six readiness flags of a state, as one value.
pub open spec fn readiness_flags(s: WizardState) -> (bool, bool, bool, bool, bool, bool) {
    (
        s.awaiting_lookup,
        s.awaiting_address_push,
        s.awaiting_trust_import,
        s.awaiting_cert_install,
        s.awaiting_shortcut,
        s.awaiting_search_index,
    )
}

/// Law: going back and then advancing returns to the very same
/// readiness-flag configuration, and dispatches the very same tasks, as
/// freshly entering that step does. Re-entry is idempotent: however a
/// step is reached, it is armed the same way.
pub proof fn lemma_reentry_rearms_like_fresh_entry(
    pre: WizardState,
    mid: WizardState,
    back_tasks: Seq<OneShotTask>,
    post: WizardState,
    forward_tasks: Seq<OneShotTask>,
    fresh_pre: WizardState,
    fresh_post: WizardState,
    fresh_tasks: Seq<OneShotTask>,
)
    requires
        pre.step > 0,
        apply_spec(pre, Message::GoBack, mid, back_tasks),
        can_advance_spec(mid),
        apply_spec(mid, Message::Advance, post, forward_tasks),
        fresh_pre.step + 1 == pre.step,
        can_advance_spec(fresh_pre),
        apply_spec(fresh_pre, Message::Advance, fresh_post, fresh_tasks),
    ensures
        post.step == pre.step,
        readiness_flags(post) == readiness_flags(fresh_post),
        forward_tasks =~= fresh_tasks,
{
    assert(mid == entered(pre, (pre.step - 1) as u8));
    assert(post == entered(mid, pre.step));
    assert(fresh_post == entered(fresh_pre, pre.step));
}

/// Law: `Advance` from the address/cert step is rejected while the user
/// has not consented to the irreversible push and import, whatever the
/// other flags hold: the state is unchanged and nothing is dispatched.
pub proof fn lemma_consent_gates_advance(
    pre: WizardState,
    post: WizardState,
    tasks: Seq<OneShotTask>,
)
    requires
        pre.step == 1,
        !pre.user_consented_to_push,
        apply_spec(pre, Message::Advance, post, tasks),
    ensures
        post == pre,
        tasks.len() == 0,
{
}

/// Law: a completion event for a chain task whose readiness flag is not
/// armed is stale and does nothing, whatever its outcome: navigation has
/// reset the chain since the task was dispatched, and the state it would
/// record no longer exists.
pub proof fn lemma_stale_completion_is_noop(
    pre: WizardState,
    kind: TaskKind,
    outcome: Result<Event, CMDError>,
    post: WizardState,
    tasks: Seq<OneShotTask>,
)
    requires
        kind != TaskKind::ListAccounts,
        kind != TaskKind::RunAccountOperation,
        !chain_flag_armed(pre, kind),
        apply_spec(pre, Message::TaskCompleted(kind, outcome), post, tasks),
    ensures
        post == pre,
        tasks.len() == 0,
{
}

} // verus!
