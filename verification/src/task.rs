//! One-shot background tasks: what the engine can ask the host to run,
//! and what a finished run reports back.
//!
//! A task executes at most once per arming and reports exactly one
//! completion event. The engine arms a task by raising its readiness
//! flag; the host learns of the arming through the task list that
//! `WizardState::apply` returns, runs the task, and feeds the outcome
//! back in as a `TaskCompleted` event.

use vstd::prelude::*;
use crate::account::{UserAccount, UserOperation};

verus! {

/// The tag that identifies a background operation.
#[derive(Clone, Copy, Debug, PartialEq, Eq, Structural)]
pub enum TaskKind {
    DiscoverLanAddress,
    PushAddressToClient,
    ImportCaToTrustStore,
    InstallServerCertificates,
    CreateDesktopShortcut,
    EnableSearchIndexing,
    ListAccounts,
    RunAccountOperation,
}

/// One dispatched background operation, carrying the inputs it needs.
/// The inputs are copied at dispatch time, never borrowed from live state.
#[derive(Debug)]
pub enum OneShotTask {
    DiscoverLanAddress,
    PushAddressToClient { address: String },
    ImportCaToTrustStore,
    InstallServerCertificates { address: String },
    CreateDesktopShortcut,
    EnableSearchIndexing,
    ListAccounts,
    RunAccountOperation { operation: UserOperation, account: UserAccount },
}

impl OneShotTask {
    /// The kind that identifies the operation.
    pub open spec fn kind_spec(self) -> TaskKind {
        match self {
            OneShotTask::DiscoverLanAddress => TaskKind::DiscoverLanAddress,
            OneShotTask::PushAddressToClient { .. } => TaskKind::PushAddressToClient,
            OneShotTask::ImportCaToTrustStore => TaskKind::ImportCaToTrustStore,
            OneShotTask::InstallServerCertificates { .. } => TaskKind::InstallServerCertificates,
            OneShotTask::CreateDesktopShortcut => TaskKind::CreateDesktopShortcut,
            OneShotTask::EnableSearchIndexing => TaskKind::EnableSearchIndexing,
            OneShotTask::ListAccounts => TaskKind::ListAccounts,
            OneShotTask::RunAccountOperation { .. } => TaskKind::RunAccountOperation,
        }
    }

    /// The kind that identifies the operation.
    pub fn kind(&self) -> (k: TaskKind)
        ensures
            k == self.kind_spec(),
    {
        match self {
            OneShotTask::DiscoverLanAddress => TaskKind::DiscoverLanAddress,
            OneShotTask::PushAddressToClient { .. } => TaskKind::PushAddressToClient,
            OneShotTask::ImportCaToTrustStore => TaskKind::ImportCaToTrustStore,
            OneShotTask::InstallServerCertificates { .. } => TaskKind::InstallServerCertificates,
            OneShotTask::CreateDesktopShortcut => TaskKind::CreateDesktopShortcut,
            OneShotTask::EnableSearchIndexing => TaskKind::EnableSearchIndexing,
            OneShotTask::ListAccounts => TaskKind::ListAccounts,
            OneShotTask::RunAccountOperation { .. } => TaskKind::RunAccountOperation,
        }
    }
}

/// What a finished task hands back: `Received` carries the payload of
/// tasks that produce one (the discovered address, the user listing),
/// and is `None` for tasks that only perform an effect.
#[derive(Debug)]
pub enum Event {
    Start,
    Received(Option<String>),
}

} // verus!
