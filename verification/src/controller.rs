//! The controller around the wizard state: it starts in `Loading` while
//! the prerequisite check and the baseline read are in flight, becomes
//! `Ready` with a fresh `WizardState` when they land, and `Failed` with
//! a persistent blocking message when they cannot — a failed load never
//! crashes the host, it only blocks the wizard.

use vstd::prelude::*;
use crate::errors::LoadError;
use crate::task::OneShotTask;
use crate::wizard::{LoadingConf, Message, WizardState, apply_spec};

verus! {

/// The lifecycle of the wizard around its single state value.
pub enum WizardController {
    /// The startup baseline load is still in flight.
    Loading,
    /// The wizard runs; all state lives in the carried value.
    Ready(WizardState),
    /// The baseline load failed; the wizard is blocked for good.
    Failed(LoadError),
}

/// The state a successful load starts the wizard in: the welcome step
/// with the loaded baseline, nothing armed, nothing typed, nothing done.
pub open spec fn is_initial(conf: LoadingConf, s: WizardState) -> bool {
    &&& s.step == 0
    &&& s.prerequisite_ok == conf.prerequisite_ok
    &&& s.existing_account_count == conf.existing_account_count
    &&& s.lan_address is None
    &&& !s.address_pushed && !s.ca_in_trust_store && !s.server_certs_installed
    &&& !s.user_consented_to_push
    &&& !s.shortcut_created && !s.search_index_enabled
    &&& s.selected_operation is None
    &&& s.username@ == Seq::<char>::empty()
    &&& s.password@ == Seq::<char>::empty()
    &&& s.status_message@ == Seq::<char>::empty()
    &&& !s.awaiting_lookup && !s.awaiting_address_push && !s.awaiting_trust_import
        && !s.awaiting_cert_install
    &&& !s.awaiting_shortcut && !s.awaiting_search_index
}

/// The transition relation of `WizardController::apply`: in `Loading`
/// only the load result moves the controller, in `Ready` every event is
/// handed to the wizard state, and `Failed` is final.
pub open spec fn controller_apply_spec(
    pre: WizardController,
    msg: Message,
    post: WizardController,
    tasks: Seq<OneShotTask>,
) -> bool {
    match pre {
        WizardController::Loading => match msg {
            Message::Loaded(Ok(conf)) => {
                &&& post matches WizardController::Ready(s) && is_initial(conf, s)
                &&& tasks.len() == 0
            },
            Message::Loaded(Err(e)) => {
                &&& post == WizardController::Failed(e)
                &&& tasks.len() == 0
            },
            _ => post == pre && tasks.len() == 0,
        },
        WizardController::Ready(s) => {
            &&& post matches WizardController::Ready(s2) && apply_spec(s, msg, s2, tasks)
        },
        WizardController::Failed(_) => post == pre && tasks.len() == 0,
    }
}

impl WizardController {
    /// Well-formedness: a running wizard carries a well-formed state.
    pub open spec fn wf(self) -> bool {
        self matches WizardController::Ready(s) ==> s.wf()
    }

    /// The controller as the host starts it, before anything was loaded.
    pub fn new() -> (c: WizardController)
        ensures
            c == WizardController::Loading,
            c.wf(),
    {
        WizardController::Loading
    }

    /// Takes one event and returns the tasks that became eligible to
    /// run through it, as `controller_apply_spec` describes.
    pub fn apply(&mut self, msg: Message) -> (tasks: Vec<OneShotTask>)
        requires
            old(self).wf(),
        ensures
            final(self).wf(),
            controller_apply_spec(*old(self), msg, *final(self), tasks@),
    {
        match self {
            WizardController::Loading => {
                match msg {
                    Message::Loaded(Ok(conf)) => {
                        *self = WizardController::Ready(WizardState::new(&conf));
                    },
                    Message::Loaded(Err(e)) => {
                        *self = WizardController::Failed(e);
                    },
                    _ => {},
                }
                Vec::new()
            },
            WizardController::Ready(state) => state.apply(msg),
            WizardController::Failed(_) => Vec::new(),
        }
    }

    /// The persistent blocking text of a failed load, empty otherwise.
    pub fn blocking_message(&self) -> (text: String)
        ensures
            self matches WizardController::Failed(e) ==> text@ == e.message_spec(),
            !(self matches WizardController::Failed(_)) ==> text@ == Seq::<char>::empty(),
    {
        match self {
            WizardController::Failed(e) => e.message(),
            _ => String::new(),
        }
    }
}

} // verus!
