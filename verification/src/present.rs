//! Render-facing decisions: what each step shows for a given state.
//!
//! The engine draws nothing itself. These functions reduce the wizard
//! state to the plain values a front end renders — titles, notices,
//! progress markers, which controls to show — so that any host (text,
//! graphical, remote) presents the same wizard.

use vstd::prelude::*;
use crate::account::UserOperation;
use crate::addr::{media_addr_of, media_addr_seq, sync_addr_of, sync_addr_seq};
use crate::wizard::{WizardState, can_advance_spec};

verus! {

/// The title of a step.
pub open spec fn title_seq(step: u8) -> Seq<char> {
    if step == 0 {
        "Welcome"@
    } else if step == 1 {
        "Address and certificates"@
    } else if step == 2 {
        "Desktop shortcut"@
    } else if step == 3 {
        "Account management"@
    } else {
        Seq::<char>::empty()
    }
}

/// The title of a step.
pub fn title_of(step: u8) -> (title: String)
    ensures
        title@ == title_seq(step),
{
    if step == 0 {
        String::from_str("Welcome")
    } else if step == 1 {
        String::from_str("Address and certificates")
    } else if step == 2 {
        String::from_str("Desktop shortcut")
    } else if step == 3 {
        String::from_str("Account management")
    } else {
        String::new()
    }
}

/// The status text of the prerequisite check, empty once it passed.
pub open spec fn prerequisite_notice_seq(prerequisite_ok: bool) -> Seq<char> {
    if prerequisite_ok {
        Seq::<char>::empty()
    } else {
        "prerequisite not met"@
    }
}

/// The status text of the prerequisite check, empty once it passed.
pub fn prerequisite_notice(prerequisite_ok: bool) -> (notice: String)
    ensures
        notice@ == prerequisite_notice_seq(prerequisite_ok),
{
    if prerequisite_ok {
        String::new()
    } else {
        String::from_str("prerequisite not met")
    }
}

/// The marker a progress row shows: done or still pending.
pub open spec fn progress_marker_seq(done: bool) -> Seq<char> {
    if done {
        "OK"@
    } else {
        "..."@
    }
}

/// The marker a progress row shows: done or still pending.
pub fn progress_marker(done: bool) -> (marker: String)
    ensures
        marker@ == progress_marker_seq(done),
{
    if done {
        String::from_str("OK")
    } else {
        String::from_str("...")
    }
}

/// Which account controls the picked operation needs: `Delete` takes a
/// username, `Add` and `ChangePassword` take both fields, `List` and no
/// selection take none and cannot be submitted.
#[derive(Clone, Copy, Debug, PartialEq, Eq, Structural)]
pub struct AccountPanel {
    pub show_username_input: bool,
    pub show_password_input: bool,
    pub show_submit: bool,
}

/// See `AccountPanel`.
pub open spec fn account_panel_spec(selection: Option<UserOperation>) -> AccountPanel {
    match selection {
        None => AccountPanel {
            show_username_input: false,
            show_password_input: false,
            show_submit: false,
        },
        Some(UserOperation::List) => AccountPanel {
            show_username_input: false,
            show_password_input: false,
            show_submit: false,
        },
        Some(UserOperation::Delete) => AccountPanel {
            show_username_input: true,
            show_password_input: false,
            show_submit: true,
        },
        Some(UserOperation::Add) | Some(UserOperation::ChangePassword) => AccountPanel {
            show_username_input: true,
            show_password_input: true,
            show_submit: true,
        },
    }
}

/// See `AccountPanel`.
pub fn account_panel(selection: Option<UserOperation>) -> (panel: AccountPanel)
    ensures
        panel == account_panel_spec(selection),
{
    match selection {
        None | Some(UserOperation::List) => AccountPanel {
            show_username_input: false,
            show_password_input: false,
            show_submit: false,
        },
        Some(UserOperation::Delete) => AccountPanel {
            show_username_input: true,
            show_password_input: false,
            show_submit: true,
        },
        Some(UserOperation::Add) | Some(UserOperation::ChangePassword) => AccountPanel {
            show_username_input: true,
            show_password_input: true,
            show_submit: true,
        },
    }
}

/// Whether the welcome step offers the account controls: only once the
/// prerequisite passed and at least one account already exists.
pub open spec fn welcome_offers_accounts_spec(s: WizardState) -> bool {
    s.prerequisite_ok && s.existing_account_count >= 1
}

/// See `welcome_offers_accounts_spec`.
pub fn welcome_offers_accounts(s: &WizardState) -> (offered: bool)
    ensures
        offered == welcome_offers_accounts_spec(*s),
{
    s.prerequisite_ok && s.existing_account_count >= 1
}

/// Everything a front end needs to draw the current step.
pub struct Snapshot {
    /// The title of the shown step.
    pub title: String,
    /// The prerequisite notice, empty once the check passed.
    pub prerequisite_notice: String,
    /// Whether the back button is shown.
    pub show_back: bool,
    /// Whether the next button is shown.
    pub show_next: bool,
    /// Progress marker: the address was pushed to the client.
    pub address_pushed_marker: String,
    /// Progress marker: the trust root is in the system store.
    pub trust_store_marker: String,
    /// Progress marker: the server certificates are installed.
    pub server_certs_marker: String,
    /// Progress marker: the desktop shortcut was created.
    pub shortcut_marker: String,
    /// Progress marker: search indexing is enabled.
    pub search_index_marker: String,
    /// The sync address to show, over the discovered LAN address.
    pub sync_address: String,
    /// The media sync address to show, over the discovered LAN address.
    pub media_address: String,
    /// Whether the welcome step offers the account controls.
    pub welcome_offers_accounts: bool,
    /// Which account controls the picked operation needs.
    pub account_panel: AccountPanel,
}

/// The LAN address a snapshot renders: the discovered one, or nothing
/// while discovery has not succeeded yet.
pub open spec fn shown_address_seq(s: WizardState) -> Seq<char> {
    match s.lan_address {
        Some(a) => a@,
        None => Seq::<char>::empty(),
    }
}

/// Reduces the state to the plain values a front end renders.
pub fn snapshot(s: &WizardState) -> (snap: Snapshot)
    ensures
        snap.title@ == title_seq(s.step),
        snap.prerequisite_notice@ == prerequisite_notice_seq(s.prerequisite_ok),
        snap.show_back == (s.step > 0),
        snap.show_next == can_advance_spec(*s),
        snap.address_pushed_marker@ == progress_marker_seq(s.address_pushed),
        snap.trust_store_marker@ == progress_marker_seq(s.ca_in_trust_store),
        snap.server_certs_marker@ == progress_marker_seq(s.server_certs_installed),
        snap.shortcut_marker@ == progress_marker_seq(s.shortcut_created),
        snap.search_index_marker@ == progress_marker_seq(s.search_index_enabled),
        snap.sync_address@ == sync_addr_seq(shown_address_seq(*s)),
        snap.media_address@ == media_addr_seq(shown_address_seq(*s)),
        snap.welcome_offers_accounts == welcome_offers_accounts_spec(*s),
        snap.account_panel == account_panel_spec(s.selected_operation),
    {
        let shown = match &s.lan_address {
            Some(a) => a.as_str(),
            None => "",
        };
        proof {
            reveal_strlit("");
            assert(shown@ == shown_address_seq(*s));
        }
        Snapshot {
            title: title_of(s.step),
            prerequisite_notice: prerequisite_notice(s.prerequisite_ok),
            show_back: s.has_previous(),
            show_next: s.can_continue(),
            address_pushed_marker: progress_marker(s.address_pushed),
            trust_store_marker: progress_marker(s.ca_in_trust_store),
            server_certs_marker: progress_marker(s.server_certs_installed),
            shortcut_marker: progress_marker(s.shortcut_created),
            search_index_marker: progress_marker(s.search_index_enabled),
            sync_address: sync_addr_of(shown),
            media_address: media_addr_of(shown),
            welcome_offers_accounts: welcome_offers_accounts(s),
            account_panel: account_panel(s.selected_operation),
        }
    }

} // verus!
