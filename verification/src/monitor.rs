//! Events the account monitor announces to the dispatcher.  The monitor is a
//! one-way event source: it never reads the live account table.

use vstd::prelude::*;
use crate::conf::SipAccount;

verus! {

/// What the monitor observed.
pub enum MonitorAction {
    /// A new or changed account to install in the live table.
    AddAccount(SipAccount),
    /// An account, by username, to take out of the live table.
    DisableAccount(String),
    /// An administrative request to stop the gateway.
    Shutdown,
}

/// One notification from the monitor to the dispatcher.
pub struct MonitorEvent {
    pub action: MonitorAction,
}

impl MonitorEvent {
    pub fn new(action: MonitorAction) -> (r: MonitorEvent)
        ensures
            r.action == action,
    {
        MonitorEvent { action }
    }

    pub fn action(&self) -> (r: &MonitorAction)
        ensures
            r == self.action,
    {
        &self.action
    }
}

} // verus!
