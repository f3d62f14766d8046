//! The dispatcher: admission control for new connections, session ids, and
//! application of monitor events to the live configuration.  The listening
//! socket and the worker pool live outside; every decision about them is
//! made here.

use vstd::prelude::*;
use crate::conf::{Config, SipAccount, remove_named};
use crate::init::Context;
use crate::monitor::{MonitorAction, MonitorEvent};

verus! {

/// The account table and shutdown flag after one monitor action.
pub open spec fn step_action(
    accounts: Seq<SipAccount>,
    shutdown: bool,
    action: MonitorAction,
) -> (Seq<SipAccount>, bool) {
    match action {
        MonitorAction::AddAccount(a) => (remove_named(accounts, a.sip_username@).push(a), shutdown),
        MonitorAction::DisableAccount(u) => (remove_named(accounts, u@), shutdown),
        MonitorAction::Shutdown => (accounts, true),
    }
}

/// The account table and shutdown flag after a sequence of monitor events,
/// applied in order.
pub open spec fn apply_events(
    accounts: Seq<SipAccount>,
    shutdown: bool,
    events: Seq<MonitorEvent>,
) -> (Seq<SipAccount>, bool)
    decreases events.len(),
{
    if events.len() == 0 {
        (accounts, shutdown)
    } else {
        let prev = apply_events(accounts, shutdown, events.drop_last());
        step_action(prev.0, prev.1, events.last().action)
    }
}

/// Law: the shutdown signal latches.  Draining monitor events never clears
/// a shutdown already observed, and a shutdown event anywhere in the
/// drained batch leaves the signal set — after which the dispatcher admits
/// no further connections and every session exits on its next receive
/// timeout.
pub proof fn lemma_shutdown_latches(
    accounts: Seq<SipAccount>,
    shutdown: bool,
    events: Seq<MonitorEvent>,
)
    ensures
        shutdown ==> apply_events(accounts, shutdown, events).1,
        (exists|i: int| 0 <= i < events.len() && (#[trigger] events[i]).action is Shutdown)
            ==> apply_events(accounts, shutdown, events).1,
    decreases events.len(),
{
    if events.len() > 0 {
        lemma_shutdown_latches(accounts, shutdown, events.drop_last());
        if exists|i: int| 0 <= i < events.len() && (#[trigger] events[i]).action is Shutdown {
            let i = choose|i: int|
                0 <= i < events.len() && (#[trigger] events[i]).action is Shutdown;
            if i < events.len() - 1 {
                assert(events.drop_last()[i] == events[i]);
            }
        }
    }
}

/// The dispatcher.
pub struct Server {
    pub ctx: Context,
    pub sip_config: Config,
    pub sesid: usize,
    /// Once this is true, the gateway is shutting down.
    pub shutdown: bool,
}

impl Server {
    pub fn new(sip_config: Config, ctx: Context) -> (r: Server)
        ensures
            r.sip_config == sip_config,
            r.ctx == ctx,
            r.sesid == 0,
            r.shutdown == false,
    {
        Server { ctx, sip_config, sesid: 0, shutdown: false }
    }

    pub fn sip_config(&self) -> (r: &Config)
        ensures
            r == self.sip_config,
    {
        &self.sip_config
    }

    pub fn is_shutdown(&self) -> (r: bool)
        ensures
            r == self.shutdown,
    {
        self.shutdown
    }

    /// The id for the next session.
    pub fn next_sesid(&mut self) -> (r: usize)
        requires
            old(self).sesid < usize::MAX,
        ensures
            final(self).sesid == old(self).sesid + 1,
            r == final(self).sesid,
            final(self).ctx == old(self).ctx,
            final(self).sip_config == old(self).sip_config,
            final(self).shutdown == old(self).shutdown,
    {
        self.sesid += 1;
        self.sesid
    }

    /// Admission control: a new connection may start a worker only while the
    /// workers already active or queued, plus one slot reserved for the
    /// monitor, stay below the configured client limit.  At the limit the
    /// connection is to be closed at once, without a worker.
    pub fn should_admit(&self, active_count: usize, queued_count: usize) -> (r: bool)
        requires
            active_count + queued_count + 1 <= usize::MAX,
        ensures
            r == (active_count + queued_count + 1 < self.sip_config.max_clients),
    {
        let threads = active_count + queued_count + 1;
        threads < self.sip_config.max_clients
    }

    /// Apply one monitor event: account changes produce the next account
    /// table; a shutdown request sets the shutdown flag.
    pub fn apply_monitor_event(&mut self, event: MonitorEvent)
        ensures
            final(self).sip_config.accounts@ == step_action(
                old(self).sip_config.accounts@,
                old(self).shutdown,
                event.action,
            ).0,
            final(self).shutdown == step_action(
                old(self).sip_config.accounts@,
                old(self).shutdown,
                event.action,
            ).1,
            final(self).ctx == old(self).ctx,
            final(self).sesid == old(self).sesid,
            final(self).sip_config.max_clients == old(self).sip_config.max_clients,
            final(self).sip_config.sip_address == old(self).sip_config.sip_address,
            final(self).sip_config.sip_port == old(self).sip_config.sip_port,
            final(self).sip_config.sc_status_before_login == old(
                self,
            ).sip_config.sc_status_before_login,
            final(self).sip_config.ascii == old(self).sip_config.ascii,
    {
        match event.action {
            MonitorAction::AddAccount(a) => self.sip_config.add_account(a),
            MonitorAction::DisableAccount(u) => {
                let name = u;
                self.sip_config.remove_account(name.as_str());
            },
            MonitorAction::Shutdown => {
                self.shutdown = true;
            },
        }
    }

    /// Apply the monitor events drained since the last accept, in order.  A
    /// permanently disconnected monitor channel is fatal: the shutdown flag
    /// is set regardless of the events.
    pub fn process_monitor_events(&mut self, events: Vec<MonitorEvent>, monitor_disconnected: bool)
        ensures
            final(self).sip_config.accounts@ == apply_events(
                old(self).sip_config.accounts@,
                old(self).shutdown,
                events@,
            ).0,
            final(self).shutdown == (apply_events(
                old(self).sip_config.accounts@,
                old(self).shutdown,
                events@,
            ).1 || monitor_disconnected),
            final(self).ctx == old(self).ctx,
            final(self).sesid == old(self).sesid,
            final(self).sip_config.max_clients == old(self).sip_config.max_clients,
            final(self).sip_config.sip_address == old(self).sip_config.sip_address,
            final(self).sip_config.sip_port == old(self).sip_config.sip_port,
            final(self).sip_config.sc_status_before_login == old(
                self,
            ).sip_config.sc_status_before_login,
            final(self).sip_config.ascii == old(self).sip_config.ascii,
    {
        let ghost all = events@;
        let ghost acc0 = self.sip_config.accounts@;
        let ghost sd0 = self.shutdown;
        let ghost ctx0 = self.ctx;
        let ghost cfg0 = self.sip_config;
        let ghost sesid0 = self.sesid;
        let mut evts = events;
        let total: usize = evts.len();
        let mut i: usize = 0;
        while evts.len() > 0
            invariant
                total == all.len(),
                i + evts@.len() == all.len(),
                evts@ == all.subrange(i as int, all.len() as int),
                self.sip_config.accounts@ == apply_events(acc0, sd0, all.subrange(0, i as int)).0,
                self.shutdown == apply_events(acc0, sd0, all.subrange(0, i as int)).1,
                self.ctx == ctx0,
                self.sesid == sesid0,
                self.sip_config.max_clients == cfg0.max_clients,
                self.sip_config.sip_address == cfg0.sip_address,
                self.sip_config.sip_port == cfg0.sip_port,
                self.sip_config.sc_status_before_login == cfg0.sc_status_before_login,
                self.sip_config.ascii == cfg0.ascii,
            decreases evts@.len(),
        {
            let e = evts.remove(0);
            proof {
                assert(e == all[i as int]);
                assert(evts@ =~= all.subrange(i + 1, all.len() as int));
                let cur = all.subrange(0, i + 1);
                assert(cur.drop_last() =~= all.subrange(0, i as int));
                assert(cur.last() == all[i as int]);
            }
            self.apply_monitor_event(e);
            i += 1;
        }
        proof {
            assert(all.subrange(0, i as int) =~= all);
        }
        if monitor_disconnected {
            self.shutdown = true;
        }
    }
}

} // verus!
