use vstd::prelude::*;

verus! {

/// Polling interval, in milliseconds, of a caller waiting for a client.
pub const CLIENT_POLL_INTERVAL_MS: u64 = 100;

/// Interval, in milliseconds, between two liveness checks of the monitor.
pub const MONITOR_TICK_INTERVAL_MS: u64 = 250;

/// How long, in milliseconds, shutdown waits for the monitor to exit on its
/// own before cancelling it forcefully.
pub const SHUTDOWN_GRACE_MS: u64 = 5000;

/// Mathematical model of the connection state: the stored address, the
/// identifier of the live client (if any), and whether the monitor runs.
pub struct ConnectionStateView {
    pub address: Option<Seq<char>>,
    pub client: Option<u64>,
    pub monitor_running: bool,
}

/// The connection-lifecycle state.
///
/// `address` is the last address a caller asked to connect to, published only
/// on a successful connect. `client` identifies the live client handle held by
/// the runtime, or is `None` when never connected, lost, or shut down.
/// `monitor_running` records whether the background monitor task is up.
///
/// The runtime around this type performs the actual connecting, probing and
/// closing; every decision of the lifecycle is a method here.
pub struct ConnectionState {
    pub address: Option<String>,
    pub client: Option<u64>,
    pub monitor_running: bool,
}

impl View for ConnectionState {
    type V = ConnectionStateView;

    open spec fn view(&self) -> ConnectionStateView {
        ConnectionStateView {
            address: self.address.deep_view(),
            client: self.client,
            monitor_running: self.monitor_running,
        }
    }
}

/// What a `set_address` request should do next.
#[derive(Clone, Copy, Debug, PartialEq, Eq, Structural)]
pub enum SetAddressPlan {
    /// The address is unchanged and a client is live: skip reconnecting.
    SkipUnchanged,
    /// Attempt to establish a client for the requested address.
    EstablishClient,
}

/// Outcome of one connect attempt, as reported by the runtime. A successful
/// attempt yields the identifier of the freshly established client handle.
#[derive(Clone, Copy, Debug, PartialEq, Eq, Structural)]
pub enum ConnectOutcome {
    Connected(u64),
    ConnectFailed,
}

/// What woke the monitor in one loop iteration: the shutdown signal, or a
/// tick of its interval. On a tick, `probe_ok` reports whether the liveness
/// probe of the stored client succeeded; its value is irrelevant when no
/// client is stored.
#[derive(Clone, Copy, Debug, PartialEq, Eq, Structural)]
pub enum MonitorEvent {
    ShutdownSignal,
    Tick { probe_ok: bool },
}

/// What the monitor should do after handling one event.
#[derive(Clone, Copy, Debug, PartialEq, Eq, Structural)]
pub enum MonitorDirective {
    /// Leave the monitor loop; terminal.
    Exit,
    /// Attempt to reconnect using the stored address.
    Reconnect,
    /// Nothing to do until the next event.
    Idle,
}

/// How the bounded wait for the monitor ended during shutdown: the monitor
/// observed the signal and exited, or the grace timeout elapsed and the
/// monitor was cancelled forcefully.
#[derive(Clone, Copy, Debug, PartialEq, Eq, Structural)]
pub enum MonitorWaitOutcome {
    Exited,
    GraceElapsed,
}

/// The state constructed at process start: nothing set, nothing running.
pub open spec fn initial_state() -> ConnectionStateView {
    ConnectionStateView { address: None, client: None, monitor_running: false }
}

/// A stored client was produced by a successful connect, so an address is
/// stored alongside it.
pub open spec fn state_wf(s: ConnectionStateView) -> bool {
    s.client is Some ==> s.address is Some
}

/// Decision of `set_address`: skip exactly when a client already exists for
/// the same address; otherwise attempt to connect.
pub open spec fn set_address_plan_spec(s: ConnectionStateView, address: Seq<char>) -> SetAddressPlan {
    if s.address == Some(address) && s.client is Some {
        SetAddressPlan::SkipUnchanged
    } else {
        SetAddressPlan::EstablishClient
    }
}

/// Effect of `set_address` once the connect attempt resolved: on success both
/// the address and the new client are published; on failure nothing changes.
pub open spec fn apply_connect_spec(
    s: ConnectionStateView,
    address: Seq<char>,
    outcome: ConnectOutcome,
) -> ConnectionStateView {
    match outcome {
        ConnectOutcome::Connected(id) => ConnectionStateView {
            address: Some(address),
            client: Some(id),
            ..s
        },
        ConnectOutcome::ConnectFailed => s,
    }
}

/// The stored client counts as lost when none is stored or its probe failed.
pub open spec fn client_lost(s: ConnectionStateView, probe_ok: bool) -> bool {
    s.client is None || !probe_ok
}

/// State effect of one monitor iteration: a lost client is cleared; the
/// shutdown signal and a healthy tick leave the state unchanged.
pub open spec fn monitor_step_state_spec(
    s: ConnectionStateView,
    event: MonitorEvent,
) -> ConnectionStateView {
    match event {
        MonitorEvent::ShutdownSignal => s,
        MonitorEvent::Tick { probe_ok } => if client_lost(s, probe_ok) {
            ConnectionStateView { client: None, ..s }
        } else {
            s
        },
    }
}

/// Decision of one monitor iteration: the shutdown signal always exits; a
/// tick reconnects exactly when the client is lost and an address is stored.
pub open spec fn monitor_step_directive_spec(
    s: ConnectionStateView,
    event: MonitorEvent,
) -> MonitorDirective {
    match event {
        MonitorEvent::ShutdownSignal => MonitorDirective::Exit,
        MonitorEvent::Tick { probe_ok } => if client_lost(s, probe_ok) && s.address is Some {
            MonitorDirective::Reconnect
        } else {
            MonitorDirective::Idle
        },
    }
}

/// State after a whole run of monitor iterations, one event each, with every
/// reconnect attempt failing (a failed repair changes nothing, so such a run
/// is exactly the iterated step).
pub open spec fn monitor_run(
    s: ConnectionStateView,
    events: Seq<MonitorEvent>,
) -> ConnectionStateView
    decreases events.len(),
{
    if events.len() == 0 {
        s
    } else {
        monitor_run(monitor_step_state_spec(s, events[0]), events.subrange(1, events.len() as int))
    }
}

/// Effect of a reconnect attempt: on success the new client replaces the lost
/// one; on failure nothing changes and the next tick retries.
pub open spec fn apply_repair_spec(
    s: ConnectionStateView,
    outcome: ConnectOutcome,
) -> ConnectionStateView {
    match outcome {
        ConnectOutcome::Connected(id) => ConnectionStateView { client: Some(id), ..s },
        ConnectOutcome::ConnectFailed => s,
    }
}

/// After the bounded wait of shutdown, the monitor is down whichever way the
/// wait ended: it exited on its own, or it was cancelled forcefully.
pub open spec fn resolve_monitor_spec(
    s: ConnectionStateView,
    outcome: MonitorWaitOutcome,
) -> ConnectionStateView {
    ConnectionStateView { monitor_running: false, ..s }
}

/// Final step of shutdown: the stored client, if any, is handed out to be
/// closed and the state no longer holds one.
pub open spec fn clear_client_spec(s: ConnectionStateView) -> ConnectionStateView {
    ConnectionStateView { client: None, ..s }
}

/// The whole shutdown protocol as a state transformation: resolve the
/// monitor (graceful or forced), then close and clear the client.
pub open spec fn shutdown_spec(
    s: ConnectionStateView,
    outcome: MonitorWaitOutcome,
) -> ConnectionStateView {
    clear_client_spec(resolve_monitor_spec(s, outcome))
}

impl ConnectionState {
    /// The single instance is constructed once, with every field absent.
    pub fn new() -> (s: ConnectionState)
        ensures
            s@ == initial_state(),
    {
        ConnectionState { address: None, client: None, monitor_running: false }
    }

    /// Records that the background monitor task was spawned. Called once,
    /// right after construction.
    pub fn note_monitor_started(&mut self)
        requires
            !old(self)@.monitor_running,
        ensures
            final(self)@ == (ConnectionStateView { monitor_running: true, ..old(self)@ }),
    {
        self.monitor_running = true;
    }

    /// Decision of `set_address`: whether to skip or to attempt a connect.
    pub fn set_address_plan(&self, address: &String) -> (plan: SetAddressPlan)
        ensures
            plan == set_address_plan_spec(self@, address@),
    {
        match &self.address {
            Some(current) => if self.client.is_some() && current.eq(address) {
                SetAddressPlan::SkipUnchanged
            } else {
                SetAddressPlan::EstablishClient
            },
            None => SetAddressPlan::EstablishClient,
        }
    }

    /// Publishes the outcome of the connect attempt that `set_address` made:
    /// on success the new address and client are stored; a failure leaves the
    /// state exactly as it was (the caller is never told).
    pub fn apply_connect(&mut self, address: String, outcome: ConnectOutcome)
        ensures
            final(self)@ == apply_connect_spec(old(self)@, address@, outcome),
    {
        match outcome {
            ConnectOutcome::Connected(id) => {
                self.address = Some(address);
                self.client = Some(id);
            },
            ConnectOutcome::ConnectFailed => {},
        }
    }

    /// The stored client, if any: what one poll of a waiting `client()` call
    /// observes. The caller keeps polling exactly as long as this is `None`.
    pub fn current_client(&self) -> (client: Option<u64>)
        ensures
            client == self@.client,
    {
        self.client
    }

    /// Handles one monitor wake-up: exits on the shutdown signal; on a tick,
    /// clears a lost client and asks for a reconnect when an address is
    /// stored. No event other than the shutdown signal can make it exit.
    pub fn monitor_step(&mut self, event: MonitorEvent) -> (directive: MonitorDirective)
        ensures
            final(self)@ == monitor_step_state_spec(old(self)@, event),
            directive == monitor_step_directive_spec(old(self)@, event),
    {
        match event {
            MonitorEvent::ShutdownSignal => MonitorDirective::Exit,
            MonitorEvent::Tick { probe_ok } => {
                let lost = self.client.is_none() || !probe_ok;
                if lost {
                    self.client = None;
                    if self.address.is_some() {
                        MonitorDirective::Reconnect
                    } else {
                        MonitorDirective::Idle
                    }
                } else {
                    MonitorDirective::Idle
                }
            },
        }
    }

    /// Publishes the outcome of the reconnect attempt the monitor made after
    /// a `Reconnect` directive (so an address is stored). A failure changes
    /// nothing; the next tick will try again.
    pub fn apply_repair(&mut self, outcome: ConnectOutcome)
        requires
            old(self)@.address is Some,
        ensures
            final(self)@ == apply_repair_spec(old(self)@, outcome),
    {
        match outcome {
            ConnectOutcome::Connected(id) => {
                self.client = Some(id);
            },
            ConnectOutcome::ConnectFailed => {},
        }
    }

    /// Records the end of the bounded wait for the monitor during shutdown.
    /// Both outcomes leave the monitor down: it exited on its own, or it was
    /// cancelled forcefully once the grace timeout elapsed.
    pub fn resolve_monitor(&mut self, outcome: MonitorWaitOutcome)
        ensures
            final(self)@ == resolve_monitor_spec(old(self)@, outcome),
    {
        match outcome {
            MonitorWaitOutcome::Exited => {
                self.monitor_running = false;
            },
            MonitorWaitOutcome::GraceElapsed => {
                self.monitor_running = false;
            },
        }
    }

    /// Hands out the stored client so the runtime can close it, and clears
    /// it: the last step of shutdown. Returns `None` when there is nothing
    /// to close, which is not an error.
    pub fn take_client_for_close(&mut self) -> (closing: Option<u64>)
        ensures
            closing == old(self)@.client,
            final(self)@ == clear_client_spec(old(self)@),
    {
        let closing = self.client;
        self.client = None;
        closing
    }
}

} // verus!
