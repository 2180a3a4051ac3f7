use vstd::prelude::*;

use crate::connection::apply_connect_spec;
use crate::connection::apply_repair_spec;
use crate::connection::clear_client_spec;
use crate::connection::initial_state;
use crate::connection::monitor_run;
use crate::connection::monitor_step_directive_spec;
use crate::connection::monitor_step_state_spec;
use crate::connection::resolve_monitor_spec;
use crate::connection::set_address_plan_spec;
use crate::connection::shutdown_spec;
use crate::connection::state_wf;
use crate::connection::ConnectOutcome;
use crate::connection::ConnectionStateView;
use crate::connection::MonitorDirective;
use crate::connection::MonitorEvent;
use crate::connection::MonitorWaitOutcome;
use crate::connection::SetAddressPlan;

verus! {

/// Setting the same address twice is a no-op the second time: once a connect
/// for `address` succeeded, a repeated `set_address(address)` plans no second
/// connect attempt, whatever state the first call started from.
pub proof fn lemma_set_address_idempotent(s: ConnectionStateView, address: Seq<char>, id: u64)
    ensures
        set_address_plan_spec(
            apply_connect_spec(s, address, ConnectOutcome::Connected(id)),
            address,
        ) == SetAddressPlan::SkipUnchanged,
{
}

/// Repair convergence: when a live client dies, the tick that observes the
/// failed probe clears it and, since an address is stored, directs a
/// reconnect; a successful reconnect stores the new client, and the next
/// healthy tick changes nothing and stays idle.
pub proof fn lemma_repair_convergence(s: ConnectionStateView, id: u64)
    requires
        s.client is Some,
        s.address is Some,
    ensures
        ({
            let lost = monitor_step_state_spec(s, MonitorEvent::Tick { probe_ok: false });
            &&& lost.client is None
            &&& monitor_step_directive_spec(s, MonitorEvent::Tick { probe_ok: false })
                == MonitorDirective::Reconnect
            &&& ({
                let repaired = apply_repair_spec(lost, ConnectOutcome::Connected(id));
                &&& repaired.client == Some(id)
                &&& repaired.address == s.address
                &&& monitor_step_state_spec(repaired, MonitorEvent::Tick { probe_ok: true })
                    == repaired
                &&& monitor_step_directive_spec(repaired, MonitorEvent::Tick { probe_ok: true })
                    == MonitorDirective::Idle
            })
        }),
{
}

/// Blocking until ready: a waiting `client()` observes a client exactly when
/// one is stored; a failed connect stores none (the wait goes on), and a
/// successful connect stores one (the wait ends on the next poll).
pub proof fn lemma_blocking_until_ready(s: ConnectionStateView, address: Seq<char>, id: u64)
    ensures
        apply_connect_spec(s, address, ConnectOutcome::ConnectFailed).client == s.client,
        apply_connect_spec(s, address, ConnectOutcome::Connected(id)).client == Some(id),
{
}

/// Shutdown boundedness, as far as the state machine carries it: the
/// protocol is two unconditional steps — resolve the monitor, then clear the
/// client — and reaches the terminal state from every starting state and for
/// either wait outcome; no step is guarded on the monitor cooperating.
pub proof fn lemma_shutdown_bounded(s: ConnectionStateView, outcome: MonitorWaitOutcome)
    ensures
        !shutdown_spec(s, outcome).monitor_running,
        shutdown_spec(s, outcome).client is None,
        shutdown_spec(s, outcome).address == s.address,
        shutdown_spec(s, outcome) == clear_client_spec(resolve_monitor_spec(s, outcome)),
{
}

/// No-address safe state: shutting down the freshly constructed state hands
/// out no client to close and ends in the terminal state with every field
/// absent.
pub proof fn lemma_shutdown_from_initial(outcome: MonitorWaitOutcome)
    ensures
        initial_state().client is None,
        shutdown_spec(initial_state(), outcome) == (ConnectionStateView {
            address: None,
            client: None,
            monitor_running: false,
        }),
{
}

/// Failure isolation: only the shutdown signal makes the monitor exit — no
/// probe failure and no reconnect failure does — and after a failed reconnect
/// the address is still stored, so the next tick that finds the client lost
/// directs a reconnect again.
pub proof fn lemma_failure_isolation(s: ConnectionStateView, event: MonitorEvent)
    ensures
        monitor_step_directive_spec(s, event) == MonitorDirective::Exit
            <==> event == MonitorEvent::ShutdownSignal,
        ({
            let lost = monitor_step_state_spec(s, MonitorEvent::Tick { probe_ok: false });
            let still_lost = apply_repair_spec(lost, ConnectOutcome::ConnectFailed);
            s.address is Some ==> monitor_step_directive_spec(
                still_lost,
                MonitorEvent::Tick { probe_ok: false },
            ) == MonitorDirective::Reconnect
        }),
{
}

/// The monitor only reads the address: across any run of iterations, however
/// the probes come out, the stored address (and the monitor flag) is exactly
/// what the callers left there, so every reconnect uses the last address set.
pub proof fn lemma_monitor_never_writes_address(s: ConnectionStateView, events: Seq<MonitorEvent>)
    ensures
        monitor_run(s, events).address == s.address,
        monitor_run(s, events).monitor_running == s.monitor_running,
    decreases events.len(),
{
    if events.len() > 0 {
        lemma_monitor_never_writes_address(
            monitor_step_state_spec(s, events[0]),
            events.subrange(1, events.len() as int),
        );
    }
}

/// Over a whole run of the monitor, the exit decision at each iteration
/// depends on its event alone: whatever state the run has reached, the
/// directive is `Exit` exactly for the shutdown signal.
pub proof fn lemma_monitor_exits_only_on_shutdown(s: ConnectionStateView, events: Seq<MonitorEvent>)
    ensures
        forall|i: int|
            0 <= i < events.len() ==> (monitor_step_directive_spec(
                monitor_run(s, #[trigger] events.take(i)),
                events[i],
            ) == MonitorDirective::Exit <==> events[i] == MonitorEvent::ShutdownSignal),
{
}

/// Every transition preserves well-formedness: a stored client always has a
/// stored address beside it. Repair is only ever applied with an address
/// stored, as its precondition demands.
pub proof fn lemma_transitions_preserve_wf(
    s: ConnectionStateView,
    address: Seq<char>,
    connect: ConnectOutcome,
    event: MonitorEvent,
    wait: MonitorWaitOutcome,
)
    requires
        state_wf(s),
    ensures
        state_wf(initial_state()),
        state_wf(apply_connect_spec(s, address, connect)),
        state_wf(monitor_step_state_spec(s, event)),
        s.address is Some ==> state_wf(apply_repair_spec(s, connect)),
        state_wf(resolve_monitor_spec(s, wait)),
        state_wf(clear_client_spec(s)),
        state_wf(ConnectionStateView { monitor_running: true, ..s }),
{
}

} // verus!
