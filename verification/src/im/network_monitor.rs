//! The network monitor: it is told at every tick whether the network can
//! be reached, and says which adapters have to be asked to reconnect.

use vstd::prelude::*;

verus! {

/// Whether the network can be reached.
#[derive(Debug, Clone, Copy, PartialEq, Eq, Structural)]
pub enum NetworkStatus {
    Connected,
    Disconnected,
}

/// The time between two probes, in seconds.
pub const CHECK_INTERVAL_SECONDS: u64 = 30;

/// The time between two reconnect attempts, in seconds.
pub const RECONNECT_INTERVAL_SECONDS: u64 = 10;

/// Configuration of the monitor. The intervals count seconds.
#[derive(Debug, Clone, Copy, PartialEq, Eq, Structural)]
pub struct NetworkMonitorConfig {
    pub enabled: bool,
    pub check_interval: u64,
    pub reconnect_interval: u64,
}

impl Default for NetworkMonitorConfig {
    fn default() -> (c: NetworkMonitorConfig)
        ensures
            c == (NetworkMonitorConfig {
                enabled: true,
                check_interval: CHECK_INTERVAL_SECONDS,
                reconnect_interval: RECONNECT_INTERVAL_SECONDS,
            }),
    {
        NetworkMonitorConfig {
            enabled: true,
            check_interval: CHECK_INTERVAL_SECONDS,
            reconnect_interval: RECONNECT_INTERVAL_SECONDS,
        }
    }
}

/// What the monitor holds.
pub struct NetworkMonitorView {
    pub config: NetworkMonitorConfig,
    pub network_status: NetworkStatus,
    pub is_running: bool,
}

/// What a tick asks for.
#[derive(Debug)]
pub struct TickPlan {
    /// Whether the monitor has been switched off and its loop has to end.
    pub stop: bool,
    /// Whether the network has come back with this tick.
    pub recovered: bool,
    /// The adapters to ask for a reconnect, by their place in the list.
    pub reconnect: Vec<usize>,
}

/// The places of the adapters among the first `upto` that are not
/// connected, in order.
pub open spec fn disconnected_of(connected: Seq<bool>, upto: int) -> Seq<usize>
    decreases upto,
{
    if upto <= 0 {
        Seq::empty()
    } else if !connected[upto - 1] {
        disconnected_of(connected, upto - 1).push((upto - 1) as usize)
    } else {
        disconnected_of(connected, upto - 1)
    }
}

/// Whether the network has come back: it can be reached now and could not
/// be before.
pub open spec fn recovered_of(before: NetworkStatus, now: NetworkStatus) -> bool {
    before != now && now == NetworkStatus::Connected
}

/// The adapters that a tick asks to reconnect: while the network can be
/// reached, every adapter that is not connected; none otherwise.
pub open spec fn reconnects_of(current: NetworkStatus, connected: Seq<bool>) -> Seq<usize> {
    if current == NetworkStatus::Connected {
        disconnected_of(connected, connected.len() as int)
    } else {
        Seq::empty()
    }
}

/// Every place that a tick names is the place of an adapter that is not
/// connected, and every such adapter is named.
pub proof fn lemma_disconnected_of(connected: Seq<bool>, upto: int)
    requires
        0 <= upto <= connected.len(),
        upto <= usize::MAX,
    ensures
        forall|k: int|
            0 <= k < disconnected_of(connected, upto).len() ==> 0 <= (#[trigger] disconnected_of(
                connected,
                upto,
            )[k]) < upto && !connected[disconnected_of(connected, upto)[k] as int],
        forall|i: int| 0 <= i < upto && !connected[i] ==> disconnected_of(connected, upto).contains(i as usize),
    decreases upto,
{
    if upto > 0 {
        lemma_disconnected_of(connected, upto - 1);
        let shorter = disconnected_of(connected, upto - 1);
        let all = disconnected_of(connected, upto);
        assert forall|k: int| 0 <= k < all.len() implies 0 <= (#[trigger] all[k]) < upto && !connected[all[k] as int] by {
            if k < shorter.len() {
                assert(all[k] == shorter[k]);
            }
        }
        assert forall|i: int| 0 <= i < upto && !connected[i] implies all.contains(i as usize) by {
            if i < upto - 1 {
                assert(shorter.contains(i as usize));
                let k = choose|k: int| 0 <= k < shorter.len() && shorter[k] == i as usize;
                assert(all[k] == i as usize);
            } else {
                assert(all[all.len() - 1] == i as usize);
            }
        }
    }
}

/// The network monitor.
pub struct NetworkMonitor {
    config: NetworkMonitorConfig,
    network_status: NetworkStatus,
    is_running: bool,
}

impl View for NetworkMonitor {
    type V = NetworkMonitorView;

    closed spec fn view(&self) -> NetworkMonitorView {
        NetworkMonitorView {
            config: self.config,
            network_status: self.network_status,
            is_running: self.is_running,
        }
    }
}

impl NetworkMonitor {
    /// A monitor that does not run yet and takes the network for
    /// unreachable.
    pub fn new(config: NetworkMonitorConfig) -> (m: NetworkMonitor)
        ensures
            m@ == (NetworkMonitorView { config, network_status: NetworkStatus::Disconnected, is_running: false }),
    {
        NetworkMonitor { config, network_status: NetworkStatus::Disconnected, is_running: false }
    }

    /// A monitor with the default configuration.
    pub fn new_default() -> (m: NetworkMonitor)
        ensures
            m@.config.enabled,
            m@.config.check_interval == CHECK_INTERVAL_SECONDS,
            m@.network_status == NetworkStatus::Disconnected,
            !m@.is_running,
    {
        NetworkMonitor::new(NetworkMonitorConfig::default())
    }

    /// Replaces the configuration.
    pub fn set_config(&mut self, config: NetworkMonitorConfig)
        ensures
            final(self)@ == (NetworkMonitorView { config, ..old(self)@ }),
    {
        self.config = config;
    }

    /// The configuration.
    pub fn get_config(&self) -> (c: NetworkMonitorConfig)
        ensures
            c == self@.config,
    {
        self.config
    }

    /// What the last tick found of the network.
    pub fn get_network_status(&self) -> (s: NetworkStatus)
        ensures
            s == self@.network_status,
    {
        self.network_status
    }

    /// Whether the monitor's loop runs.
    pub fn is_running(&self) -> (b: bool)
        ensures
            b == self@.is_running,
    {
        self.is_running
    }

    /// Begins the loop. A monitor that runs already is left alone, and the
    /// caller must not start a second loop.
    pub fn start(&mut self) -> (begun: bool)
        ensures
            begun == !old(self)@.is_running,
            final(self)@ == (NetworkMonitorView { is_running: true, ..old(self)@ }),
    {
        let begun = !self.is_running;
        self.is_running = true;
        begun
    }

    /// Switches the monitor off: its loop ends at the next tick.
    pub fn stop(&mut self)
        ensures
            final(self)@ == (NetworkMonitorView {
                config: NetworkMonitorConfig { enabled: false, ..old(self)@.config },
                ..old(self)@
            }),
    {
        self.config.enabled = false;
    }

    /// One tick of the loop. `current` tells whether the network can be
    /// reached now, `connected` whether each adapter is connected. A
    /// monitor that was switched off stops. Otherwise the finding is kept,
    /// and while the network can be reached every adapter that is not
    /// connected is named for a reconnect.
    pub fn tick(&mut self, current: NetworkStatus, connected: &Vec<bool>) -> (plan: TickPlan)
        ensures
            !old(self)@.config.enabled ==> plan.stop && !plan.recovered && plan.reconnect@ == Seq::<usize>::empty()
                && final(self)@ == (NetworkMonitorView { is_running: false, ..old(self)@ }),
            old(self)@.config.enabled ==> !plan.stop && plan.recovered == recovered_of(
                old(self)@.network_status,
                current,
            ) && plan.reconnect@ == reconnects_of(current, connected@) && final(self)@ == (NetworkMonitorView {
                network_status: current,
                ..old(self)@
            }),
    {
        if !self.config.enabled {
            self.is_running = false;
            return TickPlan { stop: true, recovered: false, reconnect: Vec::new() };
        }
        let recovered = self.network_status != current && current == NetworkStatus::Connected;
        self.network_status = current;
        let mut reconnect: Vec<usize> = Vec::new();
        if current == NetworkStatus::Connected {
            let mut i: usize = 0;
            while i < connected.len()
                invariant
                    i <= connected.len(),
                    reconnect@ == disconnected_of(connected@, i as int),
                decreases connected.len() - i,
            {
                if !connected[i] {
                    reconnect.push(i);
                }
                i += 1;
            }
        }
        TickPlan { stop: false, recovered, reconnect }
    }
}

} // verus!
