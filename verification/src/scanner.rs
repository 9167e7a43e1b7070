//! The BLE scanner's decision core.
//!
//! The scanner owns zero or one adapter, reacts to command-and-control
//! messages, and watches each tag for a stuck host stack.  The loop
//! around it (which polls the adapter's event stream, sleeps, and
//! performs the adapter work) feeds every command and every decoded
//! beacon through these functions and carries out the outcome they
//! return: reserve or release the adapter, restart the scan, emit the
//! beacon, or leave the loop cleanly or for a restart.

use vstd::prelude::*;

use crate::cnc::{CNCCommand, CollectConfig, IOTCoreCNCMessageKind};
use crate::mac::MacAddress;
use crate::ruuvi::RuuviTagDataFormat5;
use crate::tagmap::TagMap;

verus! {

/// The staleness threshold used when none is configured, in seconds.
pub const DEFAULT_STUCK_THRESHOLD_SECS: i64 = 180;

/// One observed beacon: the decoded record, the capture time in
/// milliseconds since the Unix epoch, and the sender's address.
#[derive(Debug, Clone, Copy, PartialEq, Eq, Structural)]
pub struct RuuviBluetoothBeacon {
    pub data: RuuviTagDataFormat5,
    pub timestamp: u64,
    pub address: MacAddress,
}

/// What a command-and-control message asks of the scanner's loop.
#[derive(Debug, Clone, Copy, PartialEq, Eq, Structural)]
pub enum ScannerCncOutcome {
    /// Nothing to do: an empty or not-implemented message.
    Ignored,
    /// Release the adapter and leave the loop cleanly.
    Shutdown,
    /// Release the adapter and leave the loop for a restart.
    Reset,
    /// An adapter is configured for the first time: reserve it, then
    /// restart the scan.
    FirstConfig,
    /// The configured adapter changed: stop the scan and leave the
    /// loop for a restart, which reserves the new adapter.
    AdapterChanged,
    /// The same adapter was configured again: restart the scan as a
    /// precaution, nothing else.
    SameAdapter,
}

/// What one observed beacon means for the staleness watch.
#[derive(Debug, Clone, Copy, PartialEq, Eq, Structural)]
pub enum BeaconCheck {
    /// First beacon from this address: recorded; emit the beacon.
    FirstSeen,
    /// The threshold has not elapsed since the recorded beacon: the
    /// record stands; emit the beacon.
    NotDue,
    /// The threshold elapsed and the payload moved: recorded anew;
    /// emit the beacon.
    Updated,
    /// The threshold elapsed and the payload is identical: the host
    /// stack is presumed stuck; leave the loop for a restart.
    Stuck,
}

/// The adapter index a configuration document asks for: absent means
/// adapter 0.
pub open spec fn spec_config_adapter_index(c: &CollectConfig) -> usize {
    match c.bluetooth {
        Some(b) => b.adapter_index,
        None => 0,
    }
}

/// The scanner's state between loop iterations: which adapter is
/// configured, the staleness threshold in force, and the last recorded
/// beacon of each tag.
pub struct BluetoothScanner {
    pub adapter_index: Option<usize>,
    pub stuck_data_threshold: Option<i64>,
    pub stuck_inventory: TagMap<RuuviBluetoothBeacon>,
}

impl BluetoothScanner {
    /// The per-tag inventory never holds an address twice.
    pub open spec fn wf(&self) -> bool {
        self.stuck_inventory.wf()
    }

    /// The recorded beacon of a tag.
    pub open spec fn spec_recorded(&self, key: u64) -> Option<RuuviBluetoothBeacon> {
        self.stuck_inventory.spec_get(key)
    }

    /// The staleness threshold in force, in seconds.
    pub open spec fn spec_threshold_secs(&self) -> int {
        match self.stuck_data_threshold {
            Some(t) => if t > 0 {
                t as int
            } else {
                DEFAULT_STUCK_THRESHOLD_SECS as int
            },
            None => DEFAULT_STUCK_THRESHOLD_SECS as int,
        }
    }

    /// Whether the threshold has elapsed between the recorded capture
    /// time and `now`, both in milliseconds.
    pub open spec fn spec_due(&self, recorded_ts: int, now: int) -> bool {
        now >= recorded_ts && (now - recorded_ts) / 1000 >= self.spec_threshold_secs()
    }

    /// A scanner with nothing configured and nothing recorded.
    pub fn build() -> (r: BluetoothScanner)
        ensures
            r.wf(),
            r.adapter_index is None,
            r.stuck_data_threshold is None,
            r.stuck_inventory.spec_entries().len() == 0,
    {
        BluetoothScanner {
            adapter_index: None,
            stuck_data_threshold: None,
            stuck_inventory: TagMap::new(),
        }
    }

    /// The staleness threshold in force, in seconds: the configured
    /// value where one is set and positive, else the default.
    pub fn stuck_data_threshold(&self) -> (r: i64)
        ensures
            r == self.spec_threshold_secs(),
    {
        match self.stuck_data_threshold {
            Some(t) => if t > 0 {
                t
            } else {
                DEFAULT_STUCK_THRESHOLD_SECS
            },
            None => DEFAULT_STUCK_THRESHOLD_SECS,
        }
    }

    /// Whether an adapter index is already configured, which on entry
    /// to a run means the previous run ended unexpectedly.
    pub fn has_adapter_config(&self) -> (r: bool)
        ensures
            r == (self.adapter_index is Some),
    {
        self.adapter_index.is_some()
    }

    /// Begins a run: the staleness watch starts empty.
    pub fn begin_run(&mut self)
        ensures
            final(self).wf(),
            final(self).stuck_inventory.spec_entries().len() == 0,
            final(self).adapter_index == old(self).adapter_index,
            final(self).stuck_data_threshold == old(self).stuck_data_threshold,
    {
        self.stuck_inventory = TagMap::new();
    }

    /// Clears all scanner state after a failed recovery, so that the
    /// next configuration document re-establishes everything.
    pub fn reset_state(&mut self)
        ensures
            final(self).wf(),
            final(self).adapter_index is None,
            final(self).stuck_data_threshold == old(self).stuck_data_threshold,
            final(self).stuck_inventory.spec_entries().len() == 0,
    {
        self.adapter_index = None;
        self.stuck_inventory = TagMap::new();
    }

    /// Reacts to one command-and-control message.
    ///
    /// A shutdown or reset command ends the run; a configuration
    /// document adopts the staleness threshold and decides between
    /// first-time reservation, an adapter change (which restarts the
    /// worker), and a no-op precautionary scan restart.  Everything
    /// else changes nothing.
    pub fn handle_cnc_message(&mut self, msg: &IOTCoreCNCMessageKind) -> (r: ScannerCncOutcome)
        requires
            old(self).wf(),
        ensures
            final(self).wf(),
            final(self).stuck_inventory == old(self).stuck_inventory,
            match msg {
                IOTCoreCNCMessageKind::COMMAND(cmd) => {
                    &&& *final(self) == *old(self)
                    &&& match cmd {
                        Some(m) => {
                            &&& m.command == CNCCommand::SHUTDOWN ==> r
                                == ScannerCncOutcome::Shutdown
                            &&& m.command == CNCCommand::RESET ==> r == ScannerCncOutcome::Reset
                            &&& (m.command == CNCCommand::COLLECT || m.command == CNCCommand::PAUSE)
                                ==> r == ScannerCncOutcome::Ignored
                        },
                        None => r == ScannerCncOutcome::Ignored,
                    }
                },
                IOTCoreCNCMessageKind::CONFIG(cfg) => match cfg {
                    Some(c) => {
                        &&& final(self).stuck_data_threshold == c.stuck_data_threshold
                        &&& final(self).adapter_index == Some(spec_config_adapter_index(c))
                        &&& (old(self).adapter_index is None ==> r == ScannerCncOutcome::FirstConfig)
                        &&& (match old(self).adapter_index {
                            Some(prev) => if prev != spec_config_adapter_index(c) {
                                r == ScannerCncOutcome::AdapterChanged
                            } else {
                                r == ScannerCncOutcome::SameAdapter
                            },
                            None => true,
                        })
                    },
                    None => *final(self) == *old(self) && r == ScannerCncOutcome::Ignored,
                },
            },
    {
        match msg {
            IOTCoreCNCMessageKind::COMMAND(cmd) => match cmd {
                Some(m) => match m.command {
                    CNCCommand::SHUTDOWN => ScannerCncOutcome::Shutdown,
                    CNCCommand::RESET => ScannerCncOutcome::Reset,
                    _ => ScannerCncOutcome::Ignored,
                },
                None => ScannerCncOutcome::Ignored,
            },
            IOTCoreCNCMessageKind::CONFIG(cfg) => match cfg {
                Some(c) => {
                    let new_adapter_index: usize = match &c.bluetooth {
                        Some(b) => b.adapter_index,
                        None => 0,
                    };
                    self.stuck_data_threshold = c.stuck_data_threshold;
                    match self.adapter_index {
                        None => {
                            self.adapter_index = Some(new_adapter_index);
                            ScannerCncOutcome::FirstConfig
                        },
                        Some(prev) => {
                            if prev != new_adapter_index {
                                self.adapter_index = Some(new_adapter_index);
                                ScannerCncOutcome::AdapterChanged
                            } else {
                                ScannerCncOutcome::SameAdapter
                            }
                        },
                    }
                },
                None => ScannerCncOutcome::Ignored,
            },
        }
    }

    /// Runs the staleness watch over one observed beacon.
    ///
    /// The first beacon of an address is recorded.  Later beacons are
    /// compared only once the threshold has elapsed since the recorded
    /// one: an identical payload then means the stack is stuck, a
    /// differing payload replaces the record.  In every outcome but
    /// `Stuck` the caller forwards the beacon.
    pub fn observe_beacon(&mut self, beacon: &RuuviBluetoothBeacon, now: u64) -> (r: BeaconCheck)
        requires
            old(self).wf(),
        ensures
            final(self).wf(),
            final(self).adapter_index == old(self).adapter_index,
            final(self).stuck_data_threshold == old(self).stuck_data_threshold,
            ({
                let key = beacon.address.spec_bits() as u64;
                match old(self).spec_recorded(key) {
                    None => {
                        &&& r == BeaconCheck::FirstSeen
                        &&& final(self).spec_recorded(key) == Some(*beacon)
                        &&& forall|k2: u64|
                            k2 != key ==> final(self).spec_recorded(k2) == old(self).spec_recorded(
                                k2,
                            )
                    },
                    Some(prev) => {
                        &&& !old(self).spec_due(prev.timestamp as int, now as int) ==> r
                            == BeaconCheck::NotDue && *final(self) == *old(self)
                        &&& (old(self).spec_due(prev.timestamp as int, now as int) && prev.data
                            == beacon.data) ==> r == BeaconCheck::Stuck && *final(self) == *old(
                            self,
                        )
                        &&& (old(self).spec_due(prev.timestamp as int, now as int) && prev.data
                            != beacon.data) ==> {
                            &&& r == BeaconCheck::Updated
                            &&& final(self).spec_recorded(key) == Some(*beacon)
                            &&& forall|k2: u64|
                                k2 != key ==> final(self).spec_recorded(k2) == old(
                                    self,
                                ).spec_recorded(k2)
                        }
                    },
                }
            }),
    {
        let key = beacon.address.bits();
        let threshold_secs = self.stuck_data_threshold();
        match self.stuck_inventory.get(key) {
            None => {
                self.stuck_inventory.insert(key, *beacon);
                BeaconCheck::FirstSeen
            },
            Some(prev) => {
                let prev_ts = prev.timestamp;
                let prev_data = prev.data;
                let due = now >= prev_ts && (now - prev_ts) / 1000 >= (threshold_secs as u64);
                if !due {
                    BeaconCheck::NotDue
                } else if prev_data == beacon.data {
                    BeaconCheck::Stuck
                } else {
                    self.stuck_inventory.insert(key, *beacon);
                    BeaconCheck::Updated
                }
            },
        }
    }
}

} // verus!
