//! Command-and-control messages.
//!
//! The broker client receives commands and configuration documents from
//! the MQTT broker and relays them, as values of these types, over an
//! in-process channel to the scanner.  A command names one of four
//! actions; a configuration document carries the collect settings that
//! both workers act on.

use vstd::prelude::*;

verus! {

/// One of the four actions the broker can order.
#[derive(Debug, Clone, Copy, PartialEq, Eq, Structural)]
pub enum CNCCommand {
    COLLECT,
    PAUSE,
    SHUTDOWN,
    RESET,
}

/// A command as carried on the bus.
#[derive(Debug, Clone, Copy, PartialEq, Eq, Structural)]
pub struct CNCCommandMessage {
    pub command: CNCCommand,
}

/// The bluetooth part of a configuration document.
#[derive(Debug, Clone, Copy, PartialEq, Eq, Structural)]
pub struct BluetoothConfig {
    pub adapter_index: usize,
}

impl BluetoothConfig {
    /// The configured adapter index.
    pub fn adapter_index(&self) -> (r: usize)
        ensures
            r == self.adapter_index,
    {
        self.adapter_index
    }
}

/// The collect settings the broker pushes down.
#[derive(Debug, Clone)]
pub struct CollectConfig {
    pub collecting: bool,
    pub event_subfolder: Option<String>,
    pub stuck_data_threshold: Option<i64>,
    pub collection_size: Option<usize>,
    pub bluetooth: Option<BluetoothConfig>,
}

/// An optional string taken by value.
pub open spec fn spec_opt_seq(o: Option<String>) -> Option<Seq<char>> {
    match o {
        Some(s) => Some(s@),
        None => None,
    }
}

impl CollectConfig {
    /// Two documents carry the same settings.
    pub open spec fn spec_same(&self, o: &CollectConfig) -> bool {
        &&& self.collecting == o.collecting
        &&& spec_opt_seq(self.event_subfolder) == spec_opt_seq(o.event_subfolder)
        &&& self.stuck_data_threshold == o.stuck_data_threshold
        &&& self.collection_size == o.collection_size
        &&& self.bluetooth == o.bluetooth
    }

    /// The batch size in force: absent means publish-per-beacon.
    pub fn collection_size(&self) -> (r: usize)
        ensures
            self.collection_size matches Some(n) ==> r == n,
            self.collection_size is None ==> r == 0,
    {
        match self.collection_size {
            Some(size) => size,
            None => 0,
        }
    }

    /// A value-equal copy.
    pub fn duplicate(&self) -> (r: CollectConfig)
        ensures
            r.spec_same(self),
            self.spec_same(&r),
    {
        CollectConfig {
            collecting: self.collecting,
            event_subfolder: match &self.event_subfolder {
                Some(s) => Some(s.clone()),
                None => None,
            },
            stuck_data_threshold: self.stuck_data_threshold,
            collection_size: self.collection_size,
            bluetooth: self.bluetooth,
        }
    }

    /// Compares two documents, used to suppress a reconfiguration that
    /// changes nothing.
    pub fn same_as(&self, o: &CollectConfig) -> (r: bool)
        ensures
            r == self.spec_same(o),
    {
        if self.collecting != o.collecting {
            return false;
        }
        let sub_eq: bool = match (&self.event_subfolder, &o.event_subfolder) {
            (None, None) => true,
            (Some(a), Some(b)) => a.eq(b),
            _ => false,
        };
        if !sub_eq {
            return false;
        }
        let thr_eq: bool = match (self.stuck_data_threshold, o.stuck_data_threshold) {
            (None, None) => true,
            (Some(a), Some(b)) => a == b,
            _ => false,
        };
        if !thr_eq {
            return false;
        }
        let size_eq: bool = match (self.collection_size, o.collection_size) {
            (None, None) => true,
            (Some(a), Some(b)) => a == b,
            _ => false,
        };
        if !size_eq {
            return false;
        }
        match (self.bluetooth, o.bluetooth) {
            (None, None) => true,
            (Some(a), Some(b)) => a.adapter_index == b.adapter_index,
            _ => false,
        }
    }
}

/// What travels on the in-process bus from broker client to scanner.
#[derive(Debug, Clone)]
pub enum IOTCoreCNCMessageKind {
    COMMAND(Option<CNCCommandMessage>),
    CONFIG(Option<CollectConfig>),
}

} // verus!
