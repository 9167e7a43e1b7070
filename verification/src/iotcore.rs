//! The broker client's decision core.
//!
//! The client owns one MQTT session to the cloud broker.  The loop
//! around it performs the session work (connect, subscribe, publish,
//! sleep) and feeds everything it receives through these functions:
//! inbound configuration and command documents, beacons from the
//! scanner, and the clock.  Each function decides what the session
//! must now do and how the client's own state moves: per-tag batches,
//! the attach bookkeeping, the pause keep-alive, the beacon-silence
//! watchdog, and the credential rotation gate.

use vstd::prelude::*;
use vstd::string::{StringExecFns, StringSliceAdditionalSpecFns};

use crate::cnc::{CNCCommand, CNCCommandMessage, CollectConfig};
use crate::configfile::{spec_token_lifetime, AppConfig};
use crate::jsonout::{beacon_json, spec_batch_json, spec_beacon_obj, spec_empty_object,
    spec_state_json, batch_json, empty_object_json, state_json};
use crate::jwt::IotCoreAuthToken;
use crate::mac::{spec_mac_canonical, MacAddress};
use crate::scanner::RuuviBluetoothBeacon;
use crate::tagmap::TagMap;

verus! {

/// Seconds of beacon silence after which the client restarts itself.
pub const WATCHDOG_SILENCE_SECS: u64 = 58;

/// Milliseconds of pause after which the state is re-emitted to keep
/// the session alive.
pub const PAUSE_KEEPALIVE_MILLIS: u64 = 240000;

/// Seconds before expiry at which the credential is renewed.
pub const JWT_RENEWAL_GUARD_SECS: u64 = 60;

/// A pending batch is never kept beyond this many times the
/// configured batch size: a batch that cannot be published is retried,
/// but the memory it holds is bounded.
pub const BATCH_RETENTION_FACTOR: usize = 8;

/// What the session must do with one arrived beacon.
pub enum BeaconDisposition {
    /// The tag is not attached yet: publish the empty object to the
    /// attach topic, report through `attach_result`, and on success
    /// hand the beacon in again.
    NeedsAttach { topic: String, payload: Vec<u8> },
    /// Publish this one beacon; a failure drops it.
    PublishSingle { topic: String, payload: Vec<u8> },
    /// The batch is full: publish it and report through
    /// `batch_publish_result`.
    PublishBatch { topic: String, payload: Vec<u8> },
    /// The beacon joined its pending batch; nothing to publish.
    Queued,
    /// Collection is paused and the pause has lasted long enough that
    /// the state must be re-emitted; report through
    /// `record_state_publish`.
    PauseKeepAlive { topic: String, payload: Vec<u8> },
    /// Collection is paused; nothing to publish.
    PausedIdle,
}

/// What an inbound configuration document asks.
#[derive(Debug, Clone, Copy, PartialEq, Eq, Structural)]
pub enum ConfigDecision {
    /// The document is absent or equal to the active one: nothing.
    Unchanged,
    /// The document replaced the active one: set the collecting state
    /// accordingly, publish the state, and forward the configuration
    /// to the scanner.
    Apply { enable: bool },
}

/// What an inbound command asks of the client itself (the raw command
/// is forwarded to the scanner in every case).
#[derive(Debug, Clone, Copy, PartialEq, Eq, Structural)]
pub enum CommandDecision {
    /// Resume collecting and publish the state.
    EnableCollect,
    /// Pause collecting and publish the state.
    DisableCollect,
    /// Detach every tag, disconnect, and leave the loop cleanly.
    ShutdownDetach,
    /// Disconnect, forward the active configuration to the scanner,
    /// and leave the loop for a restart.
    ResetDisconnect,
    /// An absent or unparseable command: nothing.
    NoOp,
}

/// The per-tag event topic under the active configuration.
pub open spec fn spec_event_topic(c: &CollectConfig, bits: int) -> Seq<char> {
    "/devices/"@ + spec_mac_canonical(bits) + "/events"@ + (match c.event_subfolder {
        Some(f) => "/"@ + f@,
        None => Seq::<char>::empty(),
    })
}

/// The per-tag attach topic.
pub open spec fn spec_attach_topic(bits: int) -> Seq<char> {
    "/devices/"@ + spec_mac_canonical(bits) + "/attach"@
}

/// The per-tag detach topic.
pub open spec fn spec_detach_topic(bits: int) -> Seq<char> {
    "/devices/"@ + spec_mac_canonical(bits) + "/detach"@
}

/// The command that the watchdog and the broker's reset both put on
/// the bus.
pub fn reset_command() -> (r: CNCCommandMessage)
    ensures
        r.command == CNCCommand::RESET,
{
    CNCCommandMessage { command: CNCCommand::RESET }
}

fn copy_beacons(v: &Vec<RuuviBluetoothBeacon>) -> (r: Vec<RuuviBluetoothBeacon>)
    ensures
        r@ == v@,
{
    let mut out: Vec<RuuviBluetoothBeacon> = Vec::new();
    let mut i: usize = 0;
    while i < v.len()
        invariant
            i <= v@.len(),
            out@ == v@.take(i as int),
        decreases v@.len() - i,
    {
        out.push(v[i]);
        proof {
            assert(out@ =~= v@.take(i + 1));
        }
        i = i + 1;
    }
    proof {
        assert(v@.take(v@.len() as int) =~= v@);
    }
    out
}

/// What the paused client owes for one arrived beacon: the state
/// re-emission once the pause has lasted the keep-alive interval,
/// else nothing.
pub open spec fn spec_paused_outcome(pre: &IotCoreClient, r: &BeaconDisposition, now: u64) -> bool {
    match pre.last_pause {
        Some(lp) => {
            &&& (lp + PAUSE_KEEPALIVE_MILLIS <= now) ==> (r matches
            BeaconDisposition::PauseKeepAlive { topic, payload } && topic@ == pre.state_topic@
                && payload@ == spec_state_json(&pre.collectconfig->Some_0))
            &&& !(lp + PAUSE_KEEPALIVE_MILLIS <= now) ==> r matches BeaconDisposition::PausedIdle
        },
        None => r matches BeaconDisposition::PausedIdle,
    }
}

/// What the collecting client owes for one arrived beacon, and how
/// its pending batches move.
pub open spec fn spec_collecting_outcome(
    pre: &IotCoreClient,
    post: &IotCoreClient,
    beacon: &RuuviBluetoothBeacon,
    connected: bool,
    r: &BeaconDisposition,
) -> bool {
    let key = beacon.address.spec_bits() as u64;
    let cfg = pre.collectconfig->Some_0;
    let attached = pre.spec_attached(key);
    let size = pre.spec_size();
    if !attached && connected {
        &&& post.discovered_tags == pre.discovered_tags
        &&& (r matches BeaconDisposition::NeedsAttach { topic, payload } && topic@
            == spec_attach_topic(beacon.address.spec_bits()) && payload@ == spec_empty_object())
    } else if size <= 1 {
        &&& post.discovered_tags == pre.discovered_tags
        &&& (r matches BeaconDisposition::PublishSingle { topic, payload } && topic@
            == spec_event_topic(&cfg, beacon.address.spec_bits()) && payload@ == spec_beacon_obj(
            beacon,
            0,
        ))
    } else {
        let q: Seq<RuuviBluetoothBeacon> = match pre.spec_queue(key) {
            Some(v) => v@,
            None => Seq::empty(),
        };
        if q.len() + 1 >= size {
            let nq: Seq<RuuviBluetoothBeacon> = if q.len() as int / (BATCH_RETENTION_FACTOR as int)
                < size {
                q.push(*beacon)
            } else {
                q
            };
            &&& (post.spec_queue(key) matches Some(v2) && v2@ == nq)
            &&& (forall|k2: u64| k2 != key ==> post.spec_queue(k2) == pre.spec_queue(k2))
            &&& (r matches BeaconDisposition::PublishBatch { topic, payload } && topic@
                == spec_event_topic(&cfg, beacon.address.spec_bits()) && payload@
                == spec_batch_json(nq))
        } else {
            &&& (post.spec_queue(key) matches Some(v2) && v2@ == q.push(*beacon))
            &&& (forall|k2: u64| k2 != key ==> post.spec_queue(k2) == pre.spec_queue(k2))
            &&& r matches BeaconDisposition::Queued
        }
    }
}

/// One successful attach as the bookkeeping sees it: the address now
/// holds an empty pending batch, no other tag moved, and the key set
/// grew by the address exactly when it was absent.
pub open spec fn spec_attach_step(pre: &IotCoreClient, post: &IotCoreClient, key: u64) -> bool {
    &&& post.spec_attached(key)
    &&& (post.spec_queue(key) matches Some(v) && v@ == Seq::<RuuviBluetoothBeacon>::empty())
    &&& forall|k2: u64| k2 != key ==> post.spec_queue(k2) == pre.spec_queue(k2)
    &&& forall|k2: u64| k2 != key ==> post.spec_attached(k2) == pre.spec_attached(k2)
    &&& (pre.spec_attached(key) ==> post.discovered_tags.spec_keys()
        == pre.discovered_tags.spec_keys())
    &&& (!pre.spec_attached(key) ==> post.discovered_tags.spec_keys()
        == pre.discovered_tags.spec_keys().push(key))
}

/// Attaching is idempotent: two consecutive attaches for one address
/// produce exactly one entry in the pending-batch map.  The first
/// adds the address's entry where it was absent; the second moves the
/// key set not at all.
pub proof fn lemma_attach_idempotent(
    pre: IotCoreClient,
    mid: IotCoreClient,
    post: IotCoreClient,
    key: u64,
)
    requires
        spec_attach_step(&pre, &mid, key),
        spec_attach_step(&mid, &post, key),
    ensures
        post.discovered_tags.spec_keys() == mid.discovered_tags.spec_keys(),
        !pre.spec_attached(key) ==> mid.discovered_tags.spec_keys()
            == pre.discovered_tags.spec_keys().push(key),
{
}

/// A successfully published batch as the bookkeeping sees it: the
/// tag's pending batch is empty again and no other tag moved.
pub open spec fn spec_batch_ack(pre: &IotCoreClient, post: &IotCoreClient, key: u64) -> bool {
    &&& (post.spec_queue(key) matches Some(v) && v@ == Seq::<RuuviBluetoothBeacon>::empty())
    &&& forall|k2: u64| k2 != key ==> post.spec_queue(k2) == pre.spec_queue(k2)
}

/// One batching round of an attached tag: an arrival grows the
/// pending batch by one, a full batch is published exactly when the
/// grown batch reaches the size, and the acknowledged publish leaves
/// the batch empty.  This is the step that `spec_batch_len_after`
/// and `spec_batch_pubs_after` count.
pub proof fn lemma_batch_round_step(
    pre: IotCoreClient,
    mid: IotCoreClient,
    post: IotCoreClient,
    beacon: RuuviBluetoothBeacon,
    r: BeaconDisposition,
    n: int,
)
    requires
        spec_collecting_outcome(&pre, &mid, &beacon, true, &r),
        pre.spec_attached(beacon.address.spec_bits() as u64),
        n == pre.spec_size(),
        n >= 2,
        ({
            let key = beacon.address.spec_bits() as u64;
            pre.spec_queue(key) matches Some(v) && v@.len() < n
        }),
        (r matches BeaconDisposition::PublishBatch { .. }) ==> spec_batch_ack(
            &mid,
            &post,
            beacon.address.spec_bits() as u64,
        ),
        !(r matches BeaconDisposition::PublishBatch { .. }) ==> post == mid,
    ensures
        ({
            let key = beacon.address.spec_bits() as u64;
            let q_len = pre.spec_queue(key)->Some_0@.len();
            &&& (r matches BeaconDisposition::PublishBatch { .. }) <==> q_len + 1 >= n
            &&& post.spec_queue(key) matches Some(v2) && v2@.len() == (if q_len + 1 >= n {
                0int
            } else {
                q_len + 1int
            })
        }),
{
    let key = beacon.address.spec_bits() as u64;
    let q = pre.spec_queue(key)->Some_0@;
    assert(q.len() as int / (BATCH_RETENTION_FACTOR as int) < n);
}

/// The pending-batch length after one arrival, under a successful
/// publish of every full batch: the batch grows by one until it
/// reaches the size, whereupon it is published and emptied, as
/// `handle_beacon_arrival` and `batch_publish_result` ensure.
pub open spec fn spec_batch_len_after(k: nat, n: int) -> int
    decreases k,
{
    if k == 0 {
        0
    } else {
        let prev = spec_batch_len_after((k - 1) as nat, n);
        if prev + 1 >= n {
            0
        } else {
            prev + 1
        }
    }
}

/// How many batch publishes the first `k` arrivals have caused.
pub open spec fn spec_batch_pubs_after(k: nat, n: int) -> int
    decreases k,
{
    if k == 0 {
        0
    } else {
        let prev = spec_batch_len_after((k - 1) as nat, n);
        spec_batch_pubs_after((k - 1) as nat, n) + if prev + 1 >= n {
            1int
        } else {
            0int
        }
    }
}

/// Batching arithmetic: with batch size `n`, after `k` beacons of one
/// attached tag the pending batch holds `k % n` beacons and exactly
/// `k / n` array publishes have been emitted — in particular, after
/// `2n` beacons, two publishes and an empty batch.
pub proof fn lemma_batching_counts(k: nat, n: int)
    requires
        n >= 2,
    ensures
        spec_batch_len_after(k, n) == (k as int) % n,
        spec_batch_pubs_after(k, n) == (k as int) / n,
    decreases k,
{
    if k > 0 {
        lemma_batching_counts((k - 1) as nat, n);
        let prev = spec_batch_len_after((k - 1) as nat, n);
        let q = (k - 1) / n;
        let r = (k - 1) % n;
        vstd::arithmetic::div_mod::lemma_fundamental_div_mod(k - 1, n);
        vstd::arithmetic::div_mod::lemma_mod_division_less_than_divisor(k - 1, n);
        assert(prev == r);
        if prev + 1 >= n {
            assert(r == n - 1);
            assert(n * (q + 1) == n * q + n) by (nonlinear_arith);
            assert((q + 1) * n == n * (q + 1)) by (nonlinear_arith);
            assert(k as int == (q + 1) * n + 0);
            vstd::arithmetic::div_mod::lemma_fundamental_div_mod_converse(k as int, n, q + 1, 0);
        } else {
            assert(q * n == n * q) by (nonlinear_arith);
            assert(k as int == q * n + (r + 1));
            vstd::arithmetic::div_mod::lemma_fundamental_div_mod_converse(k as int, n, q, r + 1);
        }
    }
}

/// The client's state between loop iterations.
pub struct IotCoreClient {
    pub config_topic: String,
    pub state_topic: String,
    pub command_topic_root: String,
    pub collectconfig: Option<CollectConfig>,
    pub last_pause: Option<u64>,
    pub last_seen: u64,
    pub discovered_tags: TagMap<Vec<RuuviBluetoothBeacon>>,
    pub jwt_factory: IotCoreAuthToken,
}

impl IotCoreClient {
    /// The attach bookkeeping never holds an address twice.
    pub open spec fn wf(&self) -> bool {
        self.discovered_tags.wf()
    }

    /// Whether a tag is attached.
    pub open spec fn spec_attached(&self, key: u64) -> bool {
        self.discovered_tags.spec_contains(key)
    }

    /// The pending batch of a tag.
    pub open spec fn spec_queue(&self, key: u64) -> Option<Vec<RuuviBluetoothBeacon>> {
        self.discovered_tags.spec_get(key)
    }

    /// Whether collection is on under the active configuration.
    pub open spec fn spec_collecting(&self) -> bool {
        match self.collectconfig {
            Some(c) => c.collecting,
            None => false,
        }
    }

    /// The batch size in force.
    pub open spec fn spec_size(&self) -> int {
        match self.collectconfig {
            Some(c) => match c.collection_size {
                Some(n) => n as int,
                None => 0,
            },
            None => 0,
        }
    }

    /// Everything but the beacon bookkeeping is unchanged.
    pub open spec fn spec_frame_unchanged(&self, o: &IotCoreClient) -> bool {
        &&& self.config_topic@ == o.config_topic@
        &&& self.state_topic@ == o.state_topic@
        &&& self.command_topic_root@ == o.command_topic_root@
        &&& self.collectconfig == o.collectconfig
        &&& self.jwt_factory == o.jwt_factory
    }

    /// A client for the configured device: its topics, an empty tag
    /// map, and a credential issued at `now` (seconds since the Unix
    /// epoch).  The watchdog clock starts at zero; `note_run_start`
    /// stamps it when a run begins.
    pub fn build(appconfig: &AppConfig, private_key_pem: Vec<u8>, now: u64) -> (r: IotCoreClient)
        requires
            now + spec_token_lifetime(&appconfig.identity) <= u64::MAX,
        ensures
            r.wf(),
            r.config_topic@ == "/devices/"@ + appconfig.iotcore.device_id@ + "/config"@,
            r.state_topic@ == "/devices/"@ + appconfig.iotcore.device_id@ + "/state"@,
            r.command_topic_root@ == "/devices/"@ + appconfig.iotcore.device_id@ + "/commands"@,
            r.collectconfig is None,
            r.last_pause is None,
            r.last_seen == 0,
            r.discovered_tags.spec_entries().len() == 0,
            r.jwt_factory.payload.iat == now,
            r.jwt_factory.payload.exp == now + spec_token_lifetime(&appconfig.identity),
            r.jwt_factory.audience@ == appconfig.iotcore.project_id@,
    {
        let device_id = &appconfig.iotcore.device_id;
        let mut config_topic = String::new();
        config_topic.append("/devices/");
        config_topic.append(device_id.as_str());
        config_topic.append("/config");
        let mut state_topic = String::new();
        state_topic.append("/devices/");
        state_topic.append(device_id.as_str());
        state_topic.append("/state");
        let mut command_topic_root = String::new();
        command_topic_root.append("/devices/");
        command_topic_root.append(device_id.as_str());
        command_topic_root.append("/commands");
        proof {
            assert(config_topic@ =~= "/devices/"@ + appconfig.iotcore.device_id@ + "/config"@);
            assert(state_topic@ =~= "/devices/"@ + appconfig.iotcore.device_id@ + "/state"@);
            assert(command_topic_root@ =~= "/devices/"@ + appconfig.iotcore.device_id@
                + "/commands"@);
        }
        IotCoreClient {
            config_topic,
            state_topic,
            command_topic_root,
            collectconfig: None,
            last_pause: None,
            last_seen: 0,
            discovered_tags: TagMap::new(),
            jwt_factory: IotCoreAuthToken::build(appconfig, private_key_pem, now),
        }
    }

    /// The two subscriptions of a session: the config topic and the
    /// whole command subtree.
    pub fn subscription_topics(&self) -> (r: (String, String))
        ensures
            r.0@ == self.config_topic@,
            r.1@ == self.command_topic_root@ + "/#"@,
    {
        let first = self.config_topic.clone();
        let mut second = self.command_topic_root.clone();
        second.append("/#");
        (first, second)
    }

    /// Whether the session must be cycled before the next publish:
    /// the credential is within the guard window of its expiry, or
    /// the session is down.
    pub fn needs_reconnect(&self, connected: bool, now: u64) -> (r: bool)
        ensures
            r == (!(now + JWT_RENEWAL_GUARD_SECS <= self.jwt_factory.payload.exp) || !connected),
    {
        !self.jwt_factory.is_valid(JWT_RENEWAL_GUARD_SECS, now) || !connected
    }

    /// Stamps the watchdog clock at the start of a run, before any
    /// beacon has arrived.
    pub fn note_run_start(&mut self, now: u64)
        ensures
            final(self).wf() == old(self).wf(),
            final(self).spec_frame_unchanged(old(self)),
            final(self).last_pause == old(self).last_pause,
            final(self).discovered_tags == old(self).discovered_tags,
            final(self).last_seen == now,
    {
        self.last_seen = now;
    }

    /// Whether beacon silence has reached the watchdog limit.
    pub fn watchdog_due(&self, now: u64) -> (r: bool)
        ensures
            r == (self.last_seen + WATCHDOG_SILENCE_SECS * 1000 <= now),
    {
        now >= self.last_seen && now - self.last_seen >= WATCHDOG_SILENCE_SECS * 1000
    }

    /// The per-tag event topic under the active configuration.
    pub fn device_event_topic(&self, address: &MacAddress) -> (r: Option<String>)
        ensures
            match self.collectconfig {
                Some(c) => (r matches Some(t) && t@ == spec_event_topic(
                    &c,
                    address.spec_bits(),
                )),
                None => r is None,
            },
    {
        match &self.collectconfig {
            Some(c) => {
                let mut t = String::new();
                t.append("/devices/");
                let mac = address.to_canonical_upper();
                t.append(mac.as_str());
                t.append("/events");
                match &c.event_subfolder {
                    Some(folder) => {
                        t.append("/");
                        t.append(folder.as_str());
                        proof {
                            assert(t@ =~= spec_event_topic(c, address.spec_bits()));
                        }
                    },
                    None => {
                        proof {
                            assert(t@ =~= spec_event_topic(c, address.spec_bits()));
                        }
                    },
                }
                Some(t)
            },
            None => None,
        }
    }

    /// The per-tag attach topic.
    pub fn device_attach_topic(&self, address: &MacAddress) -> (r: String)
        ensures
            r@ == spec_attach_topic(address.spec_bits()),
    {
        let mut t = String::new();
        t.append("/devices/");
        let mac = address.to_canonical_upper();
        t.append(mac.as_str());
        t.append("/attach");
        proof {
            assert(t@ =~= spec_attach_topic(address.spec_bits()));
        }
        t
    }

    /// The per-tag detach topic.
    pub fn device_detach_topic(&self, address: &MacAddress) -> (r: String)
        ensures
            r@ == spec_detach_topic(address.spec_bits()),
    {
        let mut t = String::new();
        t.append("/devices/");
        let mac = address.to_canonical_upper();
        t.append(mac.as_str());
        t.append("/detach");
        proof {
            assert(t@ =~= spec_detach_topic(address.spec_bits()));
        }
        t
    }

    /// Sets the collecting flag in the active configuration and hands
    /// back the state publish that announces it, or nothing where no
    /// configuration is active yet.
    pub fn set_collecting_state(&mut self, enabled: bool) -> (r: Option<(String, Vec<u8>)>)
        requires
            old(self).wf(),
        ensures
            final(self).wf(),
            final(self).last_pause == old(self).last_pause,
            final(self).last_seen == old(self).last_seen,
            final(self).discovered_tags == old(self).discovered_tags,
            final(self).jwt_factory == old(self).jwt_factory,
            final(self).config_topic@ == old(self).config_topic@,
            final(self).state_topic@ == old(self).state_topic@,
            final(self).command_topic_root@ == old(self).command_topic_root@,
            match old(self).collectconfig {
                Some(c) => {
                    &&& (final(self).collectconfig matches Some(c2) && c2.collecting == enabled
                        && crate::cnc::spec_opt_seq(c2.event_subfolder) == crate::cnc::spec_opt_seq(
                        c.event_subfolder,
                    ) && c2.stuck_data_threshold == c.stuck_data_threshold && c2.collection_size
                        == c.collection_size && c2.bluetooth == c.bluetooth)
                    &&& (r matches Some(p) && p.0@ == old(self).state_topic@ && p.1@
                        == spec_state_json(&final(self).collectconfig->Some_0))
                },
                None => r is None && final(self).collectconfig is None,
            },
    {
        match &self.collectconfig {
            Some(c) => {
                let mut newconfig = c.duplicate();
                newconfig.collecting = enabled;
                let payload = state_json(&newconfig);
                let topic = self.state_topic.clone();
                self.collectconfig = Some(newconfig);
                Some((topic, payload))
            },
            None => None,
        }
    }

    /// Records the outcome of a state publish: a successful pause
    /// starts (or restarts) the pause clock, a successful resume
    /// clears it, and a failed publish moves nothing.
    pub fn record_state_publish(&mut self, enabled: bool, ok: bool, now: u64)
        ensures
            final(self).wf() == old(self).wf(),
            final(self).spec_frame_unchanged(old(self)),
            final(self).last_seen == old(self).last_seen,
            final(self).discovered_tags == old(self).discovered_tags,
            ok && enabled ==> final(self).last_pause is None,
            ok && !enabled ==> final(self).last_pause == Some(now),
            !ok ==> final(self).last_pause == old(self).last_pause,
    {
        if ok {
            if enabled {
                self.last_pause = None;
            } else {
                self.last_pause = Some(now);
            }
        }
    }

    /// Decides what an inbound configuration document changes.  A
    /// document equal to the active one is dropped; a new one becomes
    /// active, and the caller publishes the state and forwards the
    /// configuration to the scanner.
    pub fn handle_config_message(&mut self, parsed: Option<CollectConfig>) -> (r: ConfigDecision)
        requires
            old(self).wf(),
        ensures
            final(self).wf(),
            final(self).last_pause == old(self).last_pause,
            final(self).last_seen == old(self).last_seen,
            final(self).discovered_tags == old(self).discovered_tags,
            final(self).jwt_factory == old(self).jwt_factory,
            final(self).config_topic@ == old(self).config_topic@,
            final(self).state_topic@ == old(self).state_topic@,
            final(self).command_topic_root@ == old(self).command_topic_root@,
            match parsed {
                None => r == ConfigDecision::Unchanged && final(self).collectconfig == old(
                    self,
                ).collectconfig,
                Some(nc) => {
                    let keep = match old(self).collectconfig {
                        Some(oc) => oc.spec_same(&nc),
                        None => false,
                    };
                    if keep {
                        &&& r == ConfigDecision::Unchanged
                        &&& final(self).collectconfig == old(self).collectconfig
                    } else {
                        &&& r == (ConfigDecision::Apply { enable: nc.collecting })
                        &&& (final(self).collectconfig matches Some(c2) && c2.spec_same(&nc))
                    }
                },
            },
    {
        match parsed {
            None => ConfigDecision::Unchanged,
            Some(nc) => {
                let same = match &self.collectconfig {
                    Some(oc) => oc.same_as(&nc),
                    None => false,
                };
                if same {
                    ConfigDecision::Unchanged
                } else {
                    let enable = nc.collecting;
                    self.collectconfig = Some(nc);
                    ConfigDecision::Apply { enable }
                }
            },
        }
    }

    /// A value-equal copy of the active configuration, for the bus.
    pub fn current_config_copy(&self) -> (r: Option<CollectConfig>)
        ensures
            match self.collectconfig {
                Some(c) => (r matches Some(c2) && c2.spec_same(&c)),
                None => r is None,
            },
    {
        match &self.collectconfig {
            Some(c) => Some(c.duplicate()),
            None => None,
        }
    }

    /// What the client itself does for each command kind.
    pub fn command_decision(cmd: &Option<CNCCommandMessage>) -> (r: CommandDecision)
        ensures
            match cmd {
                Some(m) => {
                    &&& m.command == CNCCommand::COLLECT ==> r == CommandDecision::EnableCollect
                    &&& m.command == CNCCommand::PAUSE ==> r == CommandDecision::DisableCollect
                    &&& m.command == CNCCommand::SHUTDOWN ==> r == CommandDecision::ShutdownDetach
                    &&& m.command == CNCCommand::RESET ==> r == CommandDecision::ResetDisconnect
                },
                None => r == CommandDecision::NoOp,
            },
    {
        match cmd {
            Some(m) => match m.command {
                CNCCommand::COLLECT => CommandDecision::EnableCollect,
                CNCCommand::PAUSE => CommandDecision::DisableCollect,
                CNCCommand::SHUTDOWN => CommandDecision::ShutdownDetach,
                CNCCommand::RESET => CommandDecision::ResetDisconnect,
            },
            None => CommandDecision::NoOp,
        }
    }

    /// Takes one beacon from the scanner and decides what the session
    /// does with it.
    ///
    /// The beacon stamps the watchdog clock.  While collecting, an
    /// unattached tag is attached first (when the session is up); a
    /// batch size of one or none publishes the beacon alone; a larger
    /// size grows the tag's pending batch and publishes it when full,
    /// keeping it for retry until a publish succeeds, bounded by the
    /// retention cap.  While paused, nothing is published except the
    /// periodic state re-emission that keeps the session alive.
    pub fn handle_beacon_arrival(
        &mut self,
        beacon: &RuuviBluetoothBeacon,
        connected: bool,
        now: u64,
    ) -> (r: BeaconDisposition)
        requires
            old(self).wf(),
            old(self).collectconfig is Some,
        ensures
            final(self).wf(),
            final(self).last_seen == now,
            final(self).collectconfig == old(self).collectconfig,
            final(self).jwt_factory == old(self).jwt_factory,
            final(self).config_topic@ == old(self).config_topic@,
            final(self).state_topic@ == old(self).state_topic@,
            final(self).command_topic_root@ == old(self).command_topic_root@,
            final(self).last_pause == old(self).last_pause,
            !old(self).spec_collecting() ==> final(self).discovered_tags == old(
                self,
            ).discovered_tags && spec_paused_outcome(old(self), &r, now),
            old(self).spec_collecting() ==> spec_collecting_outcome(
                old(self),
                final(self),
                beacon,
                connected,
                &r,
            ),
    {
        self.last_seen = now;
        let collecting = match &self.collectconfig {
            Some(c) => c.collecting,
            None => false,
        };
        if !collecting {
            self.dispatch_paused(now)
        } else {
            self.dispatch_collecting(beacon, connected)
        }
    }

    fn dispatch_paused(&mut self, now: u64) -> (r: BeaconDisposition)
        requires
            old(self).wf(),
            old(self).collectconfig is Some,
            !old(self).spec_collecting(),
        ensures
            *final(self) == *old(self),
            spec_paused_outcome(old(self), &r, now),
    {
        match self.last_pause {
            Some(lp) => {
                if now >= PAUSE_KEEPALIVE_MILLIS && lp <= now - PAUSE_KEEPALIVE_MILLIS {
                    let topic = self.state_topic.clone();
                    let payload = match &self.collectconfig {
                        Some(c) => state_json(c),
                        None => Vec::new(),
                    };
                    BeaconDisposition::PauseKeepAlive { topic, payload }
                } else {
                    BeaconDisposition::PausedIdle
                }
            },
            None => BeaconDisposition::PausedIdle,
        }
    }

    #[verifier::rlimit(100)]
    fn dispatch_collecting(&mut self, beacon: &RuuviBluetoothBeacon, connected: bool) -> (r:
        BeaconDisposition)
        requires
            old(self).wf(),
            old(self).collectconfig is Some,
            old(self).spec_collecting(),
        ensures
            final(self).wf(),
            final(self).last_seen == old(self).last_seen,
            final(self).last_pause == old(self).last_pause,
            final(self).collectconfig == old(self).collectconfig,
            final(self).jwt_factory == old(self).jwt_factory,
            final(self).config_topic@ == old(self).config_topic@,
            final(self).state_topic@ == old(self).state_topic@,
            final(self).command_topic_root@ == old(self).command_topic_root@,
            spec_collecting_outcome(old(self), final(self), beacon, connected, &r),
    {
        let key = beacon.address.bits();
        let attached = self.discovered_tags.contains_key(key);
        if !attached && connected {
            let topic = self.device_attach_topic(&beacon.address);
            let payload = empty_object_json();
            BeaconDisposition::NeedsAttach { topic, payload }
        } else {
            let size = match &self.collectconfig {
                Some(c) => c.collection_size(),
                None => 0,
            };
            let topic = match self.device_event_topic(&beacon.address) {
                Some(t) => t,
                None => String::new(),
            };
            if size <= 1 {
                let payload = beacon_json(beacon);
                BeaconDisposition::PublishSingle { topic, payload }
            } else {
                let mut queue: Vec<RuuviBluetoothBeacon> = match self.discovered_tags.get(key) {
                    Some(v) => copy_beacons(v),
                    None => Vec::new(),
                };
                if queue.len() >= size - 1 {
                    if queue.len() / BATCH_RETENTION_FACTOR < size {
                        queue.push(*beacon);
                    }
                    let payload = batch_json(&queue);
                    self.discovered_tags.insert(key, queue);
                    BeaconDisposition::PublishBatch { topic, payload }
                } else {
                    queue.push(*beacon);
                    self.discovered_tags.insert(key, queue);
                    BeaconDisposition::Queued
                }
            }
        }
    }

    /// Records the outcome of an attach publish: success creates the
    /// tag's empty pending batch (so the tag counts as attached),
    /// failure leaves the tag unknown and its beacon dropped.
    pub fn attach_result(&mut self, address: &MacAddress, ok: bool)
        requires
            old(self).wf(),
        ensures
            final(self).wf(),
            final(self).spec_frame_unchanged(old(self)),
            final(self).last_pause == old(self).last_pause,
            final(self).last_seen == old(self).last_seen,
            ({
                let key = address.spec_bits() as u64;
                if ok {
                    spec_attach_step(old(self), final(self), key)
                } else {
                    final(self).discovered_tags == old(self).discovered_tags
                }
            }),
    {
        if ok {
            self.discovered_tags.insert(address.bits(), Vec::new());
        }
    }

    /// Records the outcome of a batch publish: success empties the
    /// tag's pending batch, failure keeps it for the next attempt.
    pub fn batch_publish_result(&mut self, address: &MacAddress, ok: bool)
        requires
            old(self).wf(),
        ensures
            final(self).wf(),
            final(self).spec_frame_unchanged(old(self)),
            final(self).last_pause == old(self).last_pause,
            final(self).last_seen == old(self).last_seen,
            ({
                let key = address.spec_bits() as u64;
                if ok {
                    spec_batch_ack(old(self), final(self), key)
                } else {
                    final(self).discovered_tags == old(self).discovered_tags
                }
            }),
    {
        if ok {
            self.discovered_tags.insert(address.bits(), Vec::new());
        }
    }

    /// Drops a tag whose reattach failed.
    pub fn remove_tag(&mut self, key: u64)
        requires
            old(self).wf(),
        ensures
            final(self).wf(),
            final(self).spec_frame_unchanged(old(self)),
            final(self).last_pause == old(self).last_pause,
            final(self).last_seen == old(self).last_seen,
            final(self).spec_queue(key) is None,
            forall|k2: u64| k2 != key ==> final(self).spec_queue(k2) == old(self).spec_queue(k2),
    {
        self.discovered_tags.remove(key);
    }

    /// The attached tags, for reattach after a reconnect and detach
    /// at shutdown.
    pub fn tag_keys(&self) -> (r: Vec<u64>)
        ensures
            r@ == self.discovered_tags.spec_keys(),
    {
        let mut out: Vec<u64> = Vec::new();
        let mut i: usize = 0;
        let n = self.discovered_tags.len();
        while i < n
            invariant
                i <= n,
                n == self.discovered_tags.spec_entries().len(),
                out@ == self.discovered_tags.spec_keys().take(i as int),
            decreases n - i,
        {
            out.push(self.discovered_tags.key_at(i));
            proof {
                assert(out@ =~= self.discovered_tags.spec_keys().take(i + 1));
            }
            i = i + 1;
        }
        proof {
            assert(self.discovered_tags.spec_keys().take(
                self.discovered_tags.spec_keys().len() as int,
            ) =~= self.discovered_tags.spec_keys());
        }
        out
    }
}

} // verus!
