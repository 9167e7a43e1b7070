//! Outbound JSON payloads.
//!
//! Every payload published to the broker is built here as bytes: the
//! state document (the active collect configuration, pretty-printed),
//! a single beacon event, and a batch of beacon events.  Numbers that
//! the wire carries as scaled integers are printed as exact decimal
//! fractions; the capture time is printed through the clock formatter.

use vstd::prelude::*;
use vstd::string::StringSliceAdditionalSpecFns;
use vstd::utf8::encode_utf8;

use crate::cnc::CollectConfig;
use crate::scanner::RuuviBluetoothBeacon;
use crate::text::{
    push_dec_i64, push_dec_u64, push_json_escaped_str, push_scaled, push_spaces, push_str_bytes,
    spec_dec_bytes, spec_dec_bytes_i64, spec_json_escaped, spec_scaled_bytes, spec_spaces,
};

verus! {

/// What the clock formatter returns for a point in time given as
/// seconds and subsecond nanoseconds since the Unix epoch: an RFC
/// 3339 timestamp in UTC.  The value depends on the two counts alone.
pub uninterp spec fn utc_rfc3339_of(secs: int, nanos: int) -> Seq<char>;

/// Relies on chrono: `TimeZone::timestamp_opt` on `Utc` and
/// `DateTime::to_rfc3339_opts` turn the second and nanosecond counts
/// into an RFC 3339 UTC timestamp; both depend on their arguments
/// alone.
#[verifier::external_body]
fn format_utc(secs: i64, nanos: u32) -> (r: String)
    ensures
        r@ == utc_rfc3339_of(secs as int, nanos as int),
{
    match chrono::TimeZone::timestamp_opt(&chrono::Utc, secs, nanos) {
        chrono::LocalResult::Single(dt) => {
            dt.to_rfc3339_opts(chrono::SecondsFormat::Millis, true)
        },
        _ => String::new(),
    }
}

/// The timestamp of a capture time counted in milliseconds.
pub open spec fn spec_utc_rfc3339_millis(millis: int) -> Seq<char> {
    utc_rfc3339_of(millis / 1000, (millis % 1000) * 1000000)
}

/// Prints a capture time in milliseconds since the Unix epoch.
fn format_utc_millis(millis: u64) -> (r: String)
    ensures
        r@ == spec_utc_rfc3339_millis(millis as int),
{
    let secs = (millis / 1000) as i64;
    let nanos = ((millis % 1000) * 1000000) as u32;
    format_utc(secs, nanos)
}

/// The JSON spelling of a boolean.
pub open spec fn spec_bool_bytes(b: bool) -> Seq<u8> {
    if b {
        "true".spec_bytes()
    } else {
        "false".spec_bytes()
    }
}

/// The state document: the active collect configuration, in the field
/// order of the inbound schema, each absent field printed as null.
#[verifier::opaque]
pub open spec fn spec_state_json(c: &CollectConfig) -> Seq<u8> {
    "{\n  \"collecting\": ".spec_bytes() + spec_bool_bytes(c.collecting)
        + ",\n  \"event_subfolder\": ".spec_bytes() + (match c.event_subfolder {
        Some(s) => seq![34u8] + spec_json_escaped(encode_utf8(s@)) + seq![34u8],
        None => "null".spec_bytes(),
    }) + ",\n  \"stuck_data_threshold\": ".spec_bytes() + (match c.stuck_data_threshold {
        Some(t) => spec_dec_bytes_i64(t as int),
        None => "null".spec_bytes(),
    }) + ",\n  \"collection_size\": ".spec_bytes() + (match c.collection_size {
        Some(n) => spec_dec_bytes(n as nat),
        None => "null".spec_bytes(),
    }) + ",\n  \"bluetooth\": ".spec_bytes() + (match c.bluetooth {
        Some(b) => "{\n    \"adapter_index\": ".spec_bytes() + spec_dec_bytes(
            b.adapter_index as nat,
        ) + "\n  }".spec_bytes(),
        None => "null".spec_bytes(),
    }) + "\n}".spec_bytes()
}

/// The opening of a beacon object, through the pressure field.
#[verifier::opaque]
pub open spec fn spec_beacon_head(b: &RuuviBluetoothBeacon, ind: nat) -> Seq<u8> {
    "{\n".spec_bytes() + spec_spaces(ind + 2) + "\"data\": {\n".spec_bytes() + spec_spaces(ind + 4)
        + "\"temperature\": ".spec_bytes() + spec_scaled_bytes(5 * b.data.temperature, 3)
        + ",\n".spec_bytes() + spec_spaces(ind + 4) + "\"humidity\": ".spec_bytes()
        + spec_scaled_bytes(25 * b.data.humidity, 4) + ",\n".spec_bytes() + spec_spaces(ind + 4)
        + "\"atmospheric_pressure\": ".spec_bytes() + spec_scaled_bytes(
        b.data.atmospheric_pressure + 50000,
        2,
    ) + ",\n".spec_bytes()
}

/// The acceleration object of a beacon, milli-G printed with one
/// decimal digit.
#[verifier::opaque]
pub open spec fn spec_beacon_accel(b: &RuuviBluetoothBeacon, ind: nat) -> Seq<u8> {
    spec_spaces(ind + 4) + "\"acceleration\": {\n".spec_bytes() + spec_spaces(ind + 6)
        + "\"on_x_axis\": ".spec_bytes() + spec_scaled_bytes(10 * b.data.acceleration_x, 1)
        + ",\n".spec_bytes() + spec_spaces(ind + 6) + "\"on_y_axis\": ".spec_bytes()
        + spec_scaled_bytes(10 * b.data.acceleration_y, 1) + ",\n".spec_bytes() + spec_spaces(
        ind + 6,
    ) + "\"on_z_axis\": ".spec_bytes() + spec_scaled_bytes(10 * b.data.acceleration_z, 1)
        + "\n".spec_bytes() + spec_spaces(ind + 4) + "},\n".spec_bytes()
}

/// The battery and counter fields, closing the data object.
#[verifier::opaque]
pub open spec fn spec_beacon_counters(b: &RuuviBluetoothBeacon, ind: nat) -> Seq<u8> {
    spec_spaces(ind + 4) + "\"powerinfo\": ".spec_bytes() + spec_dec_bytes(
        (b.data.powerinfo / 32 + 1600) as nat,
    ) + ",\n".spec_bytes() + spec_spaces(ind + 4) + "\"movement_counter\": ".spec_bytes()
        + spec_dec_bytes(b.data.movement_counter as nat) + ",\n".spec_bytes() + spec_spaces(
        ind + 4,
    ) + "\"measurement_sequence_number\": ".spec_bytes() + spec_dec_bytes(
        b.data.measurement_sequence_number as nat,
    ) + "\n".spec_bytes() + spec_spaces(ind + 2) + "},\n".spec_bytes()
}

/// The capture time and canonical address, closing the object.
#[verifier::opaque]
pub open spec fn spec_beacon_tail(b: &RuuviBluetoothBeacon, ind: nat) -> Seq<u8> {
    spec_spaces(ind + 2) + "\"timestamp\": \"".spec_bytes() + spec_json_escaped(
        encode_utf8(spec_utc_rfc3339_millis(b.timestamp as int)),
    ) + "\",\n".spec_bytes() + spec_spaces(ind + 2) + "\"address\": \"".spec_bytes() + encode_utf8(
        crate::mac::spec_mac_canonical(b.address.spec_bits()),
    ) + "\"\n".spec_bytes() + spec_spaces(ind) + "}".spec_bytes()
}

/// One beacon as a JSON object opened at indent depth `ind`: the
/// telemetry under "data" with its decimal fractions, then the capture
/// time and the canonical address.
#[verifier::opaque]
pub open spec fn spec_beacon_obj(b: &RuuviBluetoothBeacon, ind: nat) -> Seq<u8> {
    spec_beacon_head(b, ind) + spec_beacon_accel(b, ind) + spec_beacon_counters(b, ind)
        + spec_beacon_tail(b, ind)
}

/// The elements of a batch from `i` on, each preceded by a separator
/// and two spaces of indent.
pub open spec fn spec_batch_rest(bs: Seq<RuuviBluetoothBeacon>, i: int) -> Seq<u8>
    decreases bs.len() - i,
{
    if i < 0 || i >= bs.len() {
        Seq::empty()
    } else {
        ",\n  ".spec_bytes() + spec_beacon_obj(&bs[i], 2) + spec_batch_rest(bs, i + 1)
    }
}

/// A batch of beacons as a pretty-printed JSON array.
pub open spec fn spec_batch_json(bs: Seq<RuuviBluetoothBeacon>) -> Seq<u8> {
    if bs.len() == 0 {
        "[]".spec_bytes()
    } else {
        "[\n  ".spec_bytes() + spec_beacon_obj(&bs[0], 2) + spec_batch_rest(bs, 1)
            + "\n]".spec_bytes()
    }
}

/// The attach and detach payload: an empty object.
pub open spec fn spec_empty_object() -> Seq<u8> {
    "{}".spec_bytes()
}

/// Builds the state document for the active configuration.
#[verifier::rlimit(100)]
pub fn state_json(c: &CollectConfig) -> (r: Vec<u8>)
    ensures
        r@ == spec_state_json(c),
{
    let mut out: Vec<u8> = Vec::new();
    push_str_bytes(&mut out, "{\n  \"collecting\": ");
    push_str_bytes(&mut out, if c.collecting {
        "true"
    } else {
        "false"
    });
    push_str_bytes(&mut out, ",\n  \"event_subfolder\": ");
    match &c.event_subfolder {
        Some(s) => {
            out.push(34);
            push_json_escaped_str(&mut out, s.as_str());
            out.push(34);
        },
        None => push_str_bytes(&mut out, "null"),
    }
    push_str_bytes(&mut out, ",\n  \"stuck_data_threshold\": ");
    match c.stuck_data_threshold {
        Some(t) => push_dec_i64(&mut out, t),
        None => push_str_bytes(&mut out, "null"),
    }
    push_str_bytes(&mut out, ",\n  \"collection_size\": ");
    match c.collection_size {
        Some(n) => push_dec_u64(&mut out, n as u64),
        None => push_str_bytes(&mut out, "null"),
    }
    push_str_bytes(&mut out, ",\n  \"bluetooth\": ");
    match &c.bluetooth {
        Some(b) => {
            push_str_bytes(&mut out, "{\n    \"adapter_index\": ");
            push_dec_u64(&mut out, b.adapter_index as u64);
            push_str_bytes(&mut out, "\n  }");
        },
        None => push_str_bytes(&mut out, "null"),
    }
    push_str_bytes(&mut out, "\n}");
    proof {
        reveal(spec_state_json);
        assert(out@ =~= spec_state_json(c));
    }
    out
}

#[verifier::rlimit(100)]
fn push_beacon_head(out: &mut Vec<u8>, b: &RuuviBluetoothBeacon, ind: usize)
    requires
        ind <= 8,
    ensures
        final(out)@ == old(out)@ + spec_beacon_head(b, ind as nat),
{
    push_str_bytes(out, "{\n");
    push_spaces(out, ind + 2);
    push_str_bytes(out, "\"data\": {\n");
    push_spaces(out, ind + 4);
    push_str_bytes(out, "\"temperature\": ");
    push_scaled(out, (b.data.temperature as i64) * 5, 3);
    push_str_bytes(out, ",\n");
    push_spaces(out, ind + 4);
    push_str_bytes(out, "\"humidity\": ");
    push_scaled(out, (b.data.humidity as i64) * 25, 4);
    push_str_bytes(out, ",\n");
    push_spaces(out, ind + 4);
    push_str_bytes(out, "\"atmospheric_pressure\": ");
    push_scaled(out, (b.data.atmospheric_pressure as i64) + 50000, 2);
    push_str_bytes(out, ",\n");
    proof {
        reveal(spec_beacon_head);
        assert(out@ =~= old(out)@ + spec_beacon_head(b, ind as nat));
    }
}

#[verifier::rlimit(100)]
fn push_beacon_accel(out: &mut Vec<u8>, b: &RuuviBluetoothBeacon, ind: usize)
    requires
        ind <= 8,
    ensures
        final(out)@ == old(out)@ + spec_beacon_accel(b, ind as nat),
{
    push_spaces(out, ind + 4);
    push_str_bytes(out, "\"acceleration\": {\n");
    push_spaces(out, ind + 6);
    push_str_bytes(out, "\"on_x_axis\": ");
    push_scaled(out, (b.data.acceleration_x as i64) * 10, 1);
    push_str_bytes(out, ",\n");
    push_spaces(out, ind + 6);
    push_str_bytes(out, "\"on_y_axis\": ");
    push_scaled(out, (b.data.acceleration_y as i64) * 10, 1);
    push_str_bytes(out, ",\n");
    push_spaces(out, ind + 6);
    push_str_bytes(out, "\"on_z_axis\": ");
    push_scaled(out, (b.data.acceleration_z as i64) * 10, 1);
    push_str_bytes(out, "\n");
    push_spaces(out, ind + 4);
    push_str_bytes(out, "},\n");
    proof {
        reveal(spec_beacon_accel);
        assert(out@ =~= old(out)@ + spec_beacon_accel(b, ind as nat));
    }
}

#[verifier::rlimit(100)]
fn push_beacon_counters(out: &mut Vec<u8>, b: &RuuviBluetoothBeacon, ind: usize)
    requires
        ind <= 8,
    ensures
        final(out)@ == old(out)@ + spec_beacon_counters(b, ind as nat),
{
    push_spaces(out, ind + 4);
    push_str_bytes(out, "\"powerinfo\": ");
    push_dec_u64(out, (b.data.powerinfo / 32 + 1600) as u64);
    push_str_bytes(out, ",\n");
    push_spaces(out, ind + 4);
    push_str_bytes(out, "\"movement_counter\": ");
    push_dec_u64(out, b.data.movement_counter as u64);
    push_str_bytes(out, ",\n");
    push_spaces(out, ind + 4);
    push_str_bytes(out, "\"measurement_sequence_number\": ");
    push_dec_u64(out, b.data.measurement_sequence_number as u64);
    push_str_bytes(out, "\n");
    push_spaces(out, ind + 2);
    push_str_bytes(out, "},\n");
    proof {
        reveal(spec_beacon_counters);
        assert(out@ =~= old(out)@ + spec_beacon_counters(b, ind as nat));
    }
}

#[verifier::rlimit(100)]
fn push_beacon_tail(out: &mut Vec<u8>, b: &RuuviBluetoothBeacon, ind: usize)
    requires
        ind <= 8,
    ensures
        final(out)@ == old(out)@ + spec_beacon_tail(b, ind as nat),
{
    push_spaces(out, ind + 2);
    push_str_bytes(out, "\"timestamp\": \"");
    let ts = format_utc_millis(b.timestamp);
    push_json_escaped_str(out, ts.as_str());
    push_str_bytes(out, "\",\n");
    push_spaces(out, ind + 2);
    push_str_bytes(out, "\"address\": \"");
    let addr = b.address.to_canonical_upper();
    push_str_bytes(out, addr.as_str());
    push_str_bytes(out, "\"\n");
    push_spaces(out, ind);
    push_str_bytes(out, "}");
    proof {
        reveal(spec_beacon_tail);
        assert(out@ =~= old(out)@ + spec_beacon_tail(b, ind as nat));
    }
}

/// Appends one beacon object opened at indent depth `ind`.
fn push_beacon_obj(out: &mut Vec<u8>, b: &RuuviBluetoothBeacon, ind: usize)
    requires
        ind <= 8,
    ensures
        final(out)@ == old(out)@ + spec_beacon_obj(b, ind as nat),
{
    push_beacon_head(out, b, ind);
    push_beacon_accel(out, b, ind);
    push_beacon_counters(out, b, ind);
    push_beacon_tail(out, b, ind);
    proof {
        reveal(spec_beacon_obj);
        assert(out@ =~= old(out)@ + spec_beacon_obj(b, ind as nat));
    }
}

/// Builds the event payload for one beacon.
pub fn beacon_json(b: &RuuviBluetoothBeacon) -> (r: Vec<u8>)
    ensures
        r@ == spec_beacon_obj(b, 0),
{
    let mut out: Vec<u8> = Vec::new();
    push_beacon_obj(&mut out, b, 0);
    out
}

/// Builds the event payload for a batch of beacons.
pub fn batch_json(bs: &Vec<RuuviBluetoothBeacon>) -> (r: Vec<u8>)
    ensures
        r@ == spec_batch_json(bs@),
{
    let mut out: Vec<u8> = Vec::new();
    if bs.len() == 0 {
        push_str_bytes(&mut out, "[]");
        return out;
    }
    push_str_bytes(&mut out, "[\n  ");
    push_beacon_obj(&mut out, &bs[0], 2);
    let mut i: usize = 1;
    while i < bs.len()
        invariant
            1 <= i <= bs@.len(),
            out@ == "[\n  ".spec_bytes() + spec_beacon_obj(&bs@[0], 2) + spec_batch_prefix(
                bs@,
                1,
                i as int,
            ),
        decreases bs@.len() - i,
    {
        push_str_bytes(&mut out, ",\n  ");
        push_beacon_obj(&mut out, &bs[i], 2);
        proof {
            assert(out@ =~= "[\n  ".spec_bytes() + spec_beacon_obj(&bs@[0], 2) + spec_batch_prefix(
                bs@,
                1,
                i + 1,
            ));
        }
        i = i + 1;
    }
    push_str_bytes(&mut out, "\n]");
    proof {
        lemma_batch_prefix_full(bs@, 1);
        assert(out@ =~= spec_batch_json(bs@));
    }
    out
}

/// The attach and detach payload.
pub fn empty_object_json() -> (r: Vec<u8>)
    ensures
        r@ == spec_empty_object(),
{
    let mut out: Vec<u8> = Vec::new();
    push_str_bytes(&mut out, "{}");
    out
}

/// The separated elements from `i` up to `j`.
pub open spec fn spec_batch_prefix(bs: Seq<RuuviBluetoothBeacon>, i: int, j: int) -> Seq<u8>
    decreases j - i,
{
    if i < 0 || i >= j || j > bs.len() {
        Seq::empty()
    } else {
        spec_batch_prefix(bs, i, j - 1) + ",\n  ".spec_bytes() + spec_beacon_obj(&bs[j - 1], 2)
    }
}

/// A full prefix is the whole rest.
proof fn lemma_batch_prefix_full(bs: Seq<RuuviBluetoothBeacon>, i: int)
    requires
        0 <= i <= bs.len(),
    ensures
        spec_batch_prefix(bs, i, bs.len() as int) == spec_batch_rest(bs, i),
    decreases bs.len() - i,
{
    if i < bs.len() {
        lemma_batch_prefix_full(bs, i + 1);
        lemma_batch_rest_unroll_front(bs, i, bs.len() as int);
    } else {
        assert(spec_batch_prefix(bs, i, bs.len() as int) =~= Seq::<u8>::empty());
        assert(spec_batch_rest(bs, i) =~= Seq::<u8>::empty());
    }
}

/// A prefix can be unrolled from the front as the rest is.
proof fn lemma_batch_rest_unroll_front(bs: Seq<RuuviBluetoothBeacon>, i: int, j: int)
    requires
        0 <= i < j <= bs.len(),
    ensures
        spec_batch_prefix(bs, i, j) == ",\n  ".spec_bytes() + spec_beacon_obj(&bs[i], 2)
            + spec_batch_prefix(bs, i + 1, j),
    decreases j - i,
{
    if j == i + 1 {
        assert(spec_batch_prefix(bs, i, j) =~= ",\n  ".spec_bytes() + spec_beacon_obj(&bs[i], 2)
            + spec_batch_prefix(bs, i + 1, j));
    } else {
        lemma_batch_rest_unroll_front(bs, i, j - 1);
        assert(spec_batch_prefix(bs, i + 1, j) == spec_batch_prefix(bs, i + 1, j - 1)
            + ",\n  ".spec_bytes() + spec_beacon_obj(&bs[j - 1], 2));
        assert(spec_batch_prefix(bs, i, j) == spec_batch_prefix(bs, i, j - 1)
            + ",\n  ".spec_bytes() + spec_beacon_obj(&bs[j - 1], 2));
        assert(spec_batch_prefix(bs, i, j) =~= ",\n  ".spec_bytes() + spec_beacon_obj(&bs[i], 2)
            + spec_batch_prefix(bs, i + 1, j));
    }
}

} // verus!
