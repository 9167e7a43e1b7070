//! Inbound JSON documents.
//!
//! The broker sends configuration and command documents as JSON.
//! serde_json reads one member of the document at a time through a
//! trusted accessor whose result is named: what a member read yields
//! depends on the text alone, so each parse function carries an exact
//! contract over those names.  A document whose required member is
//! missing or whose member is of the wrong type is rejected whole, as
//! the schemas ask; an unparseable document yields nothing and is
//! dropped by the caller with a log line.
//!
//! A member read distinguishes four outcomes: the text is not a JSON
//! object (outer `None`); the member is absent or null (`Some(None)`,
//! an optional field stays empty); the member holds a value of the
//! asked type (`Some(Some(Ok(v)))`); or it holds something else
//! (`Some(Some(Err(())))`, which rejects the document).

use vstd::prelude::*;
use vstd::string::StringSliceAdditionalSpecFns;
use vstd::utf8::encode_utf8;

use crate::cnc::{BluetoothConfig, CNCCommand, CNCCommandMessage, CollectConfig};

verus! {

/// What reading a string member of a JSON object yields.  The value
/// depends on the text and the key alone: serde_json keeps an object
/// as a sorted map, and of duplicate keys the last wins.
pub uninterp spec fn json_member_str(s: Seq<char>, key: Seq<char>) -> Option<
    Option<Result<Seq<char>, ()>>,
>;

/// What reading a boolean member yields.
pub uninterp spec fn json_member_bool(s: Seq<char>, key: Seq<char>) -> Option<
    Option<Result<bool, ()>>,
>;

/// What reading a signed integer member yields.
pub uninterp spec fn json_member_i64(s: Seq<char>, key: Seq<char>) -> Option<
    Option<Result<i64, ()>>,
>;

/// What reading an unsigned integer member yields.
pub uninterp spec fn json_member_u64(s: Seq<char>, key: Seq<char>) -> Option<
    Option<Result<u64, ()>>,
>;

/// What reading an unsigned integer member of an object member
/// yields: absent or null outer member leaves the field empty; an
/// outer member that is not an object, or an inner member that is not
/// an unsigned integer, rejects the document.
pub uninterp spec fn json_nested_u64(s: Seq<char>, key: Seq<char>, inner: Seq<char>) -> Option<
    Option<Result<u64, ()>>,
>;

/// Relies on serde_json: `from_str` to a tree, `Value::get` and
/// `Value::as_str` to read one member; all are functions of the text
/// and key alone.
#[verifier::external_body]
fn json_member_str_of(payload: &str, key: &str) -> (r: Option<Option<Result<String, ()>>>)
    ensures
        ({
            let m = json_member_str(payload@, key@);
            match r {
                Some(Some(Ok(v))) => m == Some(Some(Ok::<Seq<char>, ()>(v@))),
                Some(Some(Err(e))) => m == Some(Some(Err::<Seq<char>, ()>(e))),
                Some(None) => m == Some(None::<Result<Seq<char>, ()>>),
                None => m is None,
            }
        }),
{
    let v: serde_json::Value = match serde_json::from_str(payload) {
        Ok(v) => v,
        Err(_) => return None,
    };
    if !v.is_object() {
        return None;
    }
    match v.get(key) {
        None => Some(None),
        Some(m) if m.is_null() => Some(None),
        Some(m) => match m.as_str() {
            Some(s) => Some(Some(Ok(s.to_owned()))),
            None => Some(Some(Err(()))),
        },
    }
}

/// Relies on serde_json: `from_str`, `Value::get` and
/// `Value::as_bool`; functions of the text and key alone.
#[verifier::external_body]
fn json_member_bool_of(payload: &str, key: &str) -> (r: Option<Option<Result<bool, ()>>>)
    ensures
        r == json_member_bool(payload@, key@),
{
    let v: serde_json::Value = match serde_json::from_str(payload) {
        Ok(v) => v,
        Err(_) => return None,
    };
    if !v.is_object() {
        return None;
    }
    match v.get(key) {
        None => Some(None),
        Some(m) if m.is_null() => Some(None),
        Some(m) => match m.as_bool() {
            Some(b) => Some(Some(Ok(b))),
            None => Some(Some(Err(()))),
        },
    }
}

/// Relies on serde_json: `from_str`, `Value::get` and
/// `Value::as_i64`; functions of the text and key alone.
#[verifier::external_body]
fn json_member_i64_of(payload: &str, key: &str) -> (r: Option<Option<Result<i64, ()>>>)
    ensures
        r == json_member_i64(payload@, key@),
{
    let v: serde_json::Value = match serde_json::from_str(payload) {
        Ok(v) => v,
        Err(_) => return None,
    };
    if !v.is_object() {
        return None;
    }
    match v.get(key) {
        None => Some(None),
        Some(m) if m.is_null() => Some(None),
        Some(m) => match m.as_i64() {
            Some(x) => Some(Some(Ok(x))),
            None => Some(Some(Err(()))),
        },
    }
}

/// Relies on serde_json: `from_str`, `Value::get` and
/// `Value::as_u64`; functions of the text and key alone.
#[verifier::external_body]
fn json_member_u64_of(payload: &str, key: &str) -> (r: Option<Option<Result<u64, ()>>>)
    ensures
        r == json_member_u64(payload@, key@),
{
    let v: serde_json::Value = match serde_json::from_str(payload) {
        Ok(v) => v,
        Err(_) => return None,
    };
    if !v.is_object() {
        return None;
    }
    match v.get(key) {
        None => Some(None),
        Some(m) if m.is_null() => Some(None),
        Some(m) => match m.as_u64() {
            Some(x) => Some(Some(Ok(x))),
            None => Some(Some(Err(()))),
        },
    }
}

/// Relies on serde_json: `from_str`, `Value::get` twice and
/// `Value::as_u64`; functions of the text and keys alone.
#[verifier::external_body]
fn json_nested_u64_of(payload: &str, key: &str, inner: &str) -> (r: Option<
    Option<Result<u64, ()>>,
>)
    ensures
        r == json_nested_u64(payload@, key@, inner@),
{
    let v: serde_json::Value = match serde_json::from_str(payload) {
        Ok(v) => v,
        Err(_) => return None,
    };
    if !v.is_object() {
        return None;
    }
    match v.get(key) {
        None => Some(None),
        Some(m) if m.is_null() => Some(None),
        Some(m) => match m.get(inner).and_then(|x| x.as_u64()) {
            Some(x) => Some(Some(Ok(x))),
            None => Some(Some(Err(()))),
        },
    }
}

/// Whether two strings hold the same bytes.
fn str_bytes_eq(a: &str, b: &str) -> (r: bool)
    ensures
        r == (a.spec_bytes() == b.spec_bytes()),
{
    let ab = a.as_bytes();
    let bb = b.as_bytes();
    if ab.len() != bb.len() {
        proof {
            assert(a.spec_bytes() != b.spec_bytes());
        }
        return false;
    }
    let mut i: usize = 0;
    while i < ab.len()
        invariant
            i <= ab@.len(),
            ab@ == a.spec_bytes(),
            bb@ == b.spec_bytes(),
            ab@.len() == bb@.len(),
            forall|j: int| 0 <= j < i ==> ab@[j] == bb@[j],
        decreases ab@.len() - i,
    {
        if ab[i] != bb[i] {
            return false;
        }
        i = i + 1;
    }
    proof {
        assert(a.spec_bytes() =~= b.spec_bytes());
    }
    true
}

/// The command kind a name stands for.
pub open spec fn spec_command_kind(b: Seq<u8>) -> Option<CNCCommand> {
    if b == "collect".spec_bytes() {
        Some(CNCCommand::COLLECT)
    } else if b == "pause".spec_bytes() {
        Some(CNCCommand::PAUSE)
    } else if b == "shutdown".spec_bytes() {
        Some(CNCCommand::SHUTDOWN)
    } else if b == "reset".spec_bytes() {
        Some(CNCCommand::RESET)
    } else {
        None
    }
}

/// Maps a command name to its kind: exactly collect, pause, shutdown
/// and reset are known.
pub fn command_kind_of(s: &str) -> (r: Option<CNCCommand>)
    ensures
        r == spec_command_kind(s.spec_bytes()),
{
    if str_bytes_eq(s, "collect") {
        Some(CNCCommand::COLLECT)
    } else if str_bytes_eq(s, "pause") {
        Some(CNCCommand::PAUSE)
    } else if str_bytes_eq(s, "shutdown") {
        Some(CNCCommand::SHUTDOWN)
    } else if str_bytes_eq(s, "reset") {
        Some(CNCCommand::RESET)
    } else {
        None
    }
}

/// The command a document carries: its "command" member must be a
/// string naming one of the four kinds.
pub open spec fn spec_parse_command(s: Seq<char>) -> Option<CNCCommandMessage> {
    match json_member_str(s, "command"@) {
        Some(Some(Ok(name))) => match spec_command_kind(encode_utf8(name)) {
            Some(kind) => Some(CNCCommandMessage { command: kind }),
            None => None,
        },
        _ => None,
    }
}

/// Parses a command document: an object whose "command" member names
/// one of the four kinds.  Anything else yields nothing.
pub fn parse_cnc_command(payload: &str) -> (r: Option<CNCCommandMessage>)
    ensures
        r == spec_parse_command(payload@),
{
    match json_member_str_of(payload, "command") {
        Some(Some(Ok(name))) => match command_kind_of(name.as_str()) {
            Some(kind) => Some(CNCCommandMessage { command: kind }),
            None => None,
        },
        _ => None,
    }
}

/// The subfolder field a document carries, or `None` where the
/// document is rejected.
pub open spec fn spec_field_subfolder(s: Seq<char>) -> Option<Option<Seq<char>>> {
    match json_member_str(s, "event_subfolder"@) {
        Some(Some(Ok(v))) => Some(Some(v)),
        Some(None) => Some(None),
        _ => None,
    }
}

/// The threshold field a document carries, or `None` where the
/// document is rejected.
pub open spec fn spec_field_threshold(s: Seq<char>) -> Option<Option<i64>> {
    match json_member_i64(s, "stuck_data_threshold"@) {
        Some(Some(Ok(v))) => Some(Some(v)),
        Some(None) => Some(None),
        _ => None,
    }
}

/// The batch-size field a document carries, or `None` where the
/// document is rejected; a size beyond the machine's word is
/// rejected too.
pub open spec fn spec_field_size(s: Seq<char>) -> Option<Option<usize>> {
    match json_member_u64(s, "collection_size"@) {
        Some(Some(Ok(v))) => if v <= usize::MAX {
            Some(Some(v as usize))
        } else {
            None
        },
        Some(None) => Some(None),
        _ => None,
    }
}

/// The bluetooth field a document carries, or `None` where the
/// document is rejected.
pub open spec fn spec_field_bluetooth(s: Seq<char>) -> Option<Option<BluetoothConfig>> {
    match json_nested_u64(s, "bluetooth"@, "adapter_index"@) {
        Some(Some(Ok(v))) => if v <= usize::MAX {
            Some(Some(BluetoothConfig { adapter_index: v as usize }))
        } else {
            None
        },
        Some(None) => Some(None),
        _ => None,
    }
}

/// A configuration document is accepted when its "collecting" member
/// is a boolean and each optional member is absent, null, or of its
/// own type.
pub open spec fn spec_config_accepted(s: Seq<char>) -> bool {
    &&& json_member_bool(s, "collecting"@) matches Some(Some(Ok(_)))
    &&& spec_field_subfolder(s) is Some
    &&& spec_field_threshold(s) is Some
    &&& spec_field_size(s) is Some
    &&& spec_field_bluetooth(s) is Some
}

/// Parses a configuration document: an object whose "collecting"
/// member is a boolean; the other members are optional, and a member
/// of the wrong type rejects the whole document.
pub fn parse_collect_config(payload: &str) -> (r: Option<CollectConfig>)
    ensures
        match r {
            Some(c) => {
                &&& spec_config_accepted(payload@)
                &&& json_member_bool(payload@, "collecting"@) == Some(
                    Some(Ok::<bool, ()>(c.collecting)),
                )
                &&& crate::cnc::spec_opt_seq(c.event_subfolder) == spec_field_subfolder(
                    payload@,
                )->Some_0
                &&& Some(c.stuck_data_threshold) == spec_field_threshold(payload@)
                &&& Some(c.collection_size) == spec_field_size(payload@)
                &&& Some(c.bluetooth) == spec_field_bluetooth(payload@)
            },
            None => !spec_config_accepted(payload@),
        },
{
    let collecting = match json_member_bool_of(payload, "collecting") {
        Some(Some(Ok(b))) => b,
        _ => {
            return None;
        },
    };
    let event_subfolder = match json_member_str_of(payload, "event_subfolder") {
        Some(Some(Ok(s))) => Some(s),
        Some(None) => None,
        _ => {
            return None;
        },
    };
    let stuck_data_threshold = match json_member_i64_of(payload, "stuck_data_threshold") {
        Some(Some(Ok(t))) => Some(t),
        Some(None) => None,
        _ => {
            return None;
        },
    };
    let collection_size = match json_member_u64_of(payload, "collection_size") {
        Some(Some(Ok(n))) => {
            if n <= usize::MAX as u64 {
                Some(n as usize)
            } else {
                return None;
            }
        },
        Some(None) => None,
        _ => {
            return None;
        },
    };
    let bluetooth = match json_nested_u64_of(payload, "bluetooth", "adapter_index") {
        Some(Some(Ok(n))) => {
            if n <= usize::MAX as u64 {
                Some(BluetoothConfig { adapter_index: n as usize })
            } else {
                return None;
            }
        },
        Some(None) => None,
        _ => {
            return None;
        },
    };
    Some(
        CollectConfig {
            collecting,
            event_subfolder,
            stuck_data_threshold,
            collection_size,
            bluetooth,
        },
    )
}

} // verus!
