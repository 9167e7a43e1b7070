//! Recognition of Ruuvi advertising frames.
//!
//! A manufacturer-data buffer is a Ruuvi frame exactly when its first two
//! bytes are 0x99 0x04; the third byte is the format tag, and tag 5
//! dispatches to the v5 codec.  A frame with another tag is reported as
//! unsupported, and a Ruuvi frame too short to carry its record is
//! malformed; both are dropped by the caller, one frame at a time.

use vstd::prelude::*;
use vstd::slice::slice_subrange;

use crate::ruuvi::{spec_decode, RuuviTagDataFormat5, V5_CODEC_LEN};

verus! {

/// The format tag that selects the v5 codec.
pub const V5_FORMAT_TAG: u8 = 5;

/// What a manufacturer-data buffer turned out to hold.
#[derive(Debug, Clone, Copy, PartialEq, Eq, Structural)]
pub enum FrameOutcome {
    /// Not a Ruuvi frame: the decoder is not invoked at all.
    NotRuuvi,
    /// A Ruuvi frame with a format tag other than 5.
    UnsupportedFormat(u8),
    /// A Ruuvi frame too short for its format tag or record.
    Malformed,
    /// A complete v5 record.
    Beacon(RuuviTagDataFormat5),
}

/// The first two bytes name Ruuvi (manufacturer id 0x0499, little-endian
/// on air).
pub open spec fn spec_is_ruuvi(b: Seq<u8>) -> bool {
    b.len() >= 2 && b[0] == 0x99 && b[1] == 0x04
}

/// The outcome owed for a manufacturer-data buffer.
pub open spec fn spec_classify(b: Seq<u8>) -> FrameOutcome {
    if !spec_is_ruuvi(b) {
        FrameOutcome::NotRuuvi
    } else if b.len() < 3 {
        FrameOutcome::Malformed
    } else if b[2] != V5_FORMAT_TAG {
        FrameOutcome::UnsupportedFormat(b[2])
    } else if b.len() < 3 + V5_CODEC_LEN {
        FrameOutcome::Malformed
    } else {
        FrameOutcome::Beacon(spec_decode(b.subrange(3, b.len() as int)))
    }
}

/// Sorts a manufacturer-data buffer into the outcome owed for it.
pub fn classify_frame(data: &[u8]) -> (r: FrameOutcome)
    ensures
        r == spec_classify(data@),
{
    if data.len() < 2 || data[0] != 0x99 || data[1] != 0x04 {
        return FrameOutcome::NotRuuvi;
    }
    if data.len() < 3 {
        return FrameOutcome::Malformed;
    }
    if data[2] != V5_FORMAT_TAG {
        return FrameOutcome::UnsupportedFormat(data[2]);
    }
    if data.len() < 3 + V5_CODEC_LEN {
        return FrameOutcome::Malformed;
    }
    let payload = slice_subrange(data, 3, data.len());
    match RuuviTagDataFormat5::decode(payload) {
        Ok(t) => FrameOutcome::Beacon(t),
        Err(_) => {
            proof {
                assert(payload@.len() >= V5_CODEC_LEN);
            }
            FrameOutcome::Malformed
        },
    }
}

} // verus!
