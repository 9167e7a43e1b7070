//! RuuviTag data format 5 payload codec.
//!
//! A v5 payload (the bytes after the one-byte format tag) carries nine
//! big-endian fields at fixed offsets; the first 17 bytes hold them all,
//! and anything after (the sender's MAC) is not part of the record.
//! Fields are kept as the raw integers of the wire format; the published
//! scale factors (temperature 1/200 degree C, humidity 1/400 %, pressure
//! 1/100 hPa above 500 hPa) are exposed as exact integer conversions.

use vstd::prelude::*;

verus! {

/// Number of payload bytes the codec reads.
pub const V5_CODEC_LEN: usize = 17;

/// Triaxial acceleration in milli-G.
#[derive(Debug, Clone, Copy, PartialEq, Eq, Structural)]
pub struct RuuviTagAccelaration {
    pub on_x_axis: i16,
    pub on_y_axis: i16,
    pub on_z_axis: i16,
}

/// One decoded v5 record, raw wire integers.
#[derive(Debug, Clone, Copy, PartialEq, Eq, Structural)]
pub struct RuuviTagDataFormat5 {
    pub temperature: i16,
    pub humidity: u16,
    pub atmospheric_pressure: u16,
    pub acceleration_x: i16,
    pub acceleration_y: i16,
    pub acceleration_z: i16,
    pub powerinfo: u16,
    pub movement_counter: u8,
    pub measurement_sequence_number: u16,
}

/// Decoding can only fail on an input shorter than the 17 bytes read.
#[derive(Debug, Clone, Copy, PartialEq, Eq, Structural)]
pub enum DecodeError {
    ShortPayload,
}

/// The big-endian 16-bit word at offset `i`.
pub open spec fn spec_u16_at(b: Seq<u8>, i: int) -> int {
    b[i] * 256 + b[i + 1]
}

/// A 16-bit word reinterpreted as a two's-complement signed value.
pub open spec fn spec_i16_of(w: int) -> int {
    if w < 32768 {
        w
    } else {
        w - 65536
    }
}

/// The record held in the first 17 bytes of a v5 payload.
pub open spec fn spec_decode(b: Seq<u8>) -> RuuviTagDataFormat5 {
    RuuviTagDataFormat5 {
        temperature: spec_i16_of(spec_u16_at(b, 0)) as i16,
        humidity: spec_u16_at(b, 2) as u16,
        atmospheric_pressure: spec_u16_at(b, 4) as u16,
        acceleration_x: spec_i16_of(spec_u16_at(b, 6)) as i16,
        acceleration_y: spec_i16_of(spec_u16_at(b, 8)) as i16,
        acceleration_z: spec_i16_of(spec_u16_at(b, 10)) as i16,
        powerinfo: spec_u16_at(b, 12) as u16,
        movement_counter: b[14],
        measurement_sequence_number: spec_u16_at(b, 15) as u16,
    }
}

/// The 17 bytes that encode a record.
pub open spec fn spec_encode(t: RuuviTagDataFormat5) -> Seq<u8> {
    spec_be_bytes(spec_u16_of_i16(t.temperature as int))
        + spec_be_bytes(t.humidity as int)
        + spec_be_bytes(t.atmospheric_pressure as int)
        + spec_be_bytes(spec_u16_of_i16(t.acceleration_x as int))
        + spec_be_bytes(spec_u16_of_i16(t.acceleration_y as int))
        + spec_be_bytes(spec_u16_of_i16(t.acceleration_z as int))
        + spec_be_bytes(t.powerinfo as int)
        + seq![t.movement_counter]
        + spec_be_bytes(t.measurement_sequence_number as int)
}

/// A signed value reinterpreted as a 16-bit word.
pub open spec fn spec_u16_of_i16(v: int) -> int {
    if v >= 0 {
        v
    } else {
        v + 65536
    }
}

/// The two big-endian bytes of a 16-bit word.
pub open spec fn spec_be_bytes(w: int) -> Seq<u8> {
    seq![(w / 256) as u8, (w % 256) as u8]
}

fn read_u16_at(payload: &[u8], i: usize) -> (w: u16)
    requires
        i + 2 <= payload@.len(),
    ensures
        w == spec_u16_at(payload@, i as int),
{
    let hi = payload[i];
    let lo = payload[i + 1];
    (hi as u16) * 256 + (lo as u16)
}

fn read_i16_at(payload: &[u8], i: usize) -> (v: i16)
    requires
        i + 2 <= payload@.len(),
    ensures
        v == spec_i16_of(spec_u16_at(payload@, i as int)),
{
    let w = read_u16_at(payload, i);
    if w < 32768 {
        w as i16
    } else {
        (w as i32 - 65536) as i16
    }
}

impl RuuviTagDataFormat5 {
    /// Reads a record out of a v5 payload (the bytes after the format
    /// tag).  Succeeds exactly when at least 17 bytes are given; bytes
    /// beyond the 17th are ignored.
    pub fn decode(payload: &[u8]) -> (r: Result<RuuviTagDataFormat5, DecodeError>)
        ensures
            payload@.len() >= V5_CODEC_LEN ==> r == Ok::<RuuviTagDataFormat5, DecodeError>(
                spec_decode(payload@),
            ),
            payload@.len() < V5_CODEC_LEN ==> r == Err::<RuuviTagDataFormat5, DecodeError>(
                DecodeError::ShortPayload,
            ),
    {
        if payload.len() < V5_CODEC_LEN {
            return Err(DecodeError::ShortPayload);
        }
        Ok(RuuviTagDataFormat5 {
            temperature: read_i16_at(payload, 0),
            humidity: read_u16_at(payload, 2),
            atmospheric_pressure: read_u16_at(payload, 4),
            acceleration_x: read_i16_at(payload, 6),
            acceleration_y: read_i16_at(payload, 8),
            acceleration_z: read_i16_at(payload, 10),
            powerinfo: read_u16_at(payload, 12),
            movement_counter: payload[14],
            measurement_sequence_number: read_u16_at(payload, 15),
        })
    }

    /// Writes the 17 codec bytes back out.
    pub fn encode(&self) -> (r: Vec<u8>)
        ensures
            r@ == spec_encode(*self),
            r@.len() == V5_CODEC_LEN,
    {
        let mut out: Vec<u8> = Vec::new();
        push_be_i16(&mut out, self.temperature);
        push_be_u16(&mut out, self.humidity);
        push_be_u16(&mut out, self.atmospheric_pressure);
        push_be_i16(&mut out, self.acceleration_x);
        push_be_i16(&mut out, self.acceleration_y);
        push_be_i16(&mut out, self.acceleration_z);
        push_be_u16(&mut out, self.powerinfo);
        out.push(self.movement_counter);
        push_be_u16(&mut out, self.measurement_sequence_number);
        proof {
            assert(out@ =~= spec_encode(*self));
        }
        out
    }

    /// Temperature in thousandths of a degree C: the raw field counts
    /// steps of 1/200 degree, so the map is multiplication by 5.
    pub fn temperature_millicelsius(&self) -> (r: i32)
        ensures
            r == 5 * self.temperature,
    {
        (self.temperature as i32) * 5
    }

    /// Relative humidity in millionths of a percent: steps of 1/400 %,
    /// so the map is multiplication by 2500.
    pub fn humidity_micropercent(&self) -> (r: u32)
        ensures
            r == 2500 * self.humidity,
    {
        (self.humidity as u32) * 2500
    }

    /// Pressure in pascal: the raw field counts pascal above 50000.
    pub fn pressure_pascal(&self) -> (r: u32)
        ensures
            r == self.atmospheric_pressure + 50000,
    {
        (self.atmospheric_pressure as u32) + 50000
    }

    pub fn get_accelaration(&self) -> (r: RuuviTagAccelaration)
        ensures
            r.on_x_axis == self.acceleration_x,
            r.on_y_axis == self.acceleration_y,
            r.on_z_axis == self.acceleration_z,
    {
        RuuviTagAccelaration {
            on_x_axis: self.acceleration_x,
            on_y_axis: self.acceleration_y,
            on_z_axis: self.acceleration_z,
        }
    }

    /// Battery voltage in mV: the upper 11 bits of the power field count
    /// mV above 1600.
    pub fn get_battery(&self) -> (r: u16)
        ensures
            r == self.powerinfo / 32 + 1600,
    {
        self.powerinfo / 32 + 1600
    }

    /// TX power in dBm: the lower 5 bits n of the power field encode
    /// 2n - 40.
    pub fn get_tx_power(&self) -> (r: i8)
        ensures
            r == 2 * (self.powerinfo % 32) - 40,
    {
        ((self.powerinfo % 32) as i32 * 2 - 40) as i8
    }

    pub fn get_movement_counter(&self) -> (r: u8)
        ensures
            r == self.movement_counter,
    {
        self.movement_counter
    }

    pub fn get_measurement_sequence_number(&self) -> (r: u16)
        ensures
            r == self.measurement_sequence_number,
    {
        self.measurement_sequence_number
    }
}

fn push_be_u16(out: &mut Vec<u8>, w: u16)
    ensures
        final(out)@ == old(out)@ + spec_be_bytes(w as int),
{
    out.push((w / 256) as u8);
    out.push((w % 256) as u8);
    proof {
        assert(out@ =~= old(out)@ + spec_be_bytes(w as int));
    }
}

fn push_be_i16(out: &mut Vec<u8>, v: i16)
    ensures
        final(out)@ == old(out)@ + spec_be_bytes(spec_u16_of_i16(v as int)),
{
    let w: u16 = if v >= 0 {
        v as u16
    } else {
        (v as i32 + 65536) as u16
    };
    push_be_u16(out, w);
}

/// Round trip: decoding what a record encodes gives the record back,
/// bit for bit over every field.
pub proof fn lemma_codec_round_trip(t: RuuviTagDataFormat5)
    ensures
        spec_encode(t).len() == V5_CODEC_LEN,
        spec_decode(spec_encode(t)) == t,
{
    let b = spec_encode(t);
    assert(spec_decode(b) =~= t);
}

} // verus!
