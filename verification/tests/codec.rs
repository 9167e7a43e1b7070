use ruuvi_gateway::frame::{classify_frame, FrameOutcome};
use ruuvi_gateway::mac::MacAddress;
use ruuvi_gateway::ruuvi::{DecodeError, RuuviTagDataFormat5};

fn hx(s: &str) -> Vec<u8> {
    let b = s.as_bytes();
    let mut out = Vec::new();
    let mut i = 0;
    while i + 1 < b.len() {
        let d = |c: u8| -> u8 {
            match c {
                b'0'..=b'9' => c - b'0',
                b'a'..=b'f' => c - b'a' + 10,
                b'A'..=b'F' => c - b'A' + 10,
                _ => panic!("not hex"),
            }
        };
        out.push(d(b[i]) * 16 + d(b[i + 1]));
        i += 2;
    }
    out
}

fn view(payload: &[u8]) -> RuuviTagDataFormat5 {
    RuuviTagDataFormat5::decode(payload).unwrap()
}

#[test]
fn valid_values() {
    let hex_string = "0512FC5394C37C0004FFFC040CAC364200CDCBB8334C884F";
    let data = hx(hex_string);
    let beacon = view(&data[1..]);
    assert_eq!(beacon.temperature_millicelsius() as f32 / 1000.0, 24.3);
    assert_eq!((beacon.pressure_pascal() as f32) / 100.0, 1000.44);
    assert_eq!(beacon.humidity_micropercent() as f32 / 1_000_000.0, 53.49);
    assert_eq!(beacon.get_accelaration().on_x_axis as f32 / 1000.0, 0.004);
    assert_eq!(beacon.get_accelaration().on_y_axis as f32 / 1000.0, -0.004);
    assert_eq!(beacon.get_accelaration().on_z_axis as f32 / 1000.0, 1.036);
    assert_eq!(beacon.get_tx_power(), 4);
    assert_eq!(beacon.get_battery(), 2977);
    assert_eq!(beacon.get_movement_counter(), 66);
    assert_eq!(beacon.get_measurement_sequence_number(), 205);
}

#[test]
fn min_values() {
    let hex_string = "058001000000008001800180010000000000CBB8334C884F";
    let data = hx(hex_string);
    let beacon = view(&data[1..]);
    assert_eq!(beacon.temperature_millicelsius() as f32 / 1000.0, -163.835);
    assert_eq!((beacon.pressure_pascal() as f32) / 100.0, 500.0);
    assert_eq!(beacon.humidity_micropercent() as f32 / 1_000_000.0, 0.000);
    assert_eq!(beacon.get_accelaration().on_x_axis as f32 / 1000.0, -32.767);
    assert_eq!(beacon.get_accelaration().on_y_axis as f32 / 1000.0, -32.767);
    assert_eq!(beacon.get_accelaration().on_z_axis as f32 / 1000.0, -32.767);
    assert_eq!(beacon.get_tx_power(), -40);
    assert_eq!(beacon.get_battery(), 1600);
    assert_eq!(beacon.get_movement_counter(), 0);
    assert_eq!(beacon.get_measurement_sequence_number(), 0);
}

#[test]
fn max_values() {
    let hex_string = "057FFFFFFEFFFE7FFF7FFF7FFFFFDEFEFFFECBB8334C884F";
    let data = hx(hex_string);
    let beacon = view(&data[1..]);
    assert_eq!(beacon.temperature_millicelsius() as f32 / 1000.0, 163.835);
    assert_eq!((beacon.pressure_pascal() as f32) / 100.0, 1155.34);
    assert_eq!(beacon.humidity_micropercent() as f32 / 1_000_000.0, 163.8350);
    assert_eq!(beacon.get_accelaration().on_x_axis as f32 / 1000.0, 32.767);
    assert_eq!(beacon.get_accelaration().on_y_axis as f32 / 1000.0, 32.767);
    assert_eq!(beacon.get_accelaration().on_z_axis as f32 / 1000.0, 32.767);
    assert_eq!(beacon.get_tx_power(), 20);
    assert_eq!(beacon.get_battery(), 3646);
    assert_eq!(beacon.get_movement_counter(), 254);
    assert_eq!(beacon.get_measurement_sequence_number(), 65534);
}

#[test]
fn codec_round_trip_bit_for_bit() {
    let data = hx("12FC5394C37C0004FFFC040CAC364200CD");
    let beacon = view(&data);
    let encoded = beacon.encode();
    assert_eq!(encoded, data[..17].to_vec());
    let again = view(&encoded);
    assert_eq!(again, beacon);
}

#[test]
fn codec_round_trip_extremes() {
    for hex in [
        "8001000000008001800180010000000000",
        "7FFFFFFEFFFE7FFF7FFF7FFFFFDEFEFFFE",
    ] {
        let data = hx(hex);
        let beacon = view(&data);
        assert_eq!(view(&beacon.encode()), beacon);
    }
}

#[test]
fn codec_linear_scaling() {
    // Three samples per field: the raw-to-scaled maps are linear with
    // the documented constant factors.
    let mk = |t_hi: u8, t_lo: u8, h_hi: u8, h_lo: u8, p_hi: u8, p_lo: u8| {
        let mut payload = vec![t_hi, t_lo, h_hi, h_lo, p_hi, p_lo];
        payload.extend_from_slice(&[0u8; 11]);
        view(&payload)
    };
    let samples = [mk(0, 100, 0, 100, 0, 100), mk(1, 44, 1, 44, 1, 44), mk(1, 244, 1, 244, 1, 244)];
    for b in &samples {
        assert_eq!(b.temperature_millicelsius() as i64, 5 * (b.encode()[0] as i64 * 256 + b.encode()[1] as i64));
        assert_eq!(b.humidity_micropercent() as i64, 2500 * (b.encode()[2] as i64 * 256 + b.encode()[3] as i64));
        assert_eq!(b.pressure_pascal() as i64, 50000 + (b.encode()[4] as i64 * 256 + b.encode()[5] as i64));
    }
    // Linearity check across the three samples for the temperature map.
    let f = |b: &RuuviTagDataFormat5| b.temperature_millicelsius() as i64;
    assert_eq!(f(&samples[2]) - f(&samples[1]), f(&samples[1]) - f(&samples[0]));
}

#[test]
fn short_payload_is_rejected() {
    let data = hx("12FC5394");
    assert_eq!(RuuviTagDataFormat5::decode(&data), Err(DecodeError::ShortPayload));
}

#[test]
fn frame_recognition() {
    // Not a Ruuvi frame: the decoder is never invoked.
    assert_eq!(classify_frame(&[0x4c, 0x00, 0x05]), FrameOutcome::NotRuuvi);
    assert_eq!(classify_frame(&[]), FrameOutcome::NotRuuvi);
    assert_eq!(classify_frame(&[0x99]), FrameOutcome::NotRuuvi);

    // A v5 frame with a full payload decodes.
    let mut frame = vec![0x99, 0x04, 0x05];
    frame.extend_from_slice(&hx("12FC5394C37C0004FFFC040CAC364200CDCBB8334C884F"));
    match classify_frame(&frame) {
        FrameOutcome::Beacon(b) => assert_eq!(b.get_battery(), 2977),
        other => panic!("expected a beacon, got {:?}", other),
    }

    // Another format tag is reported as unsupported, exactly once per
    // frame, and is not decoded.
    let mut other = vec![0x99, 0x04, 0x03];
    other.extend_from_slice(&[0u8; 24]);
    assert_eq!(classify_frame(&other), FrameOutcome::UnsupportedFormat(3));

    // A v5 frame too short for its record is malformed.
    assert_eq!(classify_frame(&[0x99, 0x04, 0x05, 0x01, 0x02]), FrameOutcome::Malformed);
}

#[test]
fn mac_canonical_form() {
    let m = MacAddress::from_bytes(&[0x01, 0x23, 0x45, 0x67, 0x89, 0xab]);
    assert_eq!(m.to_canonical_upper(), "01-23-45-67-89-AB");
    let m2 = MacAddress::from_bytes(&[0xcb, 0xb8, 0x33, 0x4c, 0x88, 0x4f]);
    assert_eq!(m2.to_canonical_upper(), "CB-B8-33-4C-88-4F");
    assert_eq!(MacAddress::from_bits(0x0123456789ab).unwrap().bits(), m.bits());
    assert!(MacAddress::from_bits(0x1000000000000).is_none());
}
