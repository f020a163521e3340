use gpu_shell::compute::decode_records;
use gpu_shell::compute::BYTES_PER_PIXEL;
use gpu_shell::compute::encode_records;
use gpu_shell::compute::input_buffer_usage;
use gpu_shell::compute::output_buffer_usage;
use gpu_shell::compute::storage_binding;
use gpu_shell::compute::ComputeRGBA;
use gpu_shell::compute::Pixel;
use gpu_shell::state::Error;
use gpu_shell::state::Negotiation;

fn px(r: f32, g: f32, b: f32, a: f32) -> Pixel {
    Pixel { r: r.to_bits(), g: g.to_bits(), b: b.to_bits(), a: a.to_bits() }
}

fn good_negotiation() -> Negotiation {
    Negotiation { adapter_available: true, device_error: None }
}

#[test]
fn three_records_round_trip_through_device_memory() {
    let records = vec![
        px(1.0, 0.0, 0.0, 1.0),
        px(0.0, 1.0, 0.0, 1.0),
        px(0.0, 0.0, 1.0, 1.0),
    ];
    let mut session = ComputeRGBA::new(records.clone(), good_negotiation()).unwrap();
    session.run_operation();
    let out = session.slice_output(true).unwrap();
    assert_eq!(out.len(), 3);
    assert_eq!(out, records);
}

#[test]
fn round_trip_preserves_order_for_various_lengths() {
    for n in [0usize, 1, 2, 7, 33] {
        let records: Vec<Pixel> = (0..n)
            .map(|i| Pixel { r: i as u32, g: !(i as u32), b: 0, a: u32::MAX })
            .collect();
        let mut session = ComputeRGBA::new(records.clone(), good_negotiation()).unwrap();
        session.run_operation();
        let out = session.slice_output(true).unwrap();
        assert_eq!(out, records);
    }
}

#[test]
fn dispatch_is_one_workgroup_per_record() {
    for n in [0usize, 1, 5, 64] {
        let records = vec![px(0.25, 0.5, 0.75, 1.0); n];
        let mut session = ComputeRGBA::new(records, good_negotiation()).unwrap();
        let commands = session.run_operation();
        assert_eq!(commands.dispatch.x, n as u32);
        assert_eq!(commands.dispatch.y, 1);
        assert_eq!(commands.dispatch.z, 1);
        assert_eq!(commands.bind_slot, 0);
        assert_eq!(commands.copy.src_offset, 0);
        assert_eq!(commands.copy.dst_offset, 0);
        assert_eq!(commands.copy.size, 16 * n as u64);
    }
}

#[test]
fn failed_mapping_yields_no_result() {
    let mut session = ComputeRGBA::new(vec![px(1.0, 1.0, 1.0, 1.0)], good_negotiation()).unwrap();
    session.run_operation();
    assert!(session.slice_output(false).is_none());
}

#[test]
fn read_back_before_any_dispatch_is_zeroed() {
    let session = ComputeRGBA::new(vec![px(1.0, 0.5, 0.25, 1.0); 3], good_negotiation()).unwrap();
    let out = session.slice_output(true).unwrap();
    assert_eq!(out, vec![Pixel { r: 0, g: 0, b: 0, a: 0 }; 3]);
}

#[test]
fn missing_adapter_fails_construction() {
    let r = ComputeRGBA::new(
        vec![px(1.0, 0.0, 0.0, 1.0)],
        Negotiation { adapter_available: false, device_error: None },
    );
    assert_eq!(r.unwrap_err(), Error::AdapterRequestError);
}

#[test]
fn device_rejection_fails_construction_with_its_cause() {
    let r = ComputeRGBA::new(
        vec![px(1.0, 0.0, 0.0, 1.0)],
        Negotiation { adapter_available: true, device_error: Some(String::from("lost")) },
    );
    assert_eq!(r.unwrap_err(), Error::DeviceRequestError(String::from("lost")));
}

#[test]
fn record_layout_matches_the_packed_float_layout() {
    let records = vec![px(1.0, 0.0, 0.0, 1.0), px(0.25, -2.5, 1e20, -0.0)];
    let bytes = encode_records(&records);
    let floats: [f32; 8] = [1.0, 0.0, 0.0, 1.0, 0.25, -2.5, 1e20, -0.0];
    let expected: &[u8] = bytemuck::cast_slice(&floats);
    assert_eq!(bytes.as_slice(), expected);
}

#[test]
fn encode_then_decode_is_the_identity() {
    let records = vec![
        Pixel { r: 0, g: 1, b: 2, a: 3 },
        Pixel { r: u32::MAX, g: 0x8000_0000, b: 0x7fff_ffff, a: 0xdead_beef },
        px(3.5, -1.5, 0.125, 255.0),
    ];
    let bytes = encode_records(&records);
    assert_eq!(bytes.len(), 3 * BYTES_PER_PIXEL);
    assert_eq!(decode_records(&bytes), records);
}

#[test]
fn single_record_encodes_little_endian() {
    let bytes = encode_records(&vec![Pixel {
        r: 0x0403_0201,
        g: 0x0807_0605,
        b: 0x0c0b_0a09,
        a: 0x100f_0e0d,
    }]);
    let expected: Vec<u8> = (1..=16).collect();
    assert_eq!(bytes, expected);
}

#[test]
fn buffer_usages_and_binding_match_the_pipeline() {
    let input = input_buffer_usage();
    assert!(input.map_read && input.copy_src && input.copy_dst);
    let output = output_buffer_usage();
    assert!(output.map_read && output.copy_dst && !output.copy_src);
    let binding = storage_binding();
    assert_eq!(binding.slot, 0);
    assert!(!binding.read_only);
}
