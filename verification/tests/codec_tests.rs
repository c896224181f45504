use rand::Rng;
use raptorq::Error;
use raptorq::EncodingPacket;
use raptorq::ObjectTransmissionInformation;
use raptorq::PayloadId;
use raptorq::SystematicConstants;
use raptorq::SystematicRow;
use raptorq::deg;
use raptorq::intermediate_tuple;
use raptorq::partition;

fn mock_tables() -> SystematicConstants {
    let mut v0: Vec<u32> = Vec::new();
    let mut v1: Vec<u32> = Vec::new();
    let mut v2: Vec<u32> = Vec::new();
    let mut v3: Vec<u32> = Vec::new();
    for i in 0..256u32 {
        v0.push(i.wrapping_mul(2654435761).wrapping_add(0x12345678));
        v1.push(i.wrapping_mul(2246822519).wrapping_add(0x9E3779B9));
        v2.push(i.wrapping_mul(3266489917).wrapping_add(0x85EBCA6B));
        v3.push(i.wrapping_mul(668265263).wrapping_add(0xC2B2AE35));
    }
    let rows = vec![
        SystematicRow { kprime: 10, j: 254, w: 17, p1: 11 },
        SystematicRow { kprime: 100, j: 176, w: 149, p1: 31 },
        SystematicRow { kprime: 1000, j: 68, w: 1091, p1: 59 },
        SystematicRow { kprime: 5000, j: 216, w: 5231, p1: 121 },
        SystematicRow { kprime: 56403, j: 446, w: 57291, p1: 1021 },
    ];
    SystematicConstants::new(v0, v1, v2, v3, rows).unwrap()
}

#[test]
fn payload_id_serialization() {
    let payload_id = PayloadId::new(
        rand::thread_rng().gen(),
        rand::thread_rng().gen_range(0..256 * 256 * 256),
    )
    .unwrap();
    let deserialized = PayloadId::deserialize(&payload_id.serialize());
    assert_eq!(deserialized, payload_id);
}

#[test]
fn encoding_packet_serialization() {
    let payload_id = PayloadId::new(
        rand::thread_rng().gen(),
        rand::thread_rng().gen_range(0..256 * 256 * 256),
    )
    .unwrap();
    let packet = EncodingPacket::new(payload_id, vec![rand::thread_rng().gen()]);
    let deserialized = EncodingPacket::deserialize(&packet.serialize());
    assert_eq!(deserialized, packet);
}

#[test]
fn oti_serialization() {
    let constants = mock_tables();
    loop {
        let transfer_length: u64 =
            rand::thread_rng().gen_range(0..256u64 * 256 * 256 * 256 * 256);
        let max_packet_size: u16 = rand::thread_rng().gen();
        if let Ok(oti) = ObjectTransmissionInformation::with_defaults(
            transfer_length,
            max_packet_size,
            &constants,
        ) {
            let deserialized = ObjectTransmissionInformation::deserialize(&oti.serialize());
            assert_eq!(deserialized, oti);
            return;
        }
    }
}

#[test]
fn payload_id_wire_bytes() {
    let payload_id = PayloadId::new(7, 0x010203).unwrap();
    assert_eq!(payload_id.serialize(), [7, 1, 2, 3]);
    assert_eq!(payload_id.source_block_number(), 7);
    assert_eq!(payload_id.encoding_symbol_id(), 0x010203);
}

#[test]
fn payload_id_boundary() {
    assert_eq!(PayloadId::new(3, 16777216), Err(Error::SymbolIdTooLarge));
    let payload_id = PayloadId::new(3, 16777215).unwrap();
    let deserialized = PayloadId::deserialize(&payload_id.serialize());
    assert_eq!(deserialized, payload_id);
    assert_eq!(deserialized.encoding_symbol_id(), 16777215);
}

#[test]
fn encoding_packet_accessors() {
    let payload_id = PayloadId::new(9, 513).unwrap();
    let packet = EncodingPacket::new(payload_id.clone(), vec![1, 2, 3, 4, 5]);
    assert_eq!(packet.payload_id(), payload_id);
    assert_eq!(packet.data(), &vec![1, 2, 3, 4, 5]);
    assert_eq!(packet.serialize(), vec![9, 0, 2, 1, 1, 2, 3, 4, 5]);
}

#[test]
fn oti_wire_bytes() {
    let oti = ObjectTransmissionInformation::new(0x0102030405, 0x0608, 9, 0x0A0B, 8).unwrap();
    assert_eq!(oti.serialize(), [1, 2, 3, 4, 5, 0, 6, 8, 9, 10, 11, 8]);
    assert_eq!(oti.transfer_length(), 0x0102030405);
    assert_eq!(oti.symbol_size(), 0x0608);
    assert_eq!(oti.source_blocks(), 9);
    assert_eq!(oti.sub_blocks(), 0x0A0B);
    assert_eq!(oti.symbol_alignment(), 8);
    let deserialized = ObjectTransmissionInformation::deserialize(&oti.serialize());
    assert_eq!(deserialized, oti);
}

#[test]
fn oti_boundary() {
    assert!(ObjectTransmissionInformation::new(946270874880, 8, 1, 1, 8).is_ok());
    assert_eq!(
        ObjectTransmissionInformation::new(946270874881, 8, 1, 1, 8),
        Err(Error::TransferLengthTooLarge)
    );
}

#[test]
fn oti_alignment_error() {
    assert_eq!(
        ObjectTransmissionInformation::new(100, 9, 1, 1, 8),
        Err(Error::SymbolSizeNotAligned)
    );
}

#[test]
fn partition_example() {
    assert_eq!(partition(10, 3), (4, 3, 1, 2));
    let (il, is, jl, js) = partition(10, 3);
    assert_eq!(jl * il + js * is, 10);
}

#[test]
fn partition_edges() {
    assert_eq!(partition(0, 5), (0, 0, 0, 5));
    assert_eq!(partition(7, 1), (7, 7, 0, 1));
    assert_eq!(partition(12, 4), (3, 3, 0, 4));
    for i in 0..50u32 {
        for j in 1..20u32 {
            let (il, is, jl, js) = partition(i, j);
            assert_eq!(jl * il + js * is, i);
            assert!(il == is || il == is + 1);
        }
    }
}

#[test]
fn deg_exact_values() {
    assert_eq!(deg(0, 32), 1);
    assert_eq!(deg(5242, 32), 1);
    assert_eq!(deg(5243, 32), 2);
    assert_eq!(deg(529531, 32), 3);
    assert_eq!(deg(1048575, 32), 30);
    assert_eq!(deg(1048575, 10), 8);
    assert_eq!(deg(0, 2), 0);
}

#[test]
fn deg_monotone_and_capped() {
    let w = 100;
    let mut previous = 0;
    for v in (0..1048576u32).step_by(997) {
        let d = deg(v, w);
        assert!(d >= previous);
        assert!(d <= w - 2);
        previous = d;
    }
    assert_eq!(deg(1048575, w), 30);
}

#[test]
fn tuple_determinism() {
    let constants = mock_tables();
    let first = intermediate_tuple(&constants, 1000, 12345);
    let second = intermediate_tuple(&constants, 1000, 12345);
    assert_eq!(first, second);
    let fresh = mock_tables();
    assert_eq!(intermediate_tuple(&fresh, 1000, 12345), first);
}

#[test]
fn tuple_ranges() {
    let constants = mock_tables();
    for x in 0..200u32 {
        let (d, a, b, d1, a1, b1) = intermediate_tuple(&constants, 100, x);
        let w = 149;
        let p1 = 31;
        assert!(d <= w - 2);
        assert!(1 <= a && a <= w - 1);
        assert!(b < w);
        assert!(d1 == 2 || d1 == 3);
        assert!(1 <= a1 && a1 <= p1 - 1);
        assert!(b1 < p1);
    }
}

#[test]
fn constants_lookup() {
    let constants = mock_tables();
    assert_eq!(constants.lookup(5).unwrap().kprime, 10);
    assert_eq!(constants.lookup(10).unwrap().kprime, 10);
    assert_eq!(constants.lookup(11).unwrap().kprime, 100);
    assert_eq!(constants.lookup(56403).unwrap().kprime, 56403);
    assert_eq!(constants.lookup(56404), None);
}

#[test]
fn constants_validation() {
    let good = mock_tables();
    assert_eq!(good.rand(123456789, 0, 7) < 7, true);
    let short: Vec<u32> = vec![1, 2, 3];
    let full: Vec<u32> = (0..256u32).collect();
    let row = SystematicRow { kprime: 10, j: 254, w: 17, p1: 11 };
    assert!(matches!(
        SystematicConstants::new(short, full.clone(), full.clone(), full.clone(), vec![row]),
        Err(Error::MalformedConstants)
    ));
    let none: Vec<SystematicRow> = Vec::new();
    assert!(matches!(
        SystematicConstants::new(full.clone(), full.clone(), full.clone(), full.clone(), none),
        Err(Error::MalformedConstants)
    ));
    let unsorted = vec![
        SystematicRow { kprime: 100, j: 1, w: 5, p1: 3 },
        SystematicRow { kprime: 10, j: 1, w: 5, p1: 3 },
    ];
    assert!(matches!(
        SystematicConstants::new(full.clone(), full.clone(), full.clone(), full.clone(), unsorted),
        Err(Error::MalformedConstants)
    ));
    let tiny_w = vec![SystematicRow { kprime: 10, j: 1, w: 1, p1: 3 }];
    assert!(matches!(
        SystematicConstants::new(full.clone(), full.clone(), full.clone(), full, tiny_w),
        Err(Error::MalformedConstants)
    ));
}

#[test]
fn rand_is_deterministic() {
    let constants = mock_tables();
    for y in [0u32, 1, 77, 4096, u32::MAX] {
        for i in 0..6u32 {
            let a = constants.rand(y, i, 1048576);
            let b = constants.rand(y, i, 1048576);
            assert_eq!(a, b);
            assert!(a < 1048576);
        }
    }
}

#[test]
fn with_defaults_zero_length() {
    let constants = mock_tables();
    let oti =
        ObjectTransmissionInformation::with_defaults(0, 1400, &constants).unwrap();
    assert_eq!(oti.symbol_size(), 1400);
    assert_eq!(oti.symbol_size() % oti.symbol_alignment() as u16, 0);
    assert_eq!(oti.symbol_alignment(), 8);
    assert_eq!(oti.source_blocks(), 0);
    assert_eq!(oti.sub_blocks(), 1);
}

#[test]
fn with_defaults_positive_length() {
    let constants = mock_tables();
    let oti =
        ObjectTransmissionInformation::with_defaults(1, 1400, &constants).unwrap();
    assert!(oti.source_blocks() >= 1);
    assert_eq!(oti.symbol_size() % 8, 0);
}

#[test]
fn with_defaults_scenario() {
    let constants = mock_tables();
    let oti =
        ObjectTransmissionInformation::with_defaults(10000, 1400, &constants).unwrap();
    assert_eq!(oti.transfer_length(), 10000);
    assert_eq!(oti.symbol_alignment(), 8);
    assert_eq!(oti.symbol_size(), 1400);
    assert_eq!(oti.source_blocks(), 1);
    assert_eq!(oti.sub_blocks(), 1);
}

#[test]
fn with_defaults_packet_too_small() {
    let constants = mock_tables();
    assert_eq!(
        ObjectTransmissionInformation::with_defaults(100, 7, &constants),
        Err(Error::PacketSizeTooSmall)
    );
}

#[test]
fn with_defaults_transfer_too_large() {
    let constants = mock_tables();
    assert_eq!(
        ObjectTransmissionInformation::with_defaults(946270874881, 1400, &constants),
        Err(Error::TransferLengthTooLarge)
    );
}

#[test]
fn with_defaults_no_fitting_row() {
    let constants = mock_tables();
    assert_eq!(
        ObjectTransmissionInformation::with_defaults(100, 32, &constants),
        Err(Error::NoFittingRow)
    );
}

#[test]
fn with_defaults_too_many_blocks() {
    let mut v0: Vec<u32> = Vec::new();
    let mut v1: Vec<u32> = Vec::new();
    let mut v2: Vec<u32> = Vec::new();
    let mut v3: Vec<u32> = Vec::new();
    for i in 0..256u32 {
        v0.push(i);
        v1.push(i);
        v2.push(i);
        v3.push(i);
    }
    let rows = vec![SystematicRow { kprime: 10, j: 254, w: 17, p1: 11 }];
    let constants = SystematicConstants::new(v0, v1, v2, v3, rows).unwrap();
    assert_eq!(
        ObjectTransmissionInformation::with_defaults(946270874880, 1400, &constants),
        Err(Error::TooManySourceBlocks)
    );
}
