use rt_pipeline::instance::{encode_instance, encode_instances, pack_24_8, InstanceRecord, INSTANCE_RECORD_BYTES};

// Bit patterns of an identity 3x4 transform with a translation in the last
// column of each row: [1 0 0 tx] [0 1 0 ty] [0 0 1 tz], as 32-bit floats.
const ONE: u32 = 0x3f80_0000;
fn transform_bits(tx: u32, ty: u32, tz: u32) -> Vec<u32> {
    vec![ONE, 0, 0, tx, 0, ONE, 0, ty, 0, 0, ONE, tz]
}

fn record(custom_index: u32, address: u64) -> InstanceRecord {
    InstanceRecord {
        transform_bits: transform_bits(0, 0, 0),
        custom_index,
        mask: 0xff,
        sbt_offset: 0,
        flags: 0x02,
        blas_address: address,
    }
}

#[test]
fn pack_24_8_exact_values() {
    assert_eq!(pack_24_8(0, 0xff), 0xff00_0000);
    assert_eq!(pack_24_8(2, 0xff), 0xff00_0002);
    assert_eq!(pack_24_8(0x123456, 0x02), 0x0212_3456);
    assert_eq!(pack_24_8(0xffffff, 0), 0x00ff_ffff);
}

#[test]
fn encode_instance_layout() {
    let rec = record(2, 0x1122_3344_5566_7788);
    let bytes = encode_instance(&rec);
    assert_eq!(bytes.len(), INSTANCE_RECORD_BYTES);
    // transform words, little endian
    assert_eq!(&bytes[0..4], &[0x00, 0x00, 0x80, 0x3f]);
    assert_eq!(&bytes[4..8], &[0x00, 0x00, 0x00, 0x00]);
    assert_eq!(&bytes[20..24], &[0x00, 0x00, 0x80, 0x3f]);
    assert_eq!(&bytes[40..44], &[0x00, 0x00, 0x80, 0x3f]);
    // packed custom index and mask: 0xff000002
    assert_eq!(&bytes[48..52], &[0x02, 0x00, 0x00, 0xff]);
    // packed table offset and flags: 0x02000000
    assert_eq!(&bytes[52..56], &[0x00, 0x00, 0x00, 0x02]);
    // device address, little endian
    assert_eq!(
        &bytes[56..64],
        &[0x88, 0x77, 0x66, 0x55, 0x44, 0x33, 0x22, 0x11]
    );
}

#[test]
fn encode_instance_translation_bits_in_place() {
    let rec = InstanceRecord {
        transform_bits: transform_bits(0xbfc0_0000, 0x3f80_0000, 0),
        custom_index: 0,
        mask: 0xff,
        sbt_offset: 0,
        flags: 0x02,
        blas_address: 1,
    };
    let bytes = encode_instance(&rec);
    // row 0 translation at word 3
    assert_eq!(&bytes[12..16], &[0x00, 0x00, 0xc0, 0xbf]);
    // row 1 translation at word 7
    assert_eq!(&bytes[28..32], &[0x00, 0x00, 0x80, 0x3f]);
}

#[test]
fn encode_instances_concatenates_records() {
    let records = vec![record(0, 0x1000), record(1, 0x1000), record(2, 0x1000)];
    let bytes = encode_instances(&records);
    assert_eq!(bytes.len(), 192);
    for (k, rec) in records.iter().enumerate() {
        let single = encode_instance(rec);
        assert_eq!(&bytes[64 * k..64 * k + 64], &single[..]);
    }
    // the packed custom indices differ per record
    assert_eq!(bytes[48], 0);
    assert_eq!(bytes[64 + 48], 1);
    assert_eq!(bytes[128 + 48], 2);
}

#[test]
fn encode_instances_empty() {
    let bytes = encode_instances(&Vec::new());
    assert_eq!(bytes.len(), 0);
}
