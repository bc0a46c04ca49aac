use nbody_core::indirect_args::{GpuIndirectArgs, INDIRECT_ARGS_SIZE};

#[test]
fn new_sets_counts_and_zero_offsets() {
    let args = GpuIndirectArgs::new(36, 7);
    assert_eq!(args.index_count, 36);
    assert_eq!(args.instance_count, 7);
    assert_eq!(args.first_index, 0);
    assert_eq!(args.vertex_offset, 0);
    assert_eq!(args.first_instance, 0);
}

#[test]
fn new_with_zero_instances_is_reset_block() {
    let args = GpuIndirectArgs::new(6, 0);
    assert_eq!(
        args,
        GpuIndirectArgs {
            index_count: 6,
            instance_count: 0,
            first_index: 0,
            vertex_offset: 0,
            first_instance: 0,
        }
    );
}

#[test]
fn bytes_are_five_little_endian_words() {
    let args = GpuIndirectArgs {
        index_count: 0x0403_0201,
        instance_count: 300,
        first_index: 0,
        vertex_offset: -2,
        first_instance: 0xFFFF_FFFF,
    };
    let bytes = args.to_bytes();
    assert_eq!(bytes.len(), INDIRECT_ARGS_SIZE);
    assert_eq!(
        bytes,
        vec![
            1, 2, 3, 4, //
            44, 1, 0, 0, //
            0, 0, 0, 0, //
            0xFE, 0xFF, 0xFF, 0xFF, //
            0xFF, 0xFF, 0xFF, 0xFF,
        ]
    );
}

#[test]
fn bytes_match_native_layout_of_fields() {
    let args = GpuIndirectArgs::new(123_456, 789);
    let mut expected = Vec::new();
    expected.extend_from_slice(&123_456u32.to_le_bytes());
    expected.extend_from_slice(&789u32.to_le_bytes());
    expected.extend_from_slice(&0u32.to_le_bytes());
    expected.extend_from_slice(&0i32.to_le_bytes());
    expected.extend_from_slice(&0u32.to_le_bytes());
    assert_eq!(args.to_bytes(), expected);
}

#[test]
fn reset_block_has_zero_instance_word() {
    let bytes = GpuIndirectArgs::new(0xDEAD_BEEF, 0).to_bytes();
    assert_eq!(&bytes[0..4], &[0xEF, 0xBE, 0xAD, 0xDE]);
    assert!(bytes[4..20].iter().all(|b| *b == 0));
}
