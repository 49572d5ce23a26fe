use sound_image::upload::{plan_upload, sample_bytes, UploadError};

#[test]
fn bytes_are_little_endian_words() {
    assert_eq!(sample_bytes(&vec![0x0403_0201, 0xA0B0_C0D0]), vec![1, 2, 3, 4, 0xD0, 0xC0, 0xB0, 0xA0]);
    assert!(sample_bytes(&vec![]).is_empty());
}

#[test]
fn bytes_match_native_f32_layout() {
    let samples = [0.5f32, -1.0, 0.00392];
    let bits: Vec<u32> = samples.iter().map(|s| s.to_bits()).collect();
    let expected: Vec<u8> = samples.iter().flat_map(|s| s.to_le_bytes()).collect();
    assert_eq!(sample_bytes(&bits), expected);
}

#[test]
fn upload_writes_snapshot_into_storage_prefix() {
    let snapshot: Vec<u32> = vec![(0.25f32).to_bits(), (-0.75f32).to_bits()];
    let plan = plan_upload(&snapshot, 4).ok().unwrap();
    assert_eq!(plan.copy_size, 8);
    let mut storage = vec![0xEEu8; 16];
    storage[..plan.copy_size as usize].copy_from_slice(&plan.bytes[..plan.copy_size as usize]);
    let read: Vec<f32> = storage.chunks(4).map(|c| f32::from_le_bytes([c[0], c[1], c[2], c[3]])).collect();
    assert_eq!(read[0], 0.25);
    assert_eq!(read[1], -0.75);
    assert!(storage[8..].iter().all(|&b| b == 0xEE));
}

#[test]
fn oversized_snapshot_is_refused() {
    assert_eq!(plan_upload(&vec![1, 2, 3], 2).err(), Some(UploadError::SnapshotTooLarge));
    assert!(plan_upload(&vec![1, 2], 2).is_ok());
}
