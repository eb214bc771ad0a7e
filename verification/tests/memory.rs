use mag_runtime::memory::{valid_size, Block, BlockError, BLOCK_SIZE, BLOCK_SIZE_BITS};

#[test]
fn size_must_be_a_power_of_two() {
    assert_eq!(Block::new(3, 4096).unwrap_err(), BlockError::BadRequest);
    assert_eq!(Block::new(0, 4096).unwrap_err(), BlockError::BadRequest);
    assert_eq!(Block::new(24, 0).unwrap_err(), BlockError::BadRequest);
}

#[test]
fn missing_region_is_out_of_memory() {
    assert_eq!(Block::new(64, 0).unwrap_err(), BlockError::OutOfMemory);
}

#[test]
fn block_records_start_and_size() {
    let block = Block::new(BLOCK_SIZE, 65536).unwrap();
    assert_eq!(block.as_pointer(), 65536);
    assert_eq!(block.size(), 32768);
    assert_eq!(BLOCK_SIZE, 1 << BLOCK_SIZE_BITS);
}

#[test]
fn powers_of_two_are_valid_sizes() {
    assert!(valid_size(1));
    assert!(valid_size(2));
    assert!(valid_size(1 << 20));
    assert!(!valid_size(0));
    assert!(!valid_size(6));
    assert!(!valid_size(usize::MAX));
}
