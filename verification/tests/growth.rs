use text_batch::utils::grow_buffer;

#[test]
fn grow_keeps_exact_fit() {
    // 4 elements of 4 bytes need 16 bytes; the current 16 bytes fit exactly,
    // so no doubling happens and no extra headroom is added.
    assert_eq!(grow_buffer(16, 4, 4), 16);
}

#[test]
fn grow_doubles_until_sufficient() {
    // 10 elements of 4 bytes need 40 bytes: 16 doubles to 32, then to 64.
    assert_eq!(grow_buffer(16, 4, 10), 64);
}

#[test]
fn grow_seeds_zero_capacity() {
    // A zero-size store is seeded with one element's byte size: 3 elements
    // of 8 bytes need 24 bytes, and 8 doubles to 16, then to 32.
    assert_eq!(grow_buffer(0, 8, 3), 32);
}

#[test]
fn grow_never_shrinks() {
    // 2 elements of 4 bytes need only 8 bytes; the store keeps its 128.
    assert_eq!(grow_buffer(128, 4, 2), 128);
}

#[test]
fn grow_is_power_of_two_multiple_of_seed() {
    // 7 elements of 3 bytes need 21 bytes: 10 doubles to 20, then to 40,
    // which is at least 21 and is the seed 10 times a power of two.
    let grown: usize = grow_buffer(10, 3, 7);
    assert_eq!(grown, 40);
    assert!(grown >= 21);
    assert_eq!(grown % 10, 0);
    let multiple: usize = grown / 10;
    assert!(multiple.is_power_of_two());
}

#[test]
fn grow_with_zero_requirement_keeps_capacity() {
    // Nothing is required, so the current capacity already suffices.
    assert_eq!(grow_buffer(16, 4, 0), 16);
}
