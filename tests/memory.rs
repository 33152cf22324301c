use tegne::memory::find_memory_type;

#[test]
fn first_allowed_memory_type_with_all_properties() {
    let types = [0b0001, 0b0110, 0b0111];
    assert_eq!(find_memory_type(&types, 0b111, 0b0110), Some(1));
    assert_eq!(find_memory_type(&types, 0b101, 0b0110), Some(2));
    assert_eq!(find_memory_type(&types, 0b111, 0b0001), Some(0));
    assert_eq!(find_memory_type(&types, 0b111, 0b1000), None);
    assert_eq!(find_memory_type(&types, 0, 0), None);
    assert_eq!(find_memory_type(&[], 0b1, 0), None);
}

#[test]
fn memory_type_at_bit_thirty_one() {
    let mut types = [0u32; 32];
    types[31] = 0b10;
    assert_eq!(find_memory_type(&types, 1 << 31, 0b10), Some(31));
    assert_eq!(find_memory_type(&types, !(1 << 31), 0b10), None);
}
