use pragma::felt::felt_to_hex_str;

#[test]
fn test_felt_to_hex_str() {
    // Example taken from here: https://voyager.online/event/2091762_1_3
    let felt = starknet::core::types::Felt::from_dec_str(
        "2271107541705199146619972428603499348671360442682316369626005515476010301932",
    )
    .unwrap();
    assert_eq!(
        felt_to_hex_str(felt.to_bytes_be()),
        "0x50566bca02aef6f3d75364bb03ecd7249292ab65c20c4f9f15506d8578479ec"
    );
}

#[test]
fn felt_hex_of_small_values_is_padded_to_sixty_four() {
    let one = starknet::core::types::Felt::from(1u64).to_bytes_be();
    let text = felt_to_hex_str(one);
    assert_eq!(text.len(), 64);
    assert_eq!(text.trim_start(), "0x1");
    let zero = felt_to_hex_str([0u8; 32]);
    assert_eq!(zero.trim_start(), "0x0");
}
