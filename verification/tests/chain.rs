use did_registry::{
    check_chain_id, get_chain_id, resolve_chain_id, string_to_bytes32, ContractError, ErrorKind,
};

#[test]
fn chain_id_of_the_documented_examples() {
    assert_eq!(resolve_chain_id("12a456").unwrap_err(), ContractError::InvalidNumber {});
    assert_eq!(resolve_chain_id("12").unwrap_err(), ContractError::InputTooShort {});
    assert_eq!(resolve_chain_id("123456xyz").unwrap(), 123456);
}

#[test]
fn chain_id_reads_exactly_six_digits() {
    assert_eq!(resolve_chain_id("123456").unwrap(), 123456);
    assert_eq!(resolve_chain_id("1234567").unwrap(), 123456);
    assert_eq!(resolve_chain_id("999999").unwrap(), 999999);
    assert_eq!(resolve_chain_id("000000").unwrap(), 0);
    assert_eq!(resolve_chain_id("000042:rest").unwrap(), 42);
    assert_eq!(resolve_chain_id("100000").unwrap(), 100000);
}

#[test]
fn chain_id_needs_six_characters() {
    assert_eq!(resolve_chain_id("").unwrap_err(), ContractError::InputTooShort {});
    assert_eq!(resolve_chain_id("12345").unwrap_err(), ContractError::InputTooShort {});
    assert_eq!(resolve_chain_id("abc").unwrap_err().kind(), ErrorKind::InputTooShort);
    // three characters, though six bytes
    assert_eq!(resolve_chain_id("ééé").unwrap_err(), ContractError::InputTooShort {});
}

#[test]
fn chain_id_takes_ascii_digits_only() {
    assert_eq!(resolve_chain_id("a23456").unwrap_err(), ContractError::InvalidNumber {});
    assert_eq!(resolve_chain_id("12345a").unwrap_err(), ContractError::InvalidNumber {});
    assert_eq!(resolve_chain_id("+12345").unwrap_err(), ContractError::InvalidNumber {});
    assert_eq!(resolve_chain_id("-12345").unwrap_err(), ContractError::InvalidNumber {});
    assert_eq!(resolve_chain_id(" 12345").unwrap_err(), ContractError::InvalidNumber {});
    assert_eq!(resolve_chain_id("12345/").unwrap_err(), ContractError::InvalidNumber {});
    assert_eq!(resolve_chain_id("12345:").unwrap_err(), ContractError::InvalidNumber {});
    assert_eq!(resolve_chain_id("12345é").unwrap_err(), ContractError::InvalidNumber {});
    assert_eq!(resolve_chain_id("١٢٣٤٥٦").unwrap_err().kind(), ErrorKind::InvalidNumber);
    assert_eq!(resolve_chain_id("dhealth-testnet-2").unwrap_err(), ContractError::InvalidNumber {});
}

#[test]
fn configured_chain_id_is_zero() {
    assert_eq!(get_chain_id(), 0);
}

#[test]
fn chain_policy_accepts_the_configured_network_only() {
    assert_eq!(check_chain_id("000000"), Ok(()));
    assert_eq!(check_chain_id("000000:health"), Ok(()));
    assert_eq!(check_chain_id("123456"), Err(ContractError::IncorrectChainId {}));
    assert_eq!(check_chain_id("000001xyz"), Err(ContractError::IncorrectChainId {}));
    assert_eq!(check_chain_id("12"), Err(ContractError::InputTooShort {}));
    assert_eq!(check_chain_id("12a456"), Err(ContractError::InvalidNumber {}));
}

#[test]
fn short_text_is_padded_to_32_bytes() {
    let binary = string_to_bytes32("abc");
    let mut expected = vec![0u8; 32];
    expected[0] = b'a';
    expected[1] = b'b';
    expected[2] = b'c';
    assert_eq!(binary.as_slice(), expected.as_slice());
    assert_eq!(string_to_bytes32("").as_slice(), vec![0u8; 32].as_slice());
}

#[test]
fn long_text_is_cut_behind_32_bytes() {
    let text = "0123456789abcdefghijklmnopqrstuvwxyz";
    assert_eq!(string_to_bytes32(text).as_slice(), &text.as_bytes()[..32]);
    let exact = "0123456789abcdefghijklmnopqrstuv";
    assert_eq!(string_to_bytes32(exact).as_slice(), exact.as_bytes());
    // the cut counts bytes and may fall inside a character
    let wide = "é".repeat(17);
    assert_eq!(string_to_bytes32(&wide).as_slice(), &wide.as_bytes()[..32]);
}
