use std::str::FromStr;

use eth_swap::address::Address;
use eth_swap::amount::Amount;
use eth_swap::error::SwapError;
use eth_swap::swap::{
    encode_swap_call, encode_swap_input, estimate_gas_limit, output_token_address,
    router_address, swap_call_for, swap_function_name, swap_value, SwapCall, AMOUNT_OUT_MIN,
    ESTIMATE_GAS_LIMIT, MAX_PATH_LEN,
};
use web3::ethabi::Contract;
use web3::types::{H160, U256};

fn router_interface() -> Contract {
    let json = r#"[
        {"type":"function","name":"WETH","inputs":[],
         "outputs":[{"name":"","type":"address"}],"stateMutability":"pure"},
        {"type":"function","name":"swapExactETHForTokens",
         "inputs":[{"name":"amountOutMin","type":"uint256"},
                   {"name":"path","type":"address[]"},
                   {"name":"to","type":"address"},
                   {"name":"deadline","type":"uint256"}],
         "outputs":[{"name":"amounts","type":"uint256[]"}],
         "stateMutability":"payable"}
    ]"#;
    Contract::load(json.as_bytes()).unwrap()
}

fn unhex(text: &str) -> Vec<u8> {
    let digits: Vec<u8> = text
        .bytes()
        .map(|b| match b {
            b'0'..=b'9' => b - b'0',
            b'a'..=b'f' => b - b'a' + 10,
            _ => panic!("not a hexadecimal digit"),
        })
        .collect();
    digits.chunks(2).map(|pair| pair[0] * 16 + pair[1]).collect()
}

fn wrapped_native() -> Address {
    Address::from_bytes(
        H160::from_str("0xc778417e063141139fce010982780140aa0cd5ab")
            .unwrap()
            .0,
    )
}

#[test]
fn constants_of_the_swap() {
    assert_eq!(AMOUNT_OUT_MIN, 106_662_000_000);
    assert_eq!(ESTIMATE_GAS_LIMIT, 500_000);
    assert_eq!(estimate_gas_limit(), Amount::from_u64(500_000));
    assert_eq!(swap_value(), Amount::from_u64(50_000_000_000_000_000));
    assert_eq!(swap_function_name(), "swapExactETHForTokens");
}

#[test]
fn addresses_of_the_swap() {
    let router = H160::from_str("0x7a250d5630B4cF539739dF2C5dAcb4c659F2488D").unwrap();
    assert_eq!(router_address().to_bytes(), router.0);
    let token = H160::from_str("0xc7ad46e0b8a400bb3c915120d284aafba8fc4735").unwrap();
    assert_eq!(output_token_address().to_bytes(), token.0);
}

#[test]
fn path_needs_two_tokens() {
    let recipient = Address::from_bytes([0x11; 20]);
    let one = Amount::from_u64(1);
    assert_eq!(
        SwapCall::new(one, vec![], recipient, one),
        Err(SwapError::PathTooShort)
    );
    assert_eq!(
        SwapCall::new(one, vec![wrapped_native()], recipient, one),
        Err(SwapError::PathTooShort)
    );
    let call = SwapCall::new(
        one,
        vec![wrapped_native(), output_token_address()],
        recipient,
        one,
    )
    .unwrap();
    assert_eq!(call.path().len(), 2);
}

#[test]
fn path_has_a_longest_length() {
    assert_eq!(MAX_PATH_LEN, 134_217_722);
    let recipient = Address::from_bytes([0x11; 20]);
    let one = Amount::from_u64(1);
    let path = vec![recipient; MAX_PATH_LEN + 1];
    assert_eq!(
        SwapCall::new(one, path, recipient, one),
        Err(SwapError::PathTooLong)
    );
}

#[test]
fn amounts_of_the_call_are_the_decimal_numbers() {
    let recipient = Address::from_bytes([0x11; 20]);
    let stamp: u128 = 1_700_000_300_000;
    let call = swap_call_for(wrapped_native(), recipient, stamp);
    assert_eq!(
        U256(call.amount_out_min().to_words()),
        U256::from_dec_str("106662000000").unwrap()
    );
    assert_eq!(
        U256(call.deadline().to_words()),
        U256::from_dec_str(&stamp.to_string()).unwrap()
    );
    assert_eq!(
        U256(swap_value().to_words()),
        U256::exp10(18).checked_div(20.into()).unwrap()
    );
    assert_eq!(U256(estimate_gas_limit().to_words()), 500_000.into());
}

#[test]
fn call_keeps_its_parameters() {
    let recipient = Address::from_bytes([0x11; 20]);
    let call = SwapCall::new(
        Amount::from_u64(3),
        vec![wrapped_native(), recipient, output_token_address()],
        recipient,
        Amount::from_u64(4),
    )
    .unwrap();
    assert_eq!(call.amount_out_min(), Amount::from_u64(3));
    assert_eq!(
        call.path(),
        &vec![wrapped_native(), recipient, output_token_address()]
    );
    assert_eq!(call.recipient(), recipient);
    assert_eq!(call.deadline(), Amount::from_u64(4));
}

#[test]
fn swap_call_of_the_run() {
    let recipient = Address::from_bytes([0x11; 20]);
    let call = swap_call_for(wrapped_native(), recipient, 1_700_000_300_000);
    assert_eq!(call.amount_out_min(), Amount::from_u64(106_662_000_000));
    assert_eq!(call.path(), &vec![wrapped_native(), output_token_address()]);
    assert_eq!(call.recipient(), recipient);
    assert_eq!(call.deadline(), Amount::from_u128(1_700_000_300_000));
}

#[test]
fn call_data_of_the_swap() {
    let recipient = Address::from_bytes([0x11; 20]);
    let call = swap_call_for(wrapped_native(), recipient, 1_700_000_300_000);
    let data = encode_swap_call(&router_interface(), &call).unwrap();
    let words = [
        "7ff36ab5",
        "00000000000000000000000000000000000000000000000000000018d58cf580",
        "0000000000000000000000000000000000000000000000000000000000000080",
        "0000000000000000000000001111111111111111111111111111111111111111",
        "0000000000000000000000000000000000000000000000000000018bcfe9fbe0",
        "0000000000000000000000000000000000000000000000000000000000000002",
        "000000000000000000000000c778417e063141139fce010982780140aa0cd5ab",
        "000000000000000000000000c7ad46e0b8a400bb3c915120d284aafba8fc4735",
    ];
    let expected = unhex(&words.join(""));
    assert_eq!(data.len(), 228);
    assert_eq!(data, expected);
}

#[test]
fn call_data_is_deterministic() {
    let recipient = Address::from_bytes([0x22; 20]);
    let first = swap_call_for(wrapped_native(), recipient, 42);
    let second = SwapCall::new(
        Amount::from_u64(AMOUNT_OUT_MIN),
        vec![wrapped_native(), output_token_address()],
        recipient,
        Amount::from_words([42, 0, 0, 0]),
    )
    .unwrap();
    let abi = router_interface();
    let once = encode_swap_call(&abi, &first).unwrap();
    let again = encode_swap_call(&abi, &first).unwrap();
    let other = encode_swap_call(&router_interface(), &second).unwrap();
    assert_eq!(once, again);
    assert_eq!(once, other);
}

#[test]
fn call_data_follows_the_parameters() {
    let recipient = Address::from_bytes([0x22; 20]);
    let abi = router_interface();
    let first = encode_swap_call(&abi, &swap_call_for(wrapped_native(), recipient, 42)).unwrap();
    let later = encode_swap_call(&abi, &swap_call_for(wrapped_native(), recipient, 43)).unwrap();
    assert_ne!(first, later);
    assert_eq!(first[..131], later[..131]);
    assert_eq!(first[131], 42);
    assert_eq!(later[131], 43);
    assert_eq!(first[132..], later[132..]);
}

#[test]
fn call_data_under_one_function() {
    let recipient = Address::from_bytes([0x22; 20]);
    let call = swap_call_for(wrapped_native(), recipient, 42);
    let abi = router_interface();
    let function = abi.function("swapExactETHForTokens").unwrap();
    assert_eq!(
        encode_swap_input(function, &call),
        encode_swap_call(&abi, &call)
    );
    let other = abi.function("WETH").unwrap();
    assert_eq!(encode_swap_input(other, &call), Err(SwapError::Encoding));
}

#[test]
fn interface_without_the_swap_function_does_not_encode() {
    let json = r#"[{"type":"function","name":"WETH","inputs":[],
        "outputs":[{"name":"","type":"address"}],"stateMutability":"pure"}]"#;
    let abi = Contract::load(json.as_bytes()).unwrap();
    let call = swap_call_for(wrapped_native(), Address::from_bytes([0x22; 20]), 42);
    assert_eq!(encode_swap_call(&abi, &call), Err(SwapError::Encoding));
}

#[test]
fn interface_with_other_inputs_does_not_encode() {
    let json = r#"[{"type":"function","name":"swapExactETHForTokens",
        "inputs":[{"name":"amountOutMin","type":"uint256"},
                  {"name":"to","type":"address"}],
        "outputs":[],"stateMutability":"payable"}]"#;
    let abi = Contract::load(json.as_bytes()).unwrap();
    let call = swap_call_for(wrapped_native(), Address::from_bytes([0x22; 20]), 42);
    assert_eq!(encode_swap_call(&abi, &call), Err(SwapError::Encoding));
}
