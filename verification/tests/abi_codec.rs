use activate_stylus_program::abi::{
    decode_activate_return, encode_activate_call, ActivationResult, DecodeError,
    ACTIVATE_PROGRAM_SELECTOR,
};
use activate_stylus_program::address::Address;
use activate_stylus_program::uint256::U256;
use ethers::abi::Token;

fn return_tuple(version: u64, data_fee: ethers::types::U256) -> Vec<u8> {
    ethers::abi::encode(&[Token::Uint(ethers::types::U256::from(version)), Token::Uint(data_fee)])
}

fn sample_address() -> Address {
    let mut bytes = [0u8; 20];
    for (i, b) in bytes.iter_mut().enumerate() {
        *b = 0xa0 + i as u8;
    }
    Address { bytes }
}

#[test]
fn selector_is_the_hash_of_the_signature() {
    assert_eq!(ethers::utils::id("activateProgram(address)"), ACTIVATE_PROGRAM_SELECTOR);
    assert_eq!(ACTIVATE_PROGRAM_SELECTOR, [0x58, 0xc7, 0x80, 0xc2]);
}

#[test]
fn call_is_selector_and_padded_address() {
    let program = sample_address();
    let data = encode_activate_call(&program);
    assert_eq!(data.len(), 36);
    assert_eq!(&data[..4], &[0x58, 0xc7, 0x80, 0xc2]);
    assert_eq!(&data[4..16], &[0u8; 12]);
    assert_eq!(&data[16..], &program.bytes);
}

#[test]
fn call_agrees_with_the_contract_abi() {
    let program = sample_address();
    let mut expected = ethers::utils::id("activateProgram(address)").to_vec();
    expected.extend(ethers::abi::encode(&[Token::Address(ethers::types::H160(program.bytes))]));
    assert_eq!(encode_activate_call(&program), expected);
}

#[test]
fn call_for_the_zero_address() {
    let data = encode_activate_call(&Address::zero());
    let mut expected = vec![0x58, 0xc7, 0x80, 0xc2];
    expected.extend([0u8; 32]);
    assert_eq!(data, expected);
}

#[test]
fn return_tuple_round_trip() {
    let data = return_tuple(1, ethers::types::U256::from(12345u64));
    assert_eq!(
        decode_activate_return(&data),
        Ok(ActivationResult { version: 1, data_fee: U256::from_u64(12345) })
    );
}

#[test]
fn return_tuple_of_the_largest_values() {
    let data = return_tuple(0xffff, ethers::types::U256::MAX);
    assert_eq!(data, vec![&[0u8; 30][..], &[0xffu8; 34][..]].concat());
    assert_eq!(
        decode_activate_return(&data),
        Ok(ActivationResult { version: 0xffff, data_fee: U256::max_value() })
    );
}

#[test]
fn return_tuple_keeps_every_byte_of_the_fee() {
    let mut data = vec![0u8; 64];
    data[30] = 0x01;
    data[31] = 0x02;
    for i in 0..32 {
        data[32 + i] = (i + 1) as u8;
    }
    let fee = ethers::types::U256::from_big_endian(&data[32..]);
    assert_eq!(
        decode_activate_return(&data),
        Ok(ActivationResult { version: 0x0102, data_fee: U256 { limbs: fee.0 } })
    );
    assert_eq!(
        fee.0,
        [0x191a_1b1c_1d1e_1f20, 0x1112_1314_1516_1718, 0x090a_0b0c_0d0e_0f10, 0x0102_0304_0506_0708]
    );
}

#[test]
fn return_tuple_may_be_followed_by_more_bytes() {
    let mut data = return_tuple(2, ethers::types::U256::from(999_000u64));
    data.extend([0u8; 32]);
    assert_eq!(
        decode_activate_return(&data),
        Ok(ActivationResult { version: 2, data_fee: U256::from_u64(999_000) })
    );
    data.push(0xff);
    assert_eq!(
        decode_activate_return(&data),
        Ok(ActivationResult { version: 2, data_fee: U256::from_u64(999_000) })
    );
}

#[test]
fn return_tuple_that_is_too_short() {
    let data = return_tuple(1, ethers::types::U256::from(12345u64));
    assert_eq!(decode_activate_return(&data[..63]), Err(DecodeError::Truncated));
    assert_eq!(decode_activate_return(&data[..32]), Err(DecodeError::Truncated));
    assert_eq!(decode_activate_return(&[]), Err(DecodeError::Truncated));
}

#[test]
fn return_tuple_with_a_version_out_of_range() {
    let data = return_tuple(0x1_0000, ethers::types::U256::from(12345u64));
    assert_eq!(decode_activate_return(&data), Err(DecodeError::BadPadding));
    let mut stained = return_tuple(1, ethers::types::U256::from(12345u64));
    stained[0] = 0x80;
    assert_eq!(decode_activate_return(&stained), Err(DecodeError::BadPadding));
    let mut inner = return_tuple(1, ethers::types::U256::from(12345u64));
    inner[17] = 1;
    assert_eq!(decode_activate_return(&inner), Err(DecodeError::BadPadding));
}

#[test]
fn big_endian_bytes_from_an_offset() {
    let mut data = vec![0xeeu8; 40];
    for i in 0..32 {
        data[5 + i] = 0;
    }
    data[36] = 0x2a;
    assert_eq!(U256::from_be_bytes(&data, 5), U256::from_u64(0x2a));
    data[5] = 0x80;
    assert_eq!(U256::from_be_bytes(&data, 5), U256 { limbs: [0x2a, 0, 0, 1 << 63] });
}
