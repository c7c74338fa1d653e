use crate::address::Address;
use crate::uint256::{be_bytes, be_value, lemma_be_bytes_read_back, pow256, u256_limit, U256};
use vstd::prelude::*;

verus! {

/// The selector of `activateProgram(address)`: the first four bytes of the
/// Keccak-256 hash of that signature.
pub const ACTIVATE_PROGRAM_SELECTOR: [u8; 4] = [0x58, 0xc7, 0x80, 0xc2];

/// The length of an encoded call of `activateProgram`: the selector and one word.
pub const ACTIVATE_CALL_LEN: usize = 36;

/// The length of the two words that `activateProgram` returns.
pub const ACTIVATE_RETURN_LEN: usize = 64;

/// The call `activateProgram(program)` as the contract ABI lays it out: the
/// selector, then the address in one 32-byte word, padded with zero bytes on
/// the left.
pub open spec fn activate_call_encoding(program: Seq<u8>) -> Seq<u8> {
    ACTIVATE_PROGRAM_SELECTOR@ + Seq::new(12, |i: int| 0u8) + program
}

/// Encodes the call `activateProgram(program)`.
pub fn encode_activate_call(program: &Address) -> (data: Vec<u8>)
    ensures
        data@ == activate_call_encoding(program@),
{
    let mut data: Vec<u8> = Vec::with_capacity(ACTIVATE_CALL_LEN);
    let mut i: usize = 0;
    while i < 4
        invariant
            i <= 4,
            data@ == ACTIVATE_PROGRAM_SELECTOR@.subrange(0, i as int),
        decreases 4 - i,
    {
        data.push(ACTIVATE_PROGRAM_SELECTOR[i]);
        i = i + 1;
    }
    let mut j: usize = 0;
    while j < 12
        invariant
            j <= 12,
            data@ == ACTIVATE_PROGRAM_SELECTOR@ + Seq::new(j as nat, |i: int| 0u8),
        decreases 12 - j,
    {
        data.push(0u8);
        j = j + 1;
    }
    let mut k: usize = 0;
    while k < 20
        invariant
            k <= 20,
            data@ == ACTIVATE_PROGRAM_SELECTOR@ + Seq::new(12, |i: int| 0u8) + program@.subrange(
                0,
                k as int,
            ),
        decreases 20 - k,
    {
        data.push(program.bytes[k]);
        k = k + 1;
    }
    assert(program@.subrange(0, 20) =~= program@);
    data
}

/// What `activateProgram` returns: the version of the activated program and
/// the data fee that the activation costs.
#[derive(Clone, Copy, Debug, PartialEq, Eq)]
pub struct ActivationResult {
    pub version: u16,
    pub data_fee: U256,
}

/// An `ActivationResult` as numbers.
pub struct ActivationResultView {
    pub version: u16,
    pub data_fee: nat,
}

impl View for ActivationResult {
    type V = ActivationResultView;

    open spec fn view(&self) -> ActivationResultView {
        ActivationResultView { version: self.version, data_fee: self.data_fee@ }
    }
}

/// Why returned bytes are not a `(uint16, uint256)` tuple.
#[derive(Clone, Copy, Debug, PartialEq, Eq)]
pub enum DecodeError {
    /// The payload is shorter than the two words of the tuple.
    Truncated,
    /// The first word holds a number that a `uint16` cannot: its padding is
    /// not all zero.
    BadPadding,
}

/// The tuple `(uint16 version, uint256 dataFee)` that `data` starts with.
///
/// Each field fills one 32-byte word, the most significant byte first. Bytes
/// after the second word are not part of the tuple and do not matter.
pub open spec fn decoded_return(data: Seq<u8>) -> Result<ActivationResultView, DecodeError> {
    if data.len() < 64 {
        Err(DecodeError::Truncated)
    } else if be_value(data.subrange(0, 32)) > u16::MAX {
        Err(DecodeError::BadPadding)
    } else {
        Ok(
            ActivationResultView {
                version: be_value(data.subrange(0, 32)) as u16,
                data_fee: be_value(data.subrange(32, 64)),
            },
        )
    }
}

/// Decodes what a call of `activateProgram` returned.
pub fn decode_activate_return(data: &[u8]) -> (r: Result<ActivationResult, DecodeError>)
    ensures
        r matches Ok(v) ==> decoded_return(data@) == Ok::<ActivationResultView, DecodeError>(v@),
        r matches Err(e) ==> decoded_return(data@) == Err::<ActivationResultView, DecodeError>(e),
{
    if data.len() < ACTIVATE_RETURN_LEN {
        return Err(DecodeError::Truncated);
    }
    let first = U256::from_be_bytes(data, 0);
    let padded = first.limbs[3] == 0 && first.limbs[2] == 0 && first.limbs[1] == 0;
    if !padded || first.limbs[0] > 0xffff {
        return Err(DecodeError::BadPadding);
    }
    let version: u16 = first.limbs[0] as u16;
    let data_fee = U256::from_be_bytes(data, 32);
    Ok(ActivationResult { version, data_fee })
}

/// The tuple `(uint16 version, uint256 dataFee)` as the contract ABI lays it
/// out: one 32-byte word for each field, the most significant byte first.
pub open spec fn return_encoding(result: ActivationResultView) -> Seq<u8> {
    be_bytes(result.version as nat, 32) + be_bytes(result.data_fee, 32)
}

/// An encoded tuple decodes to itself, whatever bytes follow it.
pub proof fn lemma_return_encoding_decodes(result: ActivationResultView, rest: Seq<u8>)
    requires
        result.data_fee < u256_limit(),
    ensures
        decoded_return(return_encoding(result) + rest) == Ok::<ActivationResultView, DecodeError>(
            result,
        ),
{
    let first = be_bytes(result.version as nat, 32);
    let second = be_bytes(result.data_fee, 32);
    let data = first + second + rest;
    assert(pow256(32) == u256_limit()) by {
        reveal_with_fuel(pow256, 33);
    }
    lemma_be_bytes_read_back(result.version as nat, 32);
    lemma_be_bytes_read_back(result.data_fee, 32);
    assert(data.subrange(0, 32) =~= first);
    assert(data.subrange(32, 64) =~= second);
}

} // verus!
