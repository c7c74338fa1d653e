use vstd::prelude::*;

verus! {

/// A 20-byte account identifier.
#[derive(Clone, Copy, Debug, PartialEq, Eq)]
pub struct Address {
    pub bytes: [u8; 20],
}

impl View for Address {
    type V = Seq<u8>;

    open spec fn view(&self) -> Seq<u8> {
        self.bytes@
    }
}

/// The bytes of the address of the ArbWasm precompile, the system contract
/// that activates programs.
pub const ARB_WASM_ADDRESS: [u8; 20] = [
    0, 0, 0, 0, 0, 0, 0, 0, 0, 0, 0, 0, 0, 0, 0, 0, 0, 0, 0, 0x71,
];

/// The bytes of the address of the ArbWasm precompile: nineteen zero bytes
/// and then `0x71`.
pub open spec fn arb_wasm_bytes() -> Seq<u8> {
    Seq::new(20, |i: int| if i == 19 { 0x71u8 } else { 0u8 })
}

/// The bytes of the zero address.
pub open spec fn zero_bytes() -> Seq<u8> {
    Seq::new(20, |i: int| 0u8)
}

impl Address {
    /// The zero address, which stands for the caller of a simulated call.
    pub fn zero() -> (r: Address)
        ensures
            r@ == zero_bytes(),
    {
        let r = Address { bytes: [0u8; 20] };
        assert(r@ =~= zero_bytes());
        r
    }

    /// The ArbWasm precompile, the system contract that activates programs.
    pub fn arb_wasm() -> (r: Address)
        ensures
            r@ == arb_wasm_bytes(),
    {
        let r = Address { bytes: ARB_WASM_ADDRESS };
        assert(r@ =~= arb_wasm_bytes());
        r
    }
}

} // verus!
