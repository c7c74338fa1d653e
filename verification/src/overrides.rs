use crate::address::{zero_bytes, Address};
use crate::uint256::{u256_limit, U256};
use ethers::types::spoof::State;
use vstd::prelude::*;

verus! {

/// `ethers::types::spoof::State`, the state override set of a simulated
/// call. Nothing inside it is seen here: `overrides` names what it holds.
#[verifier::external_type_specification]
#[verifier::external_body]
pub struct ExState(State);

/// What a state override set puts in place of one account's real state for
/// the length of one simulated call. `None` leaves that part as it is on chain.
pub struct AccountOverride {
    pub nonce: Option<nat>,
    pub balance: Option<nat>,
    pub code: Option<Seq<u8>>,
    /// The storage slots that are overridden, be it as a difference to the
    /// real storage or in place of all of it.
    pub storage: Option<Map<Seq<u8>, Seq<u8>>>,
}

/// The accounts that a state override set touches, each with its override:
/// the map that an `ethers::types::spoof::State` holds, by the bytes of the
/// address.
pub uninterp spec fn overrides(state: State) -> Map<Seq<u8>, AccountOverride>;

/// The override that changes nothing.
pub open spec fn untouched() -> AccountOverride {
    AccountOverride { nonce: None, balance: None, code: None, storage: None }
}

/// The set that overrides the code of one account and nothing else.
pub open spec fn code_only(account: Seq<u8>, code: Seq<u8>) -> Map<Seq<u8>, AccountOverride> {
    map![account => AccountOverride { code: Some(code), ..untouched() }]
}

/// The set `before` with the balance of `account` overridden as well: an
/// account that `before` does not hold is entered with nothing else overridden.
pub open spec fn with_balance(
    before: Map<Seq<u8>, AccountOverride>,
    account: Seq<u8>,
    balance: nat,
) -> Map<Seq<u8>, AccountOverride> {
    let entry = if before.dom().contains(account) {
        before[account]
    } else {
        untouched()
    };
    before.insert(account, AccountOverride { balance: Some(balance), ..entry })
}

/// `ethers::types::spoof::code`: a set with one account, whose code is
/// overridden and nothing else.
#[verifier::external_body]
fn spoof_code(account: &Address, code: &Vec<u8>) -> (state: State)
    ensures
        overrides(state) == code_only(account@, code@),
{
    ethers::types::spoof::code(
        ethers::types::H160(account.bytes),
        ethers::types::Bytes::from(code.clone()),
    )
}

/// `ethers::types::spoof::State::account`, and the balance of the account it
/// hands out set: the account is entered with nothing overridden if the set
/// did not hold it, and its balance override becomes `balance`.
#[verifier::external_body]
fn override_balance(state: &mut State, account: &Address, balance: &U256)
    ensures
        overrides(*final(state)) == with_balance(overrides(*old(state)), account@, balance@),
{
    state.account(ethers::types::H160(account.bytes)).balance = Some(
        ethers::types::U256(balance.limbs),
    );
}

/// The state that the estimation call runs on in place of the real one: the
/// zero address, which stands for the caller, has the largest balance there
/// is, and `program` has the code `code`. Every other account, and every other
/// part of these two, stays as it is on chain.
pub open spec fn simulation_overrides(program: Seq<u8>, code: Seq<u8>) -> Map<
    Seq<u8>,
    AccountOverride,
> {
    Map::new(
        |account: Seq<u8>| account == program || account == zero_bytes(),
        |account: Seq<u8>|
            AccountOverride {
                nonce: None,
                balance: if account == zero_bytes() {
                    Some((u256_limit() - 1) as nat)
                } else {
                    None
                },
                code: if account == program {
                    Some(code)
                } else {
                    None
                },
                storage: None,
            },
    )
}

/// Gives the caller of a simulated call, the zero address, the largest
/// balance there is, whatever `state` overrides already.
pub fn fund_caller(state: &mut State)
    ensures
        overrides(*final(state)) == with_balance(
            overrides(*old(state)),
            zero_bytes(),
            (u256_limit() - 1) as nat,
        ),
{
    let caller = Address::zero();
    let funds = U256::max_value();
    override_balance(state, &caller, &funds);
}

/// Builds the state override set of the estimation call for `program`, whose
/// code on chain is `code`.
pub fn simulation_state(program: &Address, code: &Vec<u8>) -> (state: State)
    ensures
        overrides(state) == simulation_overrides(program@, code@),
{
    let mut state = spoof_code(program, code);
    fund_caller(&mut state);
    assert(overrides(state) =~= simulation_overrides(program@, code@));
    state
}

} // verus!
