//! The instructions that pay a balance out.
//!
//! Native coins leave in one bank transfer. Tokens leave through their
//! contracts: one call per token, each carrying an encoded transfer message.
//! The encoding is the token standard's own and is done by its crate.

use vstd::prelude::*;

use crate::balance::{Coin, GenericBalance, GenericBalanceView, Holding};
use crate::error::{ContractError, StdErrorKind};
use crate::msg::{CosmosMsg, CosmosMsgView};

verus! {

/// `cosmwasm_std::StdError`, the error that the encoder reports. Nothing is
/// said of what such a value holds.
#[verifier::external_type_specification]
#[verifier::external_body]
pub struct ExStdError(cosmwasm_std::StdError);

/// The bytes of the token standard's transfer message that moves `amount`
/// tokens to `recipient`, as `cosmwasm_std::to_json_binary` encodes a
/// `cw20::Cw20ExecuteMsg::Transfer`; `None` where the encoder reports an
/// error.
pub uninterp spec fn transfer_call(recipient: Seq<char>, amount: u128) -> Option<Seq<u8>>;

/// Encodes a transfer of `amount` tokens to `recipient`.
///
/// Calls `cosmwasm_std::to_json_binary` on a `cw20::Cw20ExecuteMsg::Transfer`
/// with these two fields. Nothing is proved of the call. It is taken to be a
/// function of the two fields alone: its outcome is what `transfer_call`
/// names.
#[verifier::external_body]
fn encode_transfer(recipient: &String, amount: u128) -> (r: Result<Vec<u8>, cosmwasm_std::StdError>)
    ensures
        match r {
            Ok(bytes) => transfer_call(recipient@, amount) == Some(bytes@),
            Err(_) => transfer_call(recipient@, amount) is None,
        },
{
    let msg = cw20::Cw20ExecuteMsg::Transfer {
        recipient: recipient.clone(),
        amount: cosmwasm_std::Uint128::new(amount),
    };
    cosmwasm_std::to_json_binary(&msg).map(|binary| binary.0)
}

/// The call that makes the token contract at `contract_addr` execute the
/// encoded message `encoded`; a serialization error where there is no
/// encoded message.
pub fn wasm_execute(contract_addr: &String, encoded: Result<Vec<u8>, cosmwasm_std::StdError>) -> (r:
    Result<CosmosMsg, ContractError>)
    ensures
        match r {
            Ok(call) => encoded matches Ok(bytes) && call@ == (CosmosMsgView::WasmExecute {
                contract_addr: contract_addr@,
                msg: bytes@,
                funds: Seq::empty(),
            }),
            Err(e) => encoded is Err && e == ContractError::Std(StdErrorKind::SerializeErr {}),
        },
{
    match encoded {
        Ok(msg) => {
            let funds: Vec<Coin> = Vec::new();
            assert(funds.deep_view() =~= Seq::<Holding>::empty());
            Ok(CosmosMsg::WasmExecute { contract_addr: contract_addr.clone(), msg, funds })
        },
        Err(_) => Err(ContractError::Std(StdErrorKind::SerializeErr {})),
    }
}

/// Whether a transfer of each entry of `tokens` to `to` can be encoded.
pub open spec fn all_encode(to: Seq<char>, tokens: Seq<Holding>) -> bool {
    forall|i: int| 0 <= i < tokens.len() ==> transfer_call(to, (#[trigger] tokens[i]).amount) is Some
}

/// The call that moves the tokens of the entry `token` to `to`.
pub open spec fn token_call(to: Seq<char>, token: Holding) -> CosmosMsgView {
    CosmosMsgView::WasmExecute {
        contract_addr: token.key,
        msg: transfer_call(to, token.amount)->0,
        funds: Seq::empty(),
    }
}

/// The instructions that pay `balance` out to `to`: one bank transfer of
/// all native coins, unless no native coin is held, then one call per token
/// in the order of the token holdings. `None` if one of the calls cannot be
/// encoded.
pub open spec fn release(to: Seq<char>, balance: GenericBalanceView) -> Option<Seq<CosmosMsgView>> {
    if all_encode(to, balance.cw20) {
        let bank = if balance.native.len() == 0 {
            Seq::empty()
        } else {
            seq![CosmosMsgView::BankSend { to_address: to, amount: balance.native }]
        };
        Some(bank + Seq::new(balance.cw20.len(), |i: int| token_call(to, balance.cw20[i])))
    } else {
        None
    }
}

/// What `release` puts where: the bank transfer comes first and carries the
/// native holdings as they are; the call for the token holding `i` follows
/// at the same distance from the first call, addressed to that token's
/// contract and moving that holding's amount.
pub proof fn law_release_pays_balance(to: Seq<char>, balance: GenericBalanceView)
    requires
        release(to, balance) is Some,
    ensures
        ({
            let out = release(to, balance)->0;
            let calls_from: int = if balance.native.len() == 0 {
                0
            } else {
                1
            };
            &&& out.len() == calls_from + balance.cw20.len()
            &&& balance.native.len() > 0 ==> out[0] == (CosmosMsgView::BankSend {
                to_address: to,
                amount: balance.native,
            })
            &&& forall|i: int|
                0 <= i < balance.cw20.len() ==> #[trigger] out[calls_from + i] == (
                CosmosMsgView::WasmExecute {
                    contract_addr: balance.cw20[i].key,
                    msg: transfer_call(to, balance.cw20[i].amount)->0,
                    funds: Seq::empty(),
                })
        }),
{
}

/// A copy of `coins`.
fn clone_coins(coins: &Vec<Coin>) -> (r: Vec<Coin>)
    ensures
        r.deep_view() == coins.deep_view(),
{
    let r = coins.clone();
    assert(r.deep_view() =~= coins.deep_view());
    r
}

/// The instructions that pay `balance` out to `to`. Fails with a
/// serialization error if the call for one of the tokens cannot be encoded.
pub fn send_tokens(to: &String, balance: &GenericBalance) -> (r: Result<Vec<CosmosMsg>, ContractError>)
    ensures
        match r {
            Ok(msgs) => release(to@, balance@) == Some(msgs.deep_view()),
            Err(e) => release(to@, balance@) is None && e == ContractError::Std(
                StdErrorKind::SerializeErr {},
            ),
        },
{
    let mut msgs: Vec<CosmosMsg> = Vec::new();
    if balance.native.len() > 0 {
        msgs.push(CosmosMsg::BankSend { to_address: to.clone(), amount: clone_coins(&balance.native) });
    }
    let ghost bank = msgs.deep_view();
    let ghost tokens = balance.cw20.deep_view();
    assert(bank =~= if balance@.native.len() == 0 {
        Seq::<CosmosMsgView>::empty()
    } else {
        seq![CosmosMsgView::BankSend { to_address: to@, amount: balance@.native }]
    });
    let mut i: usize = 0;
    while i < balance.cw20.len()
        invariant
            i <= balance.cw20.len(),
            tokens == balance.cw20.deep_view(),
            tokens == balance@.cw20,
            forall|j: int| 0 <= j < i ==> transfer_call(to@, (#[trigger] tokens[j]).amount) is Some,
            msgs.deep_view() == bank + Seq::new(i as nat, |j: int| token_call(to@, tokens[j])),
        decreases balance.cw20.len() - i,
    {
        let token = &balance.cw20[i];
        let encoded = encode_transfer(to, token.amount);
        assert(tokens[i as int] == token@);
        match wasm_execute(&token.address, encoded) {
            Ok(call) => {
                let ghost before = msgs.deep_view();
                msgs.push(call);
                assert(msgs.deep_view() =~= before.push(call@));
                assert(before.push(call@) =~= bank + Seq::new(
                    (i + 1) as nat,
                    |j: int| token_call(to@, tokens[j]),
                ));
            },
            Err(e) => {
                assert(!all_encode(to@, tokens));
                return Err(e);
            },
        }
        i += 1;
    }
    assert(all_encode(to@, tokens));
    Ok(msgs)
}

} // verus!
