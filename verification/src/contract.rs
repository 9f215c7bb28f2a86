//! The transitions of the engine.
//!
//! Each request is a step from one state to the next. What a step does is
//! defined once, on the contents of the state (the `*_step` functions); the
//! function that carries a request out is proved to make exactly that step.
//! A step that fails changes nothing.

use vstd::prelude::*;

use crate::balance::{
    distinct_keys, law_merge_keeps_order, law_merge_one_keeps_order, law_merge_one_total,
    law_merge_totals, law_total_bounds, merge, share, total, Balance, BalanceView,
    Cw20CoinVerified, GenericBalance, GenericBalanceView, Holding,
};
use crate::error::{ContractError, StdErrorKind};
use crate::msg::{
    Attribute, ConstantMsg, ConstantMsgView, CosmosMsgView, CreateMsg, CreateMsgView,
    Cw20Coin, Cw20ReceiveMsg, Cw20ReceiveMsgView, DetailsResponse, DetailsResponseView, ExecuteMsg,
    ExecuteMsgView, InstantiateMsg, ListResponse, MessageInfo, MessageInfoView, QueryMsg,
    QueryMsgView, QueryResponse, QueryResponseView, ReceiveMsg, ReceiveMsgView, Response,
    ResponseView,
};
use crate::state::{
    law_with_escrow_wf, AccountInfo, AccountInfoView, Constants, ConstantsView, Escrow,
    EscrowView, Store, StoreView,
};
use crate::transfer::{law_release_pays_balance, release, send_tokens, transfer_call};

verus! {

/// The notes of a request that went through, with the instructions
/// `messages`.
pub open spec fn noted(
    messages: Seq<CosmosMsgView>,
    attributes: Seq<(Seq<char>, Seq<char>)>,
) -> ResponseView {
    ResponseView { messages, attributes }
}

/// Whether the deposit may fund a new escrow: native coins always, tokens
/// only of the contract that the governance values name as `rate_manager`.
pub open spec fn deposit_accepted(constants: ConstantsView, balance: BalanceView) -> bool {
    match balance {
        BalanceView::Native(_) => true,
        BalanceView::Cw20(token) => token.key == constants.rate_manager,
    }
}

/// The whitelist of a new escrow: the one asked for, and at its end the
/// contract of the deposited token if it was not asked for.
pub open spec fn first_whitelist(asked: Seq<Seq<char>>, balance: BalanceView) -> Seq<Seq<char>> {
    match balance {
        BalanceView::Native(_) => asked,
        BalanceView::Cw20(token) => if asked.contains(token.key) {
            asked
        } else {
            asked.push(token.key)
        },
    }
}

/// The holdings of a new escrow: the deposit, as it came.
pub open spec fn first_balance(balance: BalanceView) -> GenericBalanceView {
    match balance {
        BalanceView::Native(coins) => GenericBalanceView { native: coins, cw20: Seq::empty() },
        BalanceView::Cw20(token) => GenericBalanceView { native: Seq::empty(), cw20: seq![token] },
    }
}

/// The escrow that `sender` makes with `msg` and the deposit `balance`.
pub open spec fn new_escrow(msg: CreateMsgView, balance: BalanceView, sender: Seq<char>) -> EscrowView {
    EscrowView {
        client: sender,
        accountinfo: Seq::empty(),
        end_time: msg.end_time,
        balance: first_balance(balance),
        cw20_whitelist: first_whitelist(msg.addr_whitelist(), balance),
        title: msg.title,
        url: msg.url,
        threshold: msg.threshold,
        state: 0,
    }
}

/// Making an escrow. The deposit must carry value and be accepted, and the
/// id must be free; the checks are made in this order.
pub open spec fn create_step(
    s: StoreView,
    msg: CreateMsgView,
    balance: BalanceView,
    sender: Seq<char>,
) -> Result<(StoreView, ResponseView), ContractError> {
    if balance.is_empty() {
        Err(ContractError::EmptyBalance {})
    } else if !deposit_accepted(s.constants, balance) {
        Err(ContractError::Unauthorized {})
    } else if s.escrows.contains_key(msg.id) {
        Err(ContractError::AlreadyInUse {})
    } else {
        Ok(
            (
                s.with_escrow(msg.id, new_escrow(msg, balance, sender)),
                noted(Seq::empty(), seq![("action"@, "create"@), ("id"@, msg.id)]),
            ),
        )
    }
}

/// Whether the escrow takes the deposit: native coins always, tokens only
/// of a contract on its whitelist.
pub open spec fn on_whitelist(escrow: EscrowView, balance: BalanceView) -> bool {
    match balance {
        BalanceView::Native(_) => true,
        BalanceView::Cw20(token) => escrow.cw20_whitelist.contains(token.key),
    }
}

/// The record of a top-up: the token amount is zero for native coins.
pub open spec fn funding(
    sender: Seq<char>,
    balance: BalanceView,
    start_time: u64,
    end_time: u64,
) -> AccountInfoView {
    AccountInfoView {
        addr: sender,
        amount: match balance {
            BalanceView::Native(_) => 0,
            BalanceView::Cw20(token) => token.amount,
        },
        start_time,
        end_time,
    }
}

/// The escrow after a top-up that merged the deposit into `balance`.
pub open spec fn topped_up(
    escrow: EscrowView,
    record: AccountInfoView,
    balance: GenericBalanceView,
) -> EscrowView {
    EscrowView {
        client: escrow.client,
        accountinfo: escrow.accountinfo.push(record),
        end_time: escrow.end_time,
        balance,
        cw20_whitelist: escrow.cw20_whitelist,
        title: escrow.title,
        url: escrow.url,
        threshold: escrow.threshold,
        state: escrow.state,
    }
}

/// Adding funds to an escrow. The deposit must carry value, the escrow must
/// exist and take the deposit, and the sums must fit; the checks are made in
/// this order.
pub open spec fn top_up_step(
    s: StoreView,
    id: Seq<char>,
    start_time: u64,
    end_time: u64,
    balance: BalanceView,
    sender: Seq<char>,
) -> Result<(StoreView, ResponseView), ContractError> {
    if balance.is_empty() {
        Err(ContractError::EmptyBalance {})
    } else if !s.escrows.contains_key(id) {
        Err(ContractError::Std(StdErrorKind::NotFound {}))
    } else if !on_whitelist(s.escrows[id], balance) {
        Err(ContractError::NotInWhitelist {})
    } else {
        match merge(s.escrows[id].balance, balance) {
            None => Err(ContractError::Std(StdErrorKind::Overflow {})),
            Some(merged) => Ok(
                (
                    s.with_escrow(
                        id,
                        topped_up(
                            s.escrows[id],
                            funding(sender, balance, start_time, end_time),
                            merged,
                        ),
                    ),
                    noted(Seq::empty(), seq![("action"@, "top_up"@), ("id"@, id)]),
                ),
            ),
        }
    }
}

/// Who may release an escrow: its client, and the manager.
pub open spec fn may_approve(requester: Seq<char>, client: Seq<char>, manager: Seq<char>) -> bool {
    requester == client || requester == manager
}

/// Who may have an escrow refunded: anyone. Neither the requester nor the
/// deadline of the escrow is looked at.
pub open spec fn may_refund(requester: Seq<char>, escrow: EscrowView) -> bool {
    true
}

/// Releasing an escrow to its client. The state stays as it is: the escrow
/// is neither removed nor emptied. The instructions pay the whole balance
/// out to the client. A payment of the same balance to the manager is drawn
/// up as well, and the step fails if that cannot be done, but no
/// instruction is handed out for it.
pub open spec fn approve_step(s: StoreView, id: Seq<char>, requester: Seq<char>) -> Result<
    (StoreView, ResponseView),
    ContractError,
> {
    if !s.escrows.contains_key(id) {
        Err(ContractError::Std(StdErrorKind::NotFound {}))
    } else if !may_approve(requester, s.escrows[id].client, s.constants.manager_addr) {
        Err(ContractError::Unauthorized {})
    } else if release(s.escrows[id].client, s.escrows[id].balance) is None || release(
        s.constants.manager_addr,
        s.escrows[id].balance,
    ) is None {
        Err(ContractError::Std(StdErrorKind::SerializeErr {}))
    } else {
        Ok(
            (
                s,
                noted(
                    release(s.escrows[id].client, s.escrows[id].balance)->0,
                    seq![("action"@, "approve"@), ("id"@, id), ("to"@, s.escrows[id].client)],
                ),
            ),
        )
    }
}

/// Refunding an escrow. Any requester may ask, and the instructions pay the
/// whole balance out to the requester. The state stays as it is.
pub open spec fn refund_step(s: StoreView, id: Seq<char>, requester: Seq<char>) -> Result<
    (StoreView, ResponseView),
    ContractError,
> {
    if !s.escrows.contains_key(id) {
        Err(ContractError::Std(StdErrorKind::NotFound {}))
    } else if !may_refund(requester, s.escrows[id]) {
        Err(ContractError::Unauthorized {})
    } else if release(requester, s.escrows[id].balance) is None {
        Err(ContractError::Std(StdErrorKind::SerializeErr {}))
    } else {
        Ok(
            (
                s,
                noted(
                    release(requester, s.escrows[id].balance)->0,
                    seq![("action"@, "refund"@), ("id"@, id), ("to"@, s.escrows[id].client)],
                ),
            ),
        )
    }
}

/// Who may set the governance values: anyone as long as no manager is
/// named, then the manager alone.
pub open spec fn may_set_constants(constants: ConstantsView, requester: Seq<char>) -> bool {
    constants.manager_addr.len() == 0 || requester == constants.manager_addr
}

/// The governance values after `msg` has set them.
pub open spec fn constants_set(constants: ConstantsView, msg: ConstantMsgView) -> ConstantsView {
    ConstantsView {
        manager_addr: msg.manager_addr,
        min_stake: msg.min_stake,
        rate_client: msg.rate_client,
        rate_manager: msg.rate_manager,
        dev_addr: constants.dev_addr,
    }
}

/// Setting the governance values.
pub open spec fn set_constant_step(s: StoreView, requester: Seq<char>, msg: ConstantMsgView) -> Result<
    (StoreView, ResponseView),
    ContractError,
> {
    if !may_set_constants(s.constants, requester) {
        Err(ContractError::Unauthorized {})
    } else {
        Ok(
            (
                s.with_constants(constants_set(s.constants, msg)),
                noted(Seq::empty(), seq![("action"@, "setcontant"@)]),
            ),
        )
    }
}

/// A deposit of tokens that came through the token contract `token`: the
/// deposit is `wrapper.amount` of that token, and the party that sent the
/// tokens makes or tops up the escrow.
pub open spec fn receive_step(s: StoreView, token: Seq<char>, wrapper: Cw20ReceiveMsgView) -> Result<
    (StoreView, ResponseView),
    ContractError,
> {
    let balance = BalanceView::Cw20(Holding { key: token, amount: wrapper.amount });
    match wrapper.msg {
        ReceiveMsgView::Create(msg) => create_step(s, msg, balance, wrapper.sender),
        ReceiveMsgView::TopUp { id, start_time, end_time } => top_up_step(
            s,
            id,
            start_time,
            end_time,
            balance,
            wrapper.sender,
        ),
    }
}

/// What a request does to the state, and what it hands back.
pub open spec fn execute_step(s: StoreView, info: MessageInfoView, msg: ExecuteMsgView) -> Result<
    (StoreView, ResponseView),
    ContractError,
> {
    match msg {
        ExecuteMsgView::Create(msg) => create_step(
            s,
            msg,
            BalanceView::Native(info.funds),
            info.sender,
        ),
        ExecuteMsgView::Approve { id } => approve_step(s, id, info.sender),
        ExecuteMsgView::TopUp { id, start_time, end_time } => top_up_step(
            s,
            id,
            start_time,
            end_time,
            BalanceView::Native(info.funds),
            info.sender,
        ),
        ExecuteMsgView::Refund { id } => refund_step(s, id, info.sender),
        ExecuteMsgView::Receive(wrapper) => receive_step(s, info.sender, wrapper),
        ExecuteMsgView::SetConstant(msg) => set_constant_step(s, info.sender, msg),
    }
}

/// Whether `requester` may release the escrow of `client` while `manager` is
/// the manager.
pub fn is_approver(requester: &String, client: &String, manager: &String) -> (r: bool)
    ensures
        r == may_approve(requester@, client@, manager@),
{
    *requester == *client || *requester == *manager
}

/// Whether `requester` may set the governance values while they are
/// `constants`.
pub fn is_constants_setter(constants: &Constants, requester: &String) -> (r: bool)
    ensures
        r == may_set_constants(constants@, requester@),
{
    constants.manager_addr.as_str().unicode_len() == 0 || *requester == constants.manager_addr
}

/// Builds a note.
fn attr(key: &str, value: &str) -> (r: Attribute)
    ensures
        r@ == (key@, value@),
{
    Attribute { key: String::from_str(key), value: String::from_str(value) }
}

/// Whether `list` holds `item`.
fn contains_string(list: &Vec<String>, item: &String) -> (r: bool)
    ensures
        r == list.deep_view().contains(item@),
{
    let mut i: usize = 0;
    while i < list.len()
        invariant
            i <= list.len(),
            forall|j: int| 0 <= j < i ==> #[trigger] list.deep_view()[j] != item@,
        decreases list.len() - i,
    {
        if list[i] == *item {
            assert(list.deep_view()[i as int] == item@);
            return true;
        }
        i += 1;
    }
    false
}

/// Sets the engine up: the governance values go back to their initial
/// values. The escrows stay as they are.
pub fn instantiate(store: &mut Store, info: MessageInfo, msg: InstantiateMsg) -> (r: Result<
    Response,
    StdErrorKind,
>)
    ensures
        r matches Ok(response) && response@ == noted(Seq::empty(), Seq::empty()),
        final(store)@ == old(store)@.with_constants(ConstantsView::initial()),
{
    store.set_constants(Constants::default());
    Ok(Response::default())
}

/// Carries a request out: makes the step that `execute_step` defines, or
/// fails as it does and changes nothing.
pub fn execute(store: &mut Store, info: MessageInfo, msg: ExecuteMsg) -> (r: Result<
    Response,
    ContractError,
>)
    ensures
        match r {
            Ok(response) => execute_step(old(store)@, info@, msg@) matches Ok(next) && next.0
                == final(store)@ && next.1 == response@,
            Err(e) => execute_step(old(store)@, info@, msg@) matches Err(cause) && cause == e
                && *final(store) == *old(store),
        },
{
    match msg {
        ExecuteMsg::Create(msg) => {
            let sender = info.sender;
            execute_create(store, msg, Balance::from(info.funds), &sender)
        },
        ExecuteMsg::Approve { id } => execute_approve(store, info, id),
        ExecuteMsg::TopUp { id, start_time, end_time } => {
            let sender = info.sender;
            execute_top_up(store, id, start_time, end_time, Balance::from(info.funds), &sender)
        },
        ExecuteMsg::Refund { id } => execute_refund(store, info, id),
        ExecuteMsg::Receive(msg) => execute_receive(store, info, msg),
        ExecuteMsg::SetConstant(msg) => execute_setconstant(store, info, msg),
    }
}

/// Sets the governance values, all of them together.
///
/// As long as no manager is named, any sender may do so; after that only
/// the manager.
pub fn execute_setconstant(store: &mut Store, info: MessageInfo, msg: ConstantMsg) -> (r: Result<
    Response,
    ContractError,
>)
    ensures
        match r {
            Ok(response) => set_constant_step(old(store)@, info.sender@, msg@) matches Ok(next)
                && next.0 == final(store)@ && next.1 == response@,
            Err(e) => set_constant_step(old(store)@, info.sender@, msg@) matches Err(cause)
                && cause == e && *final(store) == *old(store),
        },
        old(store)@.constants.manager_addr.len() == 0 ==> r is Ok,
{
    if !is_constants_setter(store.constants(), &info.sender) {
        return Err(ContractError::Unauthorized {});
    }
    let constants = Constants {
        manager_addr: msg.manager_addr,
        min_stake: msg.min_stake,
        rate_client: msg.rate_client,
        rate_manager: msg.rate_manager,
        dev_addr: store.constants().dev_addr.clone(),
    };
    store.set_constants(constants);
    let mut attributes: Vec<Attribute> = Vec::new();
    attributes.push(attr("action", "setcontant"));
    let response = Response { messages: Vec::new(), attributes };
    assert(response@.messages =~= Seq::empty());
    assert(response@.attributes =~= seq![("action"@, "setcontant"@)]);
    Ok(response)
}

/// Handles a deposit of tokens that came through their contract, which is
/// the sender of the request: makes or tops up an escrow for the party that
/// sent the tokens.
pub fn execute_receive(store: &mut Store, info: MessageInfo, wrapper: Cw20ReceiveMsg) -> (r: Result<
    Response,
    ContractError,
>)
    ensures
        match r {
            Ok(response) => receive_step(old(store)@, info.sender@, wrapper@) matches Ok(next)
                && next.0 == final(store)@ && next.1 == response@,
            Err(e) => receive_step(old(store)@, info.sender@, wrapper@) matches Err(cause) && cause
                == e && *final(store) == *old(store),
        },
{
    let balance = Balance::Cw20(Cw20CoinVerified { address: info.sender, amount: wrapper.amount });
    let sender = wrapper.sender;
    match wrapper.msg {
        ReceiveMsg::Create(msg) => execute_create(store, msg, balance, &sender),
        ReceiveMsg::TopUp { id, start_time, end_time } => execute_top_up(
            store,
            id,
            start_time,
            end_time,
            balance,
            &sender,
        ),
    }
}

/// Makes an escrow for `sender`, funded with `balance`, under `msg.id`.
pub fn execute_create(store: &mut Store, msg: CreateMsg, balance: Balance, sender: &String) -> (r:
    Result<Response, ContractError>)
    ensures
        match r {
            Ok(response) => create_step(old(store)@, msg@, balance@, sender@) matches Ok(next)
                && next.0 == final(store)@ && next.1 == response@,
            Err(e) => create_step(old(store)@, msg@, balance@, sender@) matches Err(cause) && cause
                == e && *final(store) == *old(store),
        },
{
    if balance.is_empty() {
        return Err(ContractError::EmptyBalance {});
    }
    let mut cw20_whitelist = msg.addr_whitelist();
    let escrow_balance = match balance {
        Balance::Native(coins) => GenericBalance { native: coins, cw20: Vec::new() },
        Balance::Cw20(token) => {
            if !(token.address == store.constants().rate_manager) {
                return Err(ContractError::Unauthorized {});
            }
            if !contains_string(&cw20_whitelist, &token.address) {
                let ghost asked = cw20_whitelist.deep_view();
                cw20_whitelist.push(token.address.clone());
                assert(cw20_whitelist.deep_view() =~= asked.push(token.address@));
            }
            let mut cw20: Vec<Cw20CoinVerified> = Vec::new();
            cw20.push(token);
            assert(cw20.deep_view() =~= seq![token@]);
            GenericBalance { native: Vec::new(), cw20 }
        },
    };
    assert(escrow_balance@.native =~= first_balance(balance@).native);
    assert(escrow_balance@.cw20 =~= first_balance(balance@).cw20);
    if store.has(&msg.id) {
        return Err(ContractError::AlreadyInUse {});
    }
    let mut attributes: Vec<Attribute> = Vec::new();
    attributes.push(attr("action", "create"));
    attributes.push(attr("id", msg.id.as_str()));
    let response = Response { messages: Vec::new(), attributes };
    assert(response@.messages =~= Seq::empty());
    assert(response@.attributes =~= seq![("action"@, "create"@), ("id"@, msg.id@)]);
    let escrow = Escrow {
        client: sender.clone(),
        accountinfo: Vec::new(),
        end_time: msg.end_time,
        balance: escrow_balance,
        cw20_whitelist,
        title: msg.title,
        url: msg.url,
        threshold: msg.threshold,
        state: 0,
    };
    assert(escrow@.accountinfo =~= Seq::empty());
    store.save(msg.id, escrow);
    Ok(response)
}

/// Adds the deposit `balance` to the escrow under `id` and records the
/// funding by `sender`.
pub fn execute_top_up(
    store: &mut Store,
    id: String,
    start_time: u64,
    end_time: u64,
    balance: Balance,
    sender: &String,
) -> (r: Result<Response, ContractError>)
    ensures
        match r {
            Ok(response) => top_up_step(
                old(store)@,
                id@,
                start_time,
                end_time,
                balance@,
                sender@,
            ) matches Ok(next) && next.0 == final(store)@ && next.1 == response@,
            Err(e) => top_up_step(old(store)@, id@, start_time, end_time, balance@, sender@) matches Err(
                cause,
            ) && cause == e && *final(store) == *old(store),
        },
{
    if balance.is_empty() {
        return Err(ContractError::EmptyBalance {});
    }
    let mut escrow = match store.load(&id) {
        Ok(stored) => stored.clone(),
        Err(e) => {
            return Err(ContractError::Std(e));
        },
    };
    let ghost stored = escrow@;
    let mut cwval: u128 = 0;
    if let Balance::Cw20(token) = &balance {
        if !contains_string(&escrow.cw20_whitelist, &token.address) {
            return Err(ContractError::NotInWhitelist {});
        } else {
            cwval = token.amount;
        }
    }
    let accountinfo = AccountInfo { addr: sender.clone(), amount: cwval, start_time, end_time };
    assert(accountinfo@ == funding(sender@, balance@, start_time, end_time));
    escrow.accountinfo.push(accountinfo);
    assert(escrow@.accountinfo =~= stored.accountinfo.push(accountinfo@));
    match escrow.balance.add_tokens(balance) {
        Ok(()) => {},
        Err(e) => {
            return Err(e);
        },
    }
    let mut attributes: Vec<Attribute> = Vec::new();
    attributes.push(attr("action", "top_up"));
    attributes.push(attr("id", id.as_str()));
    let response = Response { messages: Vec::new(), attributes };
    assert(response@.messages =~= Seq::empty());
    assert(response@.attributes =~= seq![("action"@, "top_up"@), ("id"@, id@)]);
    store.save(id, escrow);
    Ok(response)
}

/// Releases the escrow under `id` to its client, if the sender is the
/// client or the manager.
pub fn execute_approve(store: &mut Store, info: MessageInfo, id: String) -> (r: Result<
    Response,
    ContractError,
>)
    ensures
        match r {
            Ok(response) => approve_step(old(store)@, id@, info.sender@) matches Ok(next) && next.0
                == final(store)@ && next.1 == response@,
            Err(e) => approve_step(old(store)@, id@, info.sender@) matches Err(cause) && cause == e,
        },
        *final(store) == *old(store),
{
    let escrow = match store.load(&id) {
        Ok(stored) => stored,
        Err(e) => {
            return Err(ContractError::Std(e));
        },
    };
    let manager = &store.constants().manager_addr;
    if !is_approver(&info.sender, &escrow.client, manager) {
        return Err(ContractError::Unauthorized {});
    }
    let to_client = match send_tokens(&escrow.client, &escrow.balance) {
        Ok(msgs) => msgs,
        Err(e) => {
            return Err(e);
        },
    };
    match send_tokens(manager, &escrow.balance) {
        Ok(_) => {},
        Err(e) => {
            return Err(e);
        },
    }
    let mut attributes: Vec<Attribute> = Vec::new();
    attributes.push(attr("action", "approve"));
    attributes.push(attr("id", id.as_str()));
    attributes.push(attr("to", escrow.client.as_str()));
    let response = Response { messages: to_client, attributes };
    assert(response@.attributes =~= seq![
        ("action"@, "approve"@),
        ("id"@, id@),
        ("to"@, escrow@.client),
    ]);
    Ok(response)
}

/// Hands the holdings of the escrow under `id` to the sender.
pub fn execute_refund(store: &mut Store, info: MessageInfo, id: String) -> (r: Result<
    Response,
    ContractError,
>)
    ensures
        match r {
            Ok(response) => refund_step(old(store)@, id@, info.sender@) matches Ok(next) && next.0
                == final(store)@ && next.1 == response@,
            Err(e) => refund_step(old(store)@, id@, info.sender@) matches Err(cause) && cause == e,
        },
        *final(store) == *old(store),
{
    let escrow = match store.load(&id) {
        Ok(stored) => stored,
        Err(e) => {
            return Err(ContractError::Std(e));
        },
    };
    let messages = match send_tokens(&info.sender, &escrow.balance) {
        Ok(msgs) => msgs,
        Err(e) => {
            return Err(e);
        },
    };
    let mut attributes: Vec<Attribute> = Vec::new();
    attributes.push(attr("action", "refund"));
    attributes.push(attr("id", id.as_str()));
    attributes.push(attr("to", escrow.client.as_str()));
    let response = Response { messages, attributes };
    assert(response@.attributes =~= seq![
        ("action"@, "refund"@),
        ("id"@, id@),
        ("to"@, escrow@.client),
    ]);
    Ok(response)
}

/// What a query reports of the governance values.
pub open spec fn constants_reported(constants: ConstantsView) -> ConstantMsgView {
    ConstantMsgView {
        manager_addr: constants.manager_addr,
        min_stake: constants.min_stake,
        rate_client: constants.rate_client,
        rate_manager: constants.rate_manager,
    }
}

/// What a query reports of the escrow stored under `id`.
pub open spec fn details_reported(id: Seq<char>, escrow: EscrowView) -> DetailsResponseView {
    DetailsResponseView {
        id,
        client: escrow.client,
        end_time: escrow.end_time,
        native_balance: escrow.balance.native,
        cw20_balance: escrow.balance.cw20,
        cw20_whitelist: escrow.cw20_whitelist,
    }
}

/// The answer to a query.
pub open spec fn answer(s: StoreView, msg: QueryMsgView) -> Result<QueryResponseView, StdErrorKind> {
    match msg {
        QueryMsgView::List {} => Ok(QueryResponseView::List(s.ids)),
        QueryMsgView::Details { id } => if s.escrows.contains_key(id) {
            Ok(QueryResponseView::Details(details_reported(id, s.escrows[id])))
        } else {
            Err(StdErrorKind::NotFound {})
        },
        QueryMsgView::Constants {} => Ok(QueryResponseView::Constants(constants_reported(s.constants))),
    }
}

/// Answers a query. The state is only read.
pub fn query(store: &Store, msg: QueryMsg) -> (r: Result<QueryResponse, StdErrorKind>)
    ensures
        match r {
            Ok(response) => answer(store@, msg@) == Ok::<QueryResponseView, StdErrorKind>(response@),
            Err(e) => answer(store@, msg@) == Err::<QueryResponseView, StdErrorKind>(e),
        },
{
    match msg {
        QueryMsg::List {} => match query_list(store) {
            Ok(list) => Ok(QueryResponse::List(list)),
            Err(e) => Err(e),
        },
        QueryMsg::Details { id } => match query_details(store, id) {
            Ok(details) => Ok(QueryResponse::Details(details)),
            Err(e) => Err(e),
        },
        QueryMsg::Constants {} => match query_constants(store) {
            Ok(constants) => Ok(QueryResponse::Constants(constants)),
            Err(e) => Err(e),
        },
    }
}

/// Reports the escrow stored under `id`: its client, its deadline, its
/// holdings and its whitelist.
pub fn query_details(store: &Store, id: String) -> (r: Result<DetailsResponse, StdErrorKind>)
    ensures
        match r {
            Ok(details) => store@.escrows.contains_key(id@) && details@ == details_reported(
                id@,
                store@.escrows[id@],
            ),
            Err(e) => !store@.escrows.contains_key(id@) && e == (StdErrorKind::NotFound {}),
        },
{
    let escrow = match store.load(&id) {
        Ok(stored) => stored,
        Err(e) => {
            return Err(e);
        },
    };
    let cw20_whitelist = escrow.human_whitelist();
    let native_balance = escrow.balance.native.clone();
    assert(native_balance.deep_view() =~= escrow@.balance.native);
    let mut cw20_balance: Vec<Cw20Coin> = Vec::new();
    let mut i: usize = 0;
    while i < escrow.balance.cw20.len()
        invariant
            i <= escrow.balance.cw20.len(),
            cw20_balance.len() == i,
            forall|j: int| 0 <= j < i ==> (#[trigger] cw20_balance[j])@ == escrow.balance.cw20[j]@,
        decreases escrow.balance.cw20.len() - i,
    {
        let token = &escrow.balance.cw20[i];
        cw20_balance.push(Cw20Coin { address: token.address.clone(), amount: token.amount });
        i += 1;
    }
    assert(cw20_balance.deep_view() =~= escrow@.balance.cw20);
    Ok(
        DetailsResponse {
            id,
            client: escrow.client.clone(),
            end_time: escrow.end_time,
            native_balance,
            cw20_balance,
            cw20_whitelist,
        },
    )
}

/// Reports the ids of all escrows, in the order in which they were made.
pub fn query_list(store: &Store) -> (r: Result<ListResponse, StdErrorKind>)
    ensures
        r matches Ok(list) && list.escrows.deep_view() == store@.ids,
{
    Ok(ListResponse { escrows: store.ids() })
}

/// Reports the governance values.
pub fn query_constants(store: &Store) -> (r: Result<ConstantMsg, StdErrorKind>)
    ensures
        r matches Ok(constants) && constants@ == constants_reported(store@.constants),
{
    let constants = store.constants();
    Ok(
        ConstantMsg {
            manager_addr: constants.manager_addr.clone(),
            min_stake: constants.min_stake.clone(),
            rate_client: constants.rate_client.clone(),
            rate_manager: constants.rate_manager.clone(),
        },
    )
}

/// An id is given out once. After an escrow has been made, making another
/// under the same id fails, whoever asks and whatever the deposit; it fails
/// because the id is in use whenever the deposit itself would have been
/// taken. The escrow under the id is the one that was made first.
pub proof fn law_create_twice(
    s: StoreView,
    first: CreateMsgView,
    first_balance: BalanceView,
    first_sender: Seq<char>,
    second: CreateMsgView,
    second_balance: BalanceView,
    second_sender: Seq<char>,
)
    requires
        create_step(s, first, first_balance, first_sender) is Ok,
        second.id == first.id,
    ensures
        ({
            let next = create_step(s, first, first_balance, first_sender)->Ok_0.0;
            &&& next.escrows.contains_key(first.id)
            &&& next.escrows[first.id] == new_escrow(first, first_balance, first_sender)
            &&& create_step(next, second, second_balance, second_sender) is Err
            &&& !second_balance.is_empty() && deposit_accepted(next.constants, second_balance)
                ==> create_step(next, second, second_balance, second_sender) == Err::<
                (StoreView, ResponseView),
                ContractError,
            >(ContractError::AlreadyInUse {})
        }),
{
}

/// A deposit of tokens whose contract is not on the whitelist of the
/// escrow is turned down as such, provided that it carries value and the
/// escrow exists.
pub proof fn law_top_up_outside_whitelist(
    s: StoreView,
    id: Seq<char>,
    start_time: u64,
    end_time: u64,
    token: Holding,
    sender: Seq<char>,
)
    requires
        token.amount != 0,
        s.escrows.contains_key(id),
        !s.escrows[id].cw20_whitelist.contains(token.key),
    ensures
        top_up_step(s, id, start_time, end_time, BalanceView::Cw20(token), sender) == Err::<
            (StoreView, ResponseView),
            ContractError,
        >(ContractError::NotInWhitelist {}),
{
}

/// A top-up adds to the escrow exactly what was deposited: of each native
/// denomination and of each token the escrow then holds what it held plus
/// what came in. It records the funding at the end of the log, keeps the
/// whitelist, and touches no other escrow.
pub proof fn law_top_up_adds_deposit(
    s: StoreView,
    id: Seq<char>,
    start_time: u64,
    end_time: u64,
    balance: BalanceView,
    sender: Seq<char>,
    key: Seq<char>,
)
    requires
        top_up_step(s, id, start_time, end_time, balance, sender) is Ok,
    ensures
        ({
            let next = top_up_step(s, id, start_time, end_time, balance, sender)->Ok_0.0;
            let before = s.escrows[id];
            let after = next.escrows[id];
            &&& s.escrows.contains_key(id)
            &&& next.escrows == s.escrows.insert(id, after)
            &&& next.ids == s.ids
            &&& after.accountinfo == before.accountinfo.push(
                funding(sender, balance, start_time, end_time),
            )
            &&& after.cw20_whitelist == before.cw20_whitelist
            &&& after.client == before.client
            &&& match balance {
                BalanceView::Native(coins) => {
                    &&& total(after.balance.native, key) == total(
                        before.balance.native,
                        key,
                    ) + total(coins, key)
                    &&& after.balance.cw20 == before.balance.cw20
                },
                BalanceView::Cw20(token) => {
                    &&& total(after.balance.cw20, key) == total(
                        before.balance.cw20,
                        key,
                    ) + share(token, key)
                    &&& after.balance.native == before.balance.native
                },
            }
        }),
{
    let before = s.escrows[id];
    match balance {
        BalanceView::Native(coins) => {
            law_merge_totals(before.balance.native, coins, key);
        },
        BalanceView::Cw20(token) => {
            law_merge_one_total(before.balance.cw20, token, key);
        },
    }
}

/// When the client of an escrow or the manager asks for its release, and
/// the token calls can be encoded, the release goes through, leaves the
/// state as it is, and hands out the instructions that pay the escrow's
/// balance out to the client: first one bank transfer with the native
/// holdings as they are (none if no native coin is held), then one call per
/// token holding, in the order of the holdings, each to that token's
/// contract and for that holding's amount.
pub proof fn law_approve_pays_balance(s: StoreView, id: Seq<char>, requester: Seq<char>)
    requires
        s.escrows.contains_key(id),
        requester == s.escrows[id].client || requester == s.constants.manager_addr,
        release(s.escrows[id].client, s.escrows[id].balance) is Some,
        release(s.constants.manager_addr, s.escrows[id].balance) is Some,
    ensures
        ({
            let client = s.escrows[id].client;
            let balance = s.escrows[id].balance;
            let calls_from: int = if balance.native.len() == 0 {
                0
            } else {
                1
            };
            &&& approve_step(s, id, requester) matches Ok(next)
            &&& next.0 == s
            &&& next.1.messages.len() == calls_from + balance.cw20.len()
            &&& balance.native.len() > 0 ==> next.1.messages[0] == (CosmosMsgView::BankSend {
                to_address: client,
                amount: balance.native,
            })
            &&& forall|i: int|
                0 <= i < balance.cw20.len() ==> #[trigger] next.1.messages[calls_from + i] == (
                CosmosMsgView::WasmExecute {
                    contract_addr: balance.cw20[i].key,
                    msg: transfer_call(client, balance.cw20[i].amount)->0,
                    funds: Seq::empty(),
                })
        }),
{
    law_release_pays_balance(s.escrows[id].client, s.escrows[id].balance);
}

/// As long as no manager is named, anyone may set the governance values.
/// Once a request has named a manager, a request by anyone else to set them
/// is turned down.
pub proof fn law_bootstrap_then_locked(
    s: StoreView,
    first_requester: Seq<char>,
    first: ConstantMsgView,
    second_requester: Seq<char>,
    second: ConstantMsgView,
)
    requires
        s.constants.manager_addr.len() == 0,
    ensures
        set_constant_step(s, first_requester, first) is Ok,
        first.manager_addr.len() != 0 && second_requester != first.manager_addr
            ==> set_constant_step(
            set_constant_step(s, first_requester, first)->Ok_0.0,
            second_requester,
            second,
        ) == Err::<(StoreView, ResponseView), ContractError>(ContractError::Unauthorized {}),
{
}

/// Every step keeps the state well-formed: no id is listed twice, and the
/// listed ids are those under which an escrow is stored.
pub proof fn law_steps_keep_wf(s: StoreView, info: MessageInfoView, msg: ExecuteMsgView)
    requires
        s.wf(),
        execute_step(s, info, msg) is Ok,
    ensures
        execute_step(s, info, msg)->Ok_0.0.wf(),
{
    let next = execute_step(s, info, msg)->Ok_0.0;
    match msg {
        ExecuteMsgView::Create(create) => {
            law_with_escrow_wf(
                s,
                create.id,
                new_escrow(create, BalanceView::Native(info.funds), info.sender),
            );
        },
        ExecuteMsgView::TopUp { id, start_time, end_time } => {
            law_with_escrow_wf(s, id, next.escrows[id]);
        },
        ExecuteMsgView::Receive(wrapper) => {
            let balance = BalanceView::Cw20(Holding { key: info.sender, amount: wrapper.amount });
            match wrapper.msg {
                ReceiveMsgView::Create(create) => {
                    law_with_escrow_wf(
                        s,
                        create.id,
                        new_escrow(create, balance, wrapper.sender),
                    );
                },
                ReceiveMsgView::TopUp { id, start_time, end_time } => {
                    law_with_escrow_wf(s, id, next.escrows[id]);
                },
            }
        },
        _ => {},
    }
}

/// What every step keeps of an escrow that exists. A release and a refund
/// change nothing in the state, and no step but the setting of the
/// governance values changes those. No step removes an escrow, changes its
/// client or its whitelist, takes a record from its funding log, lowers what
/// it holds of any asset, or brings a second entry for an asset into
/// holdings that had one entry per asset.
pub proof fn law_steps_keep_escrows(
    s: StoreView,
    info: MessageInfoView,
    msg: ExecuteMsgView,
    id: Seq<char>,
    key: Seq<char>,
)
    requires
        execute_step(s, info, msg) is Ok,
        s.escrows.contains_key(id),
    ensures
        ({
            let next = execute_step(s, info, msg)->Ok_0.0;
            let before = s.escrows[id];
            let after = next.escrows[id];
            &&& msg is Approve || msg is Refund ==> next == s
            &&& !(msg is SetConstant) ==> next.constants == s.constants
            &&& next.escrows.contains_key(id)
            &&& after.client == before.client
            &&& after.cw20_whitelist == before.cw20_whitelist
            &&& before.accountinfo.is_prefix_of(after.accountinfo)
            &&& total(after.balance.native, key) >= total(before.balance.native, key)
            &&& total(after.balance.cw20, key) >= total(before.balance.cw20, key)
            &&& distinct_keys(before.balance.native) ==> distinct_keys(after.balance.native)
            &&& distinct_keys(before.balance.cw20) ==> distinct_keys(after.balance.cw20)
        }),
{
    let before = s.escrows[id];
    match msg {
        ExecuteMsgView::TopUp { id: target, start_time, end_time } => {
            lemma_top_up_keeps(
                s,
                target,
                start_time,
                end_time,
                BalanceView::Native(info.funds),
                info.sender,
                id,
                key,
            );
        },
        ExecuteMsgView::Receive(wrapper) => {
            let balance = BalanceView::Cw20(Holding { key: info.sender, amount: wrapper.amount });
            match wrapper.msg {
                ReceiveMsgView::TopUp { id: target, start_time, end_time } => {
                    lemma_top_up_keeps(
                        s,
                        target,
                        start_time,
                        end_time,
                        balance,
                        wrapper.sender,
                        id,
                        key,
                    );
                },
                _ => {},
            }
        },
        _ => {},
    }
}

proof fn lemma_top_up_keeps(
    s: StoreView,
    target: Seq<char>,
    start_time: u64,
    end_time: u64,
    balance: BalanceView,
    sender: Seq<char>,
    id: Seq<char>,
    key: Seq<char>,
)
    requires
        top_up_step(s, target, start_time, end_time, balance, sender) is Ok,
        s.escrows.contains_key(id),
    ensures
        ({
            let next = top_up_step(s, target, start_time, end_time, balance, sender)->Ok_0.0;
            let before = s.escrows[id];
            let after = next.escrows[id];
            &&& next.constants == s.constants
            &&& next.escrows.contains_key(id)
            &&& after.client == before.client
            &&& after.cw20_whitelist == before.cw20_whitelist
            &&& before.accountinfo.is_prefix_of(after.accountinfo)
            &&& total(after.balance.native, key) >= total(before.balance.native, key)
            &&& total(after.balance.cw20, key) >= total(before.balance.cw20, key)
            &&& distinct_keys(before.balance.native) ==> distinct_keys(after.balance.native)
            &&& distinct_keys(before.balance.cw20) ==> distinct_keys(after.balance.cw20)
        }),
{
    if id == target {
        let before = s.escrows[id];
        match balance {
            BalanceView::Native(coins) => {
                law_merge_totals(before.balance.native, coins, key);
                law_merge_keeps_order(before.balance.native, coins);
                law_total_bounds(coins, key);
            },
            BalanceView::Cw20(token) => {
                law_merge_one_total(before.balance.cw20, token, key);
                law_merge_one_keeps_order(before.balance.cw20, token);
            },
        }
    }
}

} // verus!
