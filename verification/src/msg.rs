//! Requests, answers and outbound instructions.
//!
//! Addresses in these types are plain strings. The engine compares them for
//! equality and nothing else; whoever hands a request to the engine has
//! checked them.

use vstd::prelude::*;

use crate::balance::{Coin, Holding};

verus! {

/// The request that sets the engine up. It carries nothing.
#[derive(Debug, PartialEq, Eq)]
pub struct InstantiateMsg {}

/// Who sent a request, and the native coins that came with it.
#[derive(Debug, PartialEq, Eq)]
pub struct MessageInfo {
    pub sender: String,
    pub funds: Vec<Coin>,
}

/// What a `MessageInfo` holds.
pub struct MessageInfoView {
    pub sender: Seq<char>,
    pub funds: Seq<Holding>,
}

impl View for MessageInfo {
    type V = MessageInfoView;

    open spec fn view(&self) -> MessageInfoView {
        MessageInfoView { sender: self.sender@, funds: self.funds.deep_view() }
    }
}

/// The description of a new escrow.
#[derive(Debug, PartialEq, Eq)]
pub struct CreateMsg {
    /// The id under which the escrow is stored.
    pub id: String,
    /// A hint only: the client of the new escrow is the sender of the request.
    pub client: String,
    pub end_time: Option<u64>,
    /// The token contracts that may fund the escrow besides the one that
    /// funds it first.
    pub cw20_whitelist: Option<Vec<String>>,
    pub title: String,
    pub url: String,
    pub threshold: u64,
    /// Not read: a new escrow starts in the created state.
    pub state: u8,
}

/// What a `CreateMsg` holds.
pub struct CreateMsgView {
    pub id: Seq<char>,
    pub client: Seq<char>,
    pub end_time: Option<u64>,
    pub cw20_whitelist: Option<Seq<Seq<char>>>,
    pub title: Seq<char>,
    pub url: Seq<char>,
    pub threshold: u64,
    pub state: u8,
}

impl CreateMsgView {
    /// The whitelist that the message asks for: none asked for is an empty
    /// one.
    pub open spec fn addr_whitelist(self) -> Seq<Seq<char>> {
        match self.cw20_whitelist {
            Some(list) => list,
            None => Seq::empty(),
        }
    }
}

impl View for CreateMsg {
    type V = CreateMsgView;

    open spec fn view(&self) -> CreateMsgView {
        CreateMsgView {
            id: self.id@,
            client: self.client@,
            end_time: self.end_time,
            cw20_whitelist: self.cw20_whitelist.deep_view(),
            title: self.title@,
            url: self.url@,
            threshold: self.threshold,
            state: self.state,
        }
    }
}

/// Copies a list of strings.
pub(crate) fn clone_strings(list: &Vec<String>) -> (r: Vec<String>)
    ensures
        r.deep_view() == list.deep_view(),
{
    let r = list.clone();
    assert(r.deep_view() =~= list.deep_view());
    r
}

impl Clone for CreateMsg {
    fn clone(&self) -> (r: Self)
        ensures
            r@ == self@,
    {
        let cw20_whitelist = match &self.cw20_whitelist {
            Some(list) => Some(clone_strings(list)),
            None => None,
        };
        CreateMsg {
            id: self.id.clone(),
            client: self.client.clone(),
            end_time: self.end_time,
            cw20_whitelist,
            title: self.title.clone(),
            url: self.url.clone(),
            threshold: self.threshold,
            state: self.state,
        }
    }
}

impl CreateMsg {
    /// The whitelist that the message asks for: none asked for is an empty
    /// one.
    pub fn addr_whitelist(&self) -> (r: Vec<String>)
        ensures
            r.deep_view() == self@.addr_whitelist(),
    {
        match &self.cw20_whitelist {
            Some(list) => clone_strings(list),
            None => {
                let r: Vec<String> = Vec::new();
                assert(r.deep_view() =~= Seq::<Seq<char>>::empty());
                r
            },
        }
    }
}

/// What a token contract passes on when tokens were sent to the engine
/// through it.
#[derive(Debug, PartialEq, Eq)]
pub enum ReceiveMsg {
    Create(CreateMsg),
    TopUp { id: String, start_time: u64, end_time: u64 },
}

/// What a `ReceiveMsg` holds.
pub enum ReceiveMsgView {
    Create(CreateMsgView),
    TopUp { id: Seq<char>, start_time: u64, end_time: u64 },
}

impl View for ReceiveMsg {
    type V = ReceiveMsgView;

    open spec fn view(&self) -> ReceiveMsgView {
        match self {
            ReceiveMsg::Create(msg) => ReceiveMsgView::Create(msg@),
            ReceiveMsg::TopUp { id, start_time, end_time } => ReceiveMsgView::TopUp {
                id: id@,
                start_time: *start_time,
                end_time: *end_time,
            },
        }
    }
}

/// A deposit of tokens, wrapped by the token contract: who sent the tokens,
/// how many, and what they are for. The token contract itself is the sender
/// of the request.
#[derive(Debug, PartialEq, Eq)]
pub struct Cw20ReceiveMsg {
    pub sender: String,
    pub amount: u128,
    pub msg: ReceiveMsg,
}

/// What a `Cw20ReceiveMsg` holds.
pub struct Cw20ReceiveMsgView {
    pub sender: Seq<char>,
    pub amount: u128,
    pub msg: ReceiveMsgView,
}

impl View for Cw20ReceiveMsg {
    type V = Cw20ReceiveMsgView;

    open spec fn view(&self) -> Cw20ReceiveMsgView {
        Cw20ReceiveMsgView { sender: self.sender@, amount: self.amount, msg: self.msg@ }
    }
}

/// The governance values that a request sets, and that a query reports.
#[derive(Debug, PartialEq, Eq)]
pub struct ConstantMsg {
    pub manager_addr: String,
    pub min_stake: String,
    pub rate_client: String,
    pub rate_manager: String,
}

/// What a `ConstantMsg` holds.
pub struct ConstantMsgView {
    pub manager_addr: Seq<char>,
    pub min_stake: Seq<char>,
    pub rate_client: Seq<char>,
    pub rate_manager: Seq<char>,
}

impl View for ConstantMsg {
    type V = ConstantMsgView;

    open spec fn view(&self) -> ConstantMsgView {
        ConstantMsgView {
            manager_addr: self.manager_addr@,
            min_stake: self.min_stake@,
            rate_client: self.rate_client@,
            rate_manager: self.rate_manager@,
        }
    }
}

/// The requests that change the state.
#[derive(Debug, PartialEq, Eq)]
pub enum ExecuteMsg {
    Create(CreateMsg),
    /// Releases the escrow to its client.
    Approve { id: String },
    /// Adds the funds of the request to the escrow.
    TopUp { id: String, start_time: u64, end_time: u64 },
    /// Hands the escrow's holdings to the requester.
    Refund { id: String },
    /// A deposit of tokens, with what it is for.
    Receive(Cw20ReceiveMsg),
    /// Replaces the governance values.
    SetConstant(ConstantMsg),
}

/// What an `ExecuteMsg` holds.
pub enum ExecuteMsgView {
    Create(CreateMsgView),
    Approve { id: Seq<char> },
    TopUp { id: Seq<char>, start_time: u64, end_time: u64 },
    Refund { id: Seq<char> },
    Receive(Cw20ReceiveMsgView),
    SetConstant(ConstantMsgView),
}

impl View for ExecuteMsg {
    type V = ExecuteMsgView;

    open spec fn view(&self) -> ExecuteMsgView {
        match self {
            ExecuteMsg::Create(msg) => ExecuteMsgView::Create(msg@),
            ExecuteMsg::Approve { id } => ExecuteMsgView::Approve { id: id@ },
            ExecuteMsg::TopUp { id, start_time, end_time } => ExecuteMsgView::TopUp {
                id: id@,
                start_time: *start_time,
                end_time: *end_time,
            },
            ExecuteMsg::Refund { id } => ExecuteMsgView::Refund { id: id@ },
            ExecuteMsg::Receive(msg) => ExecuteMsgView::Receive(msg@),
            ExecuteMsg::SetConstant(msg) => ExecuteMsgView::SetConstant(msg@),
        }
    }
}

/// The requests that only read the state.
#[derive(Debug, PartialEq, Eq)]
pub enum QueryMsg {
    /// The ids of all escrows.
    List {},
    /// The escrow stored under `id`.
    Details { id: String },
    /// The governance values.
    Constants {},
}

/// What a `QueryMsg` holds.
pub enum QueryMsgView {
    List {},
    Details { id: Seq<char> },
    Constants {},
}

impl View for QueryMsg {
    type V = QueryMsgView;

    open spec fn view(&self) -> QueryMsgView {
        match self {
            QueryMsg::List {} => QueryMsgView::List {},
            QueryMsg::Details { id } => QueryMsgView::Details { id: id@ },
            QueryMsg::Constants {} => QueryMsgView::Constants {},
        }
    }
}

/// The answer to `QueryMsg::List`.
#[derive(Debug, PartialEq, Eq)]
pub struct ListResponse {
    pub escrows: Vec<String>,
}

/// An amount of a token, as an answer reports it.
#[derive(Debug, PartialEq, Eq)]
pub struct Cw20Coin {
    pub address: String,
    pub amount: u128,
}

impl View for Cw20Coin {
    type V = Holding;

    open spec fn view(&self) -> Holding {
        Holding { key: self.address@, amount: self.amount }
    }
}

impl DeepView for Cw20Coin {
    type V = Holding;

    open spec fn deep_view(&self) -> Holding {
        self@
    }
}

/// The answer to `QueryMsg::Details`.
#[derive(Debug, PartialEq, Eq)]
pub struct DetailsResponse {
    pub id: String,
    pub client: String,
    pub end_time: Option<u64>,
    pub native_balance: Vec<Coin>,
    pub cw20_balance: Vec<Cw20Coin>,
    pub cw20_whitelist: Vec<String>,
}

/// What a `DetailsResponse` holds.
pub struct DetailsResponseView {
    pub id: Seq<char>,
    pub client: Seq<char>,
    pub end_time: Option<u64>,
    pub native_balance: Seq<Holding>,
    pub cw20_balance: Seq<Holding>,
    pub cw20_whitelist: Seq<Seq<char>>,
}

impl View for DetailsResponse {
    type V = DetailsResponseView;

    open spec fn view(&self) -> DetailsResponseView {
        DetailsResponseView {
            id: self.id@,
            client: self.client@,
            end_time: self.end_time,
            native_balance: self.native_balance.deep_view(),
            cw20_balance: self.cw20_balance.deep_view(),
            cw20_whitelist: self.cw20_whitelist.deep_view(),
        }
    }
}

/// The answer to a query.
#[derive(Debug, PartialEq, Eq)]
pub enum QueryResponse {
    List(ListResponse),
    Details(DetailsResponse),
    Constants(ConstantMsg),
}

/// What a `QueryResponse` holds.
pub enum QueryResponseView {
    List(Seq<Seq<char>>),
    Details(DetailsResponseView),
    Constants(ConstantMsgView),
}

impl View for QueryResponse {
    type V = QueryResponseView;

    open spec fn view(&self) -> QueryResponseView {
        match self {
            QueryResponse::List(list) => QueryResponseView::List(list.escrows.deep_view()),
            QueryResponse::Details(details) => QueryResponseView::Details(details@),
            QueryResponse::Constants(constants) => QueryResponseView::Constants(constants@),
        }
    }
}

/// A note on what a request did.
#[derive(Debug, PartialEq, Eq)]
pub struct Attribute {
    pub key: String,
    pub value: String,
}

impl View for Attribute {
    type V = (Seq<char>, Seq<char>);

    open spec fn view(&self) -> (Seq<char>, Seq<char>) {
        (self.key@, self.value@)
    }
}

impl DeepView for Attribute {
    type V = (Seq<char>, Seq<char>);

    open spec fn deep_view(&self) -> (Seq<char>, Seq<char>) {
        self@
    }
}

/// An instruction that the engine hands out for execution.
#[derive(Debug, PartialEq, Eq)]
pub enum CosmosMsg {
    /// Sends the native coins `amount` to `to_address`.
    BankSend { to_address: String, amount: Vec<Coin> },
    /// Calls the contract at `contract_addr` with the encoded message `msg`
    /// and the native coins `funds`.
    WasmExecute { contract_addr: String, msg: Vec<u8>, funds: Vec<Coin> },
}

/// What a `CosmosMsg` holds.
pub enum CosmosMsgView {
    BankSend { to_address: Seq<char>, amount: Seq<Holding> },
    WasmExecute { contract_addr: Seq<char>, msg: Seq<u8>, funds: Seq<Holding> },
}

impl View for CosmosMsg {
    type V = CosmosMsgView;

    open spec fn view(&self) -> CosmosMsgView {
        match self {
            CosmosMsg::BankSend { to_address, amount } => CosmosMsgView::BankSend {
                to_address: to_address@,
                amount: amount.deep_view(),
            },
            CosmosMsg::WasmExecute { contract_addr, msg, funds } => CosmosMsgView::WasmExecute {
                contract_addr: contract_addr@,
                msg: msg@,
                funds: funds.deep_view(),
            },
        }
    }
}

impl DeepView for CosmosMsg {
    type V = CosmosMsgView;

    open spec fn deep_view(&self) -> CosmosMsgView {
        self@
    }
}

/// What a request that went through hands back: the instructions to
/// execute, in order, and notes on what was done.
#[derive(Debug, PartialEq, Eq)]
pub struct Response {
    pub messages: Vec<CosmosMsg>,
    pub attributes: Vec<Attribute>,
}

/// What a `Response` holds.
pub struct ResponseView {
    pub messages: Seq<CosmosMsgView>,
    pub attributes: Seq<(Seq<char>, Seq<char>)>,
}

impl View for Response {
    type V = ResponseView;

    open spec fn view(&self) -> ResponseView {
        ResponseView {
            messages: self.messages.deep_view(),
            attributes: self.attributes.deep_view(),
        }
    }
}

impl Default for Response {
    fn default() -> (r: Self)
        ensures
            r@ == (ResponseView { messages: Seq::empty(), attributes: Seq::empty() }),
    {
        let r = Response { messages: Vec::new(), attributes: Vec::new() };
        assert(r.messages.deep_view() =~= Seq::<CosmosMsgView>::empty());
        assert(r.attributes.deep_view() =~= Seq::<(Seq<char>, Seq<char>)>::empty());
        r
    }
}

} // verus!
