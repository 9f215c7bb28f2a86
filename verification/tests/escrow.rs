use cosmwasm_std::StdError;

use cw20_escrow::balance::{coin, Balance, Coin, Cw20CoinVerified, GenericBalance};
use cw20_escrow::contract::{
    execute, execute_approve, execute_create, execute_receive, execute_refund,
    execute_setconstant, execute_top_up, instantiate, is_approver, is_constants_setter, query,
    query_constants, query_details, query_list,
};
use cw20_escrow::error::{ContractError, StdErrorKind};
use cw20_escrow::msg::{
    Attribute, ConstantMsg, CosmosMsg, CreateMsg, Cw20Coin, Cw20ReceiveMsg, DetailsResponse,
    ExecuteMsg, InstantiateMsg, ListResponse, MessageInfo, QueryMsg, QueryResponse, ReceiveMsg,
    Response,
};
use cw20_escrow::state::{AccountInfo, Constants, Escrow, Store};
use cw20_escrow::transfer::{send_tokens, wasm_execute};

fn info(sender: &str, funds: &[Coin]) -> MessageInfo {
    MessageInfo {
        sender: sender.to_string(),
        funds: funds.to_vec(),
    }
}

fn note(key: &str, value: &str) -> Attribute {
    Attribute {
        key: key.to_string(),
        value: value.to_string(),
    }
}

fn create_msg(id: &str, whitelist: Option<Vec<&str>>) -> CreateMsg {
    CreateMsg {
        id: id.to_string(),
        client: "hint".to_string(),
        end_time: Some(99),
        cw20_whitelist: whitelist.map(|w| w.into_iter().map(String::from).collect()),
        title: "title".to_string(),
        url: "url".to_string(),
        threshold: 7,
        state: 3,
    }
}

fn constants(manager: &str, rate_manager: &str) -> ConstantMsg {
    ConstantMsg {
        manager_addr: manager.to_string(),
        min_stake: "20".to_string(),
        rate_client: "30".to_string(),
        rate_manager: rate_manager.to_string(),
    }
}

fn token(address: &str, amount: u128) -> Cw20CoinVerified {
    Cw20CoinVerified {
        address: address.to_string(),
        amount,
    }
}

/// A store with the manager "boss", the funding token "T1" and the escrow
/// "foobar" of the client "source", funded with 100 units of "T1".
fn store_with_escrow() -> Store {
    let mut store = Store::new();
    execute_setconstant(&mut store, info("anyone", &[]), constants("boss", "T1")).unwrap();
    let wrapper = Cw20ReceiveMsg {
        sender: "source".to_string(),
        amount: 100,
        msg: ReceiveMsg::Create(create_msg("foobar", None)),
    };
    execute_receive(&mut store, info("T1", &[]), wrapper).unwrap();
    store
}

#[test]
fn wrapped_deposit_makes_escrow_and_approve_pays_client() {
    let mut store = store_with_escrow();

    let details = query_details(&store, "foobar".to_string()).unwrap();
    assert_eq!(details.native_balance, vec![]);
    assert_eq!(
        details.cw20_balance,
        vec![Cw20Coin {
            address: "T1".to_string(),
            amount: 100
        }]
    );
    assert!(details.cw20_whitelist.contains(&"T1".to_string()));
    assert_eq!(details.client, "source");

    let res = execute(
        &mut store,
        info("source", &[]),
        ExecuteMsg::Approve {
            id: "foobar".to_string(),
        },
    )
    .unwrap();
    assert_eq!(
        res.messages,
        vec![CosmosMsg::WasmExecute {
            contract_addr: "T1".to_string(),
            msg: br#"{"transfer":{"recipient":"source","amount":"100"}}"#.to_vec(),
            funds: vec![],
        }]
    );
    assert_eq!(
        res.attributes,
        vec![
            note("action", "approve"),
            note("id", "foobar"),
            note("to", "source")
        ]
    );

    // nothing was removed or emptied
    assert_eq!(query_details(&store, "foobar".to_string()).unwrap(), details);
}

#[test]
fn fresh_store_holds_initial_constants() {
    let store = Store::new();
    assert_eq!(
        *store.constants(),
        Constants {
            manager_addr: "".to_string(),
            min_stake: "10".to_string(),
            rate_client: "10".to_string(),
            rate_manager: "10".to_string(),
            dev_addr: "juno15fg4zvl8xgj3txslr56ztnyspf3jc7n9j44vhz".to_string(),
        }
    );
    assert_eq!(store.ids(), Vec::<String>::new());
    assert!(!store.has(&"foobar".to_string()));
    assert_eq!(
        store.load(&"foobar".to_string()),
        Err(StdErrorKind::NotFound {})
    );
}

#[test]
fn instantiate_resets_constants_and_keeps_escrows() {
    let mut store = store_with_escrow();
    let before = query_details(&store, "foobar".to_string()).unwrap();
    let res = instantiate(&mut store, info("anyone", &[]), InstantiateMsg {}).unwrap();
    assert_eq!(res, Response::default());
    assert_eq!(*store.constants(), Constants::default());
    assert_eq!(query_details(&store, "foobar".to_string()).unwrap(), before);
}

#[test]
fn anyone_sets_constants_until_a_manager_is_named() {
    let mut store = Store::new();
    let res = execute_setconstant(&mut store, info("alice", &[]), constants("", "T1")).unwrap();
    assert_eq!(res.attributes, vec![note("action", "setcontant")]);
    assert_eq!(res.messages, vec![]);

    // no manager was named: the next one may be anyone again
    execute_setconstant(&mut store, info("bob", &[]), constants("boss", "T2")).unwrap();
    assert_eq!(
        query_constants(&store).unwrap(),
        constants("boss", "T2")
    );
    assert_eq!(
        store.constants().dev_addr,
        "juno15fg4zvl8xgj3txslr56ztnyspf3jc7n9j44vhz"
    );

    // now only the manager
    let err =
        execute_setconstant(&mut store, info("bob", &[]), constants("bob", "T3")).unwrap_err();
    assert_eq!(err, ContractError::Unauthorized {});
    assert_eq!(query_constants(&store).unwrap(), constants("boss", "T2"));

    execute(
        &mut store,
        info("boss", &[]),
        ExecuteMsg::SetConstant(constants("carol", "T4")),
    )
    .unwrap();
    assert_eq!(query_constants(&store).unwrap(), constants("carol", "T4"));
    let err =
        execute_setconstant(&mut store, info("boss", &[]), constants("boss", "T4")).unwrap_err();
    assert_eq!(err, ContractError::Unauthorized {});
}

#[test]
fn create_twice_fails_and_keeps_the_first() {
    let mut store = Store::new();
    let first = execute_create(
        &mut store,
        create_msg("foobar", Some(vec!["T9"])),
        Balance::from(vec![coin(5, "atom")]),
        &"source".to_string(),
    )
    .unwrap();
    assert_eq!(
        first.attributes,
        vec![note("action", "create"), note("id", "foobar")]
    );
    let stored = store.load(&"foobar".to_string()).unwrap().clone();
    assert_eq!(
        stored,
        Escrow {
            client: "source".to_string(),
            accountinfo: vec![],
            end_time: Some(99),
            balance: GenericBalance {
                native: vec![coin(5, "atom")],
                cw20: vec![]
            },
            cw20_whitelist: vec!["T9".to_string()],
            title: "title".to_string(),
            url: "url".to_string(),
            threshold: 7,
            state: 0,
        }
    );

    let mut other = create_msg("foobar", None);
    other.title = "other".to_string();
    let err = execute_create(
        &mut store,
        other,
        Balance::from(vec![coin(1000, "eth")]),
        &"intruder".to_string(),
    )
    .unwrap_err();
    assert_eq!(err, ContractError::AlreadyInUse {});
    assert_eq!(*store.load(&"foobar".to_string()).unwrap(), stored);
    assert_eq!(store.ids(), vec!["foobar".to_string()]);

    // an empty deposit is turned down before the id is looked at
    let err = execute_create(
        &mut store,
        create_msg("foobar", None),
        Balance::from(vec![]),
        &"source".to_string(),
    )
    .unwrap_err();
    assert_eq!(err, ContractError::EmptyBalance {});
}

#[test]
fn create_takes_only_the_funding_token() {
    let mut store = Store::new();
    execute_setconstant(&mut store, info("anyone", &[]), constants("boss", "T1")).unwrap();

    let err = execute_create(
        &mut store,
        create_msg("a", Some(vec!["T2"])),
        Balance::Cw20(token("T2", 5)),
        &"source".to_string(),
    )
    .unwrap_err();
    assert_eq!(err, ContractError::Unauthorized {});
    assert!(!store.has(&"a".to_string()));

    let err = execute_create(
        &mut store,
        create_msg("a", None),
        Balance::Cw20(token("T1", 0)),
        &"source".to_string(),
    )
    .unwrap_err();
    assert_eq!(err, ContractError::EmptyBalance {});

    // the token is put on the whitelist once
    execute_create(
        &mut store,
        create_msg("a", Some(vec!["T2", "T1"])),
        Balance::Cw20(token("T1", 5)),
        &"source".to_string(),
    )
    .unwrap();
    execute_create(
        &mut store,
        create_msg("b", Some(vec!["T2"])),
        Balance::Cw20(token("T1", 6)),
        &"source".to_string(),
    )
    .unwrap();
    let a = store.load(&"a".to_string()).unwrap();
    assert_eq!(a.cw20_whitelist, vec!["T2".to_string(), "T1".to_string()]);
    assert_eq!(a.balance.cw20, vec![token("T1", 5)]);
    let b = store.load(&"b".to_string()).unwrap();
    assert_eq!(b.cw20_whitelist, vec!["T2".to_string(), "T1".to_string()]);
    assert_eq!(
        query_list(&store).unwrap(),
        ListResponse {
            escrows: vec!["a".to_string(), "b".to_string()]
        }
    );
}

#[test]
fn top_up_outside_whitelist_changes_nothing() {
    let mut store = store_with_escrow();
    let before = store.load(&"foobar".to_string()).unwrap().clone();
    let err = execute_top_up(
        &mut store,
        "foobar".to_string(),
        1,
        2,
        Balance::Cw20(token("T2", 50)),
        &"funder".to_string(),
    )
    .unwrap_err();
    assert_eq!(err, ContractError::NotInWhitelist {});
    let after = store.load(&"foobar".to_string()).unwrap();
    assert_eq!(after.balance, before.balance);
    assert_eq!(after.accountinfo, before.accountinfo);
    assert_eq!(*after, before);
}

#[test]
fn top_up_records_the_funding() {
    let mut store = store_with_escrow();
    execute_top_up(
        &mut store,
        "foobar".to_string(),
        10,
        20,
        Balance::from(vec![coin(3, "atom"), coin(4, "atom")]),
        &"alice".to_string(),
    )
    .unwrap();
    let res = execute_top_up(
        &mut store,
        "foobar".to_string(),
        30,
        40,
        Balance::Cw20(token("T1", 25)),
        &"bob".to_string(),
    )
    .unwrap();
    assert_eq!(
        res.attributes,
        vec![note("action", "top_up"), note("id", "foobar")]
    );
    let escrow = store.load(&"foobar".to_string()).unwrap();
    assert_eq!(
        escrow.accountinfo,
        vec![
            AccountInfo {
                addr: "alice".to_string(),
                amount: 0,
                start_time: 10,
                end_time: 20
            },
            AccountInfo {
                addr: "bob".to_string(),
                amount: 25,
                start_time: 30,
                end_time: 40
            },
        ]
    );
    assert_eq!(escrow.balance.native, vec![coin(7, "atom")]);
    assert_eq!(escrow.balance.cw20, vec![token("T1", 125)]);
    assert_eq!(escrow.client, "source");
}

#[test]
fn top_up_fails_in_order() {
    let mut store = store_with_escrow();
    let before = store.load(&"foobar".to_string()).unwrap().clone();

    let err = execute_top_up(
        &mut store,
        "missing".to_string(),
        1,
        2,
        Balance::Cw20(token("T2", 0)),
        &"funder".to_string(),
    )
    .unwrap_err();
    assert_eq!(err, ContractError::EmptyBalance {});

    let err = execute_top_up(
        &mut store,
        "missing".to_string(),
        1,
        2,
        Balance::Cw20(token("T2", 1)),
        &"funder".to_string(),
    )
    .unwrap_err();
    assert_eq!(err, ContractError::Std(StdErrorKind::NotFound {}));

    let err = execute_top_up(
        &mut store,
        "foobar".to_string(),
        1,
        2,
        Balance::Cw20(token("T1", u128::MAX)),
        &"funder".to_string(),
    )
    .unwrap_err();
    assert_eq!(err, ContractError::Std(StdErrorKind::Overflow {}));
    assert_eq!(*store.load(&"foobar".to_string()).unwrap(), before);
}

#[test]
fn approve_is_for_client_and_manager() {
    let mut store = store_with_escrow();
    execute_top_up(
        &mut store,
        "foobar".to_string(),
        1,
        2,
        Balance::from(vec![coin(9, "atom")]),
        &"funder".to_string(),
    )
    .unwrap();

    let err = execute_approve(&mut store, info("funder", &[]), "foobar".to_string()).unwrap_err();
    assert_eq!(err, ContractError::Unauthorized {});
    let err = execute_approve(&mut store, info("hint", &[]), "foobar".to_string()).unwrap_err();
    assert_eq!(err, ContractError::Unauthorized {});
    let err = execute_approve(&mut store, info("boss", &[]), "nope".to_string()).unwrap_err();
    assert_eq!(err, ContractError::Std(StdErrorKind::NotFound {}));

    let by_manager = execute_approve(&mut store, info("boss", &[]), "foobar".to_string()).unwrap();
    let by_client = execute_approve(&mut store, info("source", &[]), "foobar".to_string()).unwrap();
    assert_eq!(by_manager, by_client);
    assert_eq!(
        by_client.messages,
        vec![
            CosmosMsg::BankSend {
                to_address: "source".to_string(),
                amount: vec![coin(9, "atom")]
            },
            CosmosMsg::WasmExecute {
                contract_addr: "T1".to_string(),
                msg: br#"{"transfer":{"recipient":"source","amount":"100"}}"#.to_vec(),
                funds: vec![]
            },
        ]
    );
}

#[test]
fn refund_pays_whoever_asks() {
    let mut store = store_with_escrow();
    let before = store.load(&"foobar".to_string()).unwrap().clone();
    let res = execute_refund(&mut store, info("stranger", &[]), "foobar".to_string()).unwrap();
    assert_eq!(
        res.messages,
        vec![CosmosMsg::WasmExecute {
            contract_addr: "T1".to_string(),
            msg: br#"{"transfer":{"recipient":"stranger","amount":"100"}}"#.to_vec(),
            funds: vec![]
        }]
    );
    assert_eq!(
        res.attributes,
        vec![
            note("action", "refund"),
            note("id", "foobar"),
            note("to", "source")
        ]
    );
    assert_eq!(*store.load(&"foobar".to_string()).unwrap(), before);

    let err = execute(
        &mut store,
        info("stranger", &[]),
        ExecuteMsg::Refund {
            id: "nope".to_string(),
        },
    )
    .unwrap_err();
    assert_eq!(err, ContractError::Std(StdErrorKind::NotFound {}));
}

#[test]
fn send_tokens_puts_bank_transfer_first() {
    let balance = GenericBalance {
        native: vec![coin(0, "atom")],
        cw20: vec![token("T2", 2), token("T1", 0)],
    };
    let msgs = send_tokens(&"dest".to_string(), &balance).unwrap();
    assert_eq!(
        msgs,
        vec![
            CosmosMsg::BankSend {
                to_address: "dest".to_string(),
                amount: vec![coin(0, "atom")]
            },
            CosmosMsg::WasmExecute {
                contract_addr: "T2".to_string(),
                msg: br#"{"transfer":{"recipient":"dest","amount":"2"}}"#.to_vec(),
                funds: vec![]
            },
            CosmosMsg::WasmExecute {
                contract_addr: "T1".to_string(),
                msg: br#"{"transfer":{"recipient":"dest","amount":"0"}}"#.to_vec(),
                funds: vec![]
            },
        ]
    );
    assert_eq!(
        send_tokens(&"dest".to_string(), &GenericBalance::default()).unwrap(),
        vec![]
    );
}

#[test]
fn wasm_execute_wraps_the_encoded_call() {
    let call = wasm_execute(&"T1".to_string(), Ok(vec![1, 2, 3])).unwrap();
    assert_eq!(
        call,
        CosmosMsg::WasmExecute {
            contract_addr: "T1".to_string(),
            msg: vec![1, 2, 3],
            funds: vec![]
        }
    );
    let err = wasm_execute(&"T1".to_string(), Err(StdError::generic_err("broken"))).unwrap_err();
    assert_eq!(err, ContractError::Std(StdErrorKind::SerializeErr {}));
}

#[test]
fn queries_report_the_state() {
    let mut store = store_with_escrow();
    execute(
        &mut store,
        info("second", &[coin(1, "atom")]),
        ExecuteMsg::Create(create_msg("another", None)),
    )
    .unwrap();

    assert_eq!(
        query(&store, QueryMsg::List {}).unwrap(),
        QueryResponse::List(ListResponse {
            escrows: vec!["foobar".to_string(), "another".to_string()]
        })
    );
    assert_eq!(
        query(&store, QueryMsg::Constants {}).unwrap(),
        QueryResponse::Constants(constants("boss", "T1"))
    );
    assert_eq!(
        query(
            &store,
            QueryMsg::Details {
                id: "another".to_string()
            }
        )
        .unwrap(),
        QueryResponse::Details(DetailsResponse {
            id: "another".to_string(),
            client: "second".to_string(),
            end_time: Some(99),
            native_balance: vec![coin(1, "atom")],
            cw20_balance: vec![],
            cw20_whitelist: vec![],
        })
    );
    assert_eq!(
        query(
            &store,
            QueryMsg::Details {
                id: "nope".to_string()
            }
        ),
        Err(StdErrorKind::NotFound {})
    );
}

#[test]
fn save_replaces_in_place() {
    let mut store = store_with_escrow();
    execute(
        &mut store,
        info("second", &[coin(1, "atom")]),
        ExecuteMsg::Create(create_msg("another", None)),
    )
    .unwrap();
    let mut escrow = store.load(&"foobar".to_string()).unwrap().clone();
    escrow.title = "changed".to_string();
    store.save("foobar".to_string(), escrow.clone());
    assert_eq!(*store.load(&"foobar".to_string()).unwrap(), escrow);
    assert_eq!(
        store.ids(),
        vec!["foobar".to_string(), "another".to_string()]
    );
    assert_eq!(store.load(&"another".to_string()).unwrap().client, "second");
    assert_eq!(escrow.human_whitelist(), vec!["T1".to_string()]);
}

#[test]
fn approver_is_client_or_manager() {
    let client = "client".to_string();
    let manager = "manager".to_string();
    assert!(is_approver(&"client".to_string(), &client, &manager));
    assert!(is_approver(&"manager".to_string(), &client, &manager));
    assert!(!is_approver(&"other".to_string(), &client, &manager));
    assert!(!is_approver(&"".to_string(), &client, &manager));
    assert!(is_approver(&"both".to_string(), &"both".to_string(), &"both".to_string()));
}

#[test]
fn constants_setter_is_anyone_or_manager() {
    let mut constants = Constants::default();
    assert!(is_constants_setter(&constants, &"anyone".to_string()));
    constants.manager_addr = "boss".to_string();
    assert!(is_constants_setter(&constants, &"boss".to_string()));
    assert!(!is_constants_setter(&constants, &"anyone".to_string()));
    assert!(!is_constants_setter(&constants, &"".to_string()));
}
