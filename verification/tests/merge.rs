use cw20_escrow::balance::{coin, Balance, Coin, Cw20CoinVerified, GenericBalance};
use cw20_escrow::error::{ContractError, StdErrorKind};

fn held(balance: &[Coin], denom: &str) -> u128 {
    balance
        .iter()
        .filter(|c| c.denom == denom)
        .map(|c| c.amount)
        .sum()
}

fn token(address: &str, amount: u128) -> Cw20CoinVerified {
    Cw20CoinVerified {
        address: address.to_string(),
        amount,
    }
}

#[test]
fn merged_total_is_the_sum_of_what_came_in() {
    let mut balance = GenericBalance::default();
    balance
        .add_tokens(Balance::from(vec![coin(5, "atom"), coin(7, "eth")]))
        .unwrap();
    balance
        .add_tokens(Balance::from(vec![
            coin(11, "atom"),
            coin(13, "atom"),
            coin(17, "btc"),
        ]))
        .unwrap();
    balance.add_tokens(Balance::from(vec![coin(19, "eth")])).unwrap();
    assert_eq!(held(&balance.native, "atom"), 5 + 11 + 13);
    assert_eq!(held(&balance.native, "eth"), 7 + 19);
    assert_eq!(held(&balance.native, "btc"), 17);
    assert_eq!(held(&balance.native, "doge"), 0);
    assert_eq!(
        balance.native,
        vec![coin(29, "atom"), coin(26, "eth"), coin(17, "btc")]
    );
}

#[test]
fn merge_order_does_not_change_totals() {
    let a = vec![coin(1, "atom"), coin(2, "eth"), coin(3, "atom")];
    let b = vec![coin(10, "btc"), coin(20, "atom")];

    let mut ab = GenericBalance::default();
    ab.add_tokens(Balance::from(a.clone())).unwrap();
    ab.add_tokens(Balance::from(b.clone())).unwrap();

    let mut ba = GenericBalance::default();
    ba.add_tokens(Balance::from(b.clone())).unwrap();
    ba.add_tokens(Balance::from(a.clone())).unwrap();

    for denom in ["atom", "eth", "btc", "none"] {
        assert_eq!(held(&ab.native, denom), held(&ba.native, denom));
    }
    assert_eq!(ab.native, vec![coin(24, "atom"), coin(2, "eth"), coin(10, "btc")]);
    assert_eq!(ba.native, vec![coin(10, "btc"), coin(24, "atom"), coin(2, "eth")]);
}

#[test]
fn merging_in_two_steps_is_merging_in_one() {
    let a = vec![coin(1, "atom"), coin(2, "eth")];
    let b = vec![coin(10, "eth"), coin(20, "btc")];

    let mut stepwise = GenericBalance::default();
    stepwise.add_tokens(Balance::from(a.clone())).unwrap();
    stepwise.add_tokens(Balance::from(b.clone())).unwrap();

    let mut at_once = GenericBalance::default();
    let mut all = a;
    all.extend(b);
    at_once.add_tokens(Balance::from(all)).unwrap();

    assert_eq!(stepwise, at_once);
}

#[test]
fn new_assets_go_to_the_end() {
    let mut balance = GenericBalance::default();
    balance.add_tokens(Balance::Cw20(token("t1", 1))).unwrap();
    balance.add_tokens(Balance::Cw20(token("t2", 2))).unwrap();
    balance.add_tokens(Balance::Cw20(token("t1", 3))).unwrap();
    balance.add_tokens(Balance::Cw20(token("t3", 0))).unwrap();
    assert_eq!(
        balance.cw20,
        vec![token("t1", 4), token("t2", 2), token("t3", 0)]
    );
    assert!(balance.native.is_empty());
}

#[test]
fn overflowing_coin_leaves_balance_as_it_was() {
    let mut balance = GenericBalance::default();
    balance
        .add_tokens(Balance::from(vec![coin(u128::MAX, "atom"), coin(1, "eth")]))
        .unwrap();
    let before = balance.clone();

    // the first coin fits, the second does not: nothing is merged
    let err = balance
        .add_tokens(Balance::from(vec![coin(5, "eth"), coin(1, "atom")]))
        .unwrap_err();
    assert_eq!(err, ContractError::Std(StdErrorKind::Overflow {}));
    assert_eq!(balance, before);

    // the largest amount that still fits
    balance.add_tokens(Balance::from(vec![coin(0, "atom")])).unwrap();
    assert_eq!(balance.native, vec![coin(u128::MAX, "atom"), coin(1, "eth")]);
}

#[test]
fn overflowing_token_leaves_balance_as_it_was() {
    let mut balance = GenericBalance::default();
    balance
        .add_tokens(Balance::Cw20(token("t1", u128::MAX - 1)))
        .unwrap();
    balance.add_tokens(Balance::Cw20(token("t1", 1))).unwrap();
    let before = balance.clone();
    let err = balance.add_tokens(Balance::Cw20(token("t1", 1))).unwrap_err();
    assert_eq!(err, ContractError::Std(StdErrorKind::Overflow {}));
    assert_eq!(balance, before);
    assert_eq!(balance.cw20, vec![token("t1", u128::MAX)]);
}

#[test]
fn deposits_without_value_are_empty() {
    assert!(Balance::from(vec![]).is_empty());
    assert!(Balance::from(vec![coin(0, "atom"), coin(0, "eth")]).is_empty());
    assert!(!Balance::from(vec![coin(0, "atom"), coin(1, "eth")]).is_empty());
    assert!(Balance::Cw20(token("t1", 0)).is_empty());
    assert!(!Balance::Cw20(token("t1", 1)).is_empty());
}

#[test]
fn coin_builds_what_it_is_given() {
    let c = coin(42, "atom");
    assert_eq!(c.amount, 42);
    assert_eq!(c.denom, "atom");
    assert_eq!(c.clone(), c);
}
