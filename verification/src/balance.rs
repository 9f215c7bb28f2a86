//! Multi-asset balances and the arithmetic that merges deposits into them.
//!
//! A balance keeps one entry per asset, in the order in which the assets were
//! first seen. Merging a deposit adds to the entry of an asset that is held
//! already and appends an entry for one that is new; a sum that does not fit
//! in 128 bits turns the whole merge down.

use vstd::prelude::*;

use crate::error::{ContractError, StdErrorKind};

verus! {

/// What one entry of a balance says: which asset, and how much of it.
///
/// `key` is the denomination of a native coin or the address of a token
/// contract.
pub struct Holding {
    pub key: Seq<char>,
    pub amount: u128,
}

/// An amount of native currency.
#[derive(Debug, PartialEq, Eq)]
pub struct Coin {
    pub denom: String,
    pub amount: u128,
}

impl View for Coin {
    type V = Holding;

    open spec fn view(&self) -> Holding {
        Holding { key: self.denom@, amount: self.amount }
    }
}

impl DeepView for Coin {
    type V = Holding;

    open spec fn deep_view(&self) -> Holding {
        self@
    }
}

impl Clone for Coin {
    fn clone(&self) -> (r: Self)
        ensures
            r == *self,
    {
        Coin { denom: self.denom.clone(), amount: self.amount }
    }
}

/// An amount of a fungible token, named by the address of its contract.
#[derive(Debug, PartialEq, Eq)]
pub struct Cw20CoinVerified {
    pub address: String,
    pub amount: u128,
}

impl View for Cw20CoinVerified {
    type V = Holding;

    open spec fn view(&self) -> Holding {
        Holding { key: self.address@, amount: self.amount }
    }
}

impl DeepView for Cw20CoinVerified {
    type V = Holding;

    open spec fn deep_view(&self) -> Holding {
        self@
    }
}

impl Clone for Cw20CoinVerified {
    fn clone(&self) -> (r: Self)
        ensures
            r == *self,
    {
        Cw20CoinVerified { address: self.address.clone(), amount: self.amount }
    }
}

/// Builds a coin of `amount` units of `denom`.
pub fn coin(amount: u128, denom: &str) -> (r: Coin)
    ensures
        r@ == (Holding { key: denom@, amount }),
{
    Coin { denom: denom.to_owned(), amount }
}

/// The index of the first entry of `h` for `key`, or `h.len()` if there is
/// none.
pub open spec fn position(h: Seq<Holding>, key: Seq<char>) -> int
    decreases h.len(),
{
    if h.len() == 0 || h[0].key == key {
        0
    } else {
        1 + position(h.drop_first(), key)
    }
}

/// Whether `h` has an entry for `key`.
pub open spec fn holds(h: Seq<Holding>, key: Seq<char>) -> bool {
    position(h, key) < h.len()
}

/// Whether no asset has two entries in `h`.
pub open spec fn distinct_keys(h: Seq<Holding>) -> bool {
    forall|i: int, j: int| 0 <= i < j < h.len() ==> (#[trigger] h[i]).key != (#[trigger] h[j]).key
}

/// `position` is the least index that holds `key`.
pub proof fn lemma_position(h: Seq<Holding>, key: Seq<char>)
    ensures
        0 <= position(h, key) <= h.len(),
        forall|j: int| 0 <= j < position(h, key) ==> (#[trigger] h[j]).key != key,
        position(h, key) < h.len() ==> h[position(h, key)].key == key,
    decreases h.len(),
{
    if h.len() != 0 && h[0].key != key {
        let t = h.drop_first();
        lemma_position(t, key);
        assert forall|j: int| 0 <= j < position(h, key) implies (#[trigger] h[j]).key != key by {
            if j > 0 {
                assert(t[j - 1] == h[j]);
            }
        }
    }
}

/// The balance after one asset has come in: the sum replaces the amount of
/// the entry that holds the asset, or a new entry goes to the end. `None` if
/// the sum does not fit.
pub open spec fn merge_one(h: Seq<Holding>, incoming: Holding) -> Option<Seq<Holding>> {
    let p = position(h, incoming.key);
    if p < h.len() {
        if h[p].amount + incoming.amount <= u128::MAX {
            Some(h.update(p, Holding { key: h[p].key, amount: (h[p].amount + incoming.amount) as u128 }))
        } else {
            None
        }
    } else {
        Some(h.push(incoming))
    }
}

/// The balance after the assets of `incoming` have come in, first to last.
/// `None` if one of the sums does not fit.
pub open spec fn merge_all(h: Seq<Holding>, incoming: Seq<Holding>) -> Option<Seq<Holding>>
    decreases incoming.len(),
{
    if incoming.len() == 0 {
        Some(h)
    } else {
        match merge_all(h, incoming.drop_last()) {
            Some(merged) => merge_one(merged, incoming.last()),
            None => None,
        }
    }
}

/// A merge that fails on a prefix of the deposit fails on all of it.
proof fn lemma_merge_all_prefix_fails(h: Seq<Holding>, incoming: Seq<Holding>, n: int)
    requires
        0 <= n <= incoming.len(),
        merge_all(h, incoming.take(n)) is None,
    ensures
        merge_all(h, incoming) is None,
    decreases incoming.len() - n,
{
    if n == incoming.len() {
        assert(incoming.take(n) =~= incoming);
    } else {
        assert(incoming.drop_last().take(n) =~= incoming.take(n));
        lemma_merge_all_prefix_fails(h, incoming.drop_last(), n);
    }
}

/// Finds the first coin of `coins` in the denomination `denom`.
fn find_coin(coins: &Vec<Coin>, denom: &String) -> (r: usize)
    ensures
        r == position(coins.deep_view(), denom@),
{
    let mut i: usize = 0;
    while i < coins.len()
        invariant
            i <= coins.len(),
            forall|j: int| 0 <= j < i ==> (#[trigger] coins.deep_view()[j]).key != denom@,
        decreases coins.len() - i,
    {
        if coins[i].denom == *denom {
            proof {
                lemma_position(coins.deep_view(), denom@);
                assert(coins.deep_view()[i as int].key == denom@);
            }
            return i;
        }
        i += 1;
    }
    proof {
        lemma_position(coins.deep_view(), denom@);
    }
    i
}

/// Finds the first token of `tokens` issued by the contract at `address`.
fn find_token(tokens: &Vec<Cw20CoinVerified>, address: &String) -> (r: usize)
    ensures
        r == position(tokens.deep_view(), address@),
{
    let mut i: usize = 0;
    while i < tokens.len()
        invariant
            i <= tokens.len(),
            forall|j: int| 0 <= j < i ==> (#[trigger] tokens.deep_view()[j]).key != address@,
        decreases tokens.len() - i,
    {
        if tokens[i].address == *address {
            proof {
                lemma_position(tokens.deep_view(), address@);
                assert(tokens.deep_view()[i as int].key == address@);
            }
            return i;
        }
        i += 1;
    }
    proof {
        lemma_position(tokens.deep_view(), address@);
    }
    i
}

/// Merges one coin into `coins`. On overflow `coins` is left as it was.
fn merge_coin(coins: &mut Vec<Coin>, incoming: Coin) -> (fits: bool)
    ensures
        fits ==> merge_one(old(coins).deep_view(), incoming@) == Some(final(coins).deep_view()),
        !fits ==> merge_one(old(coins).deep_view(), incoming@) is None && *final(coins) == *old(coins),
{
    let p = find_coin(coins, &incoming.denom);
    if p < coins.len() {
        match coins[p].amount.checked_add(incoming.amount) {
            Some(sum) => {
                coins[p].amount = sum;
                assert(coins.deep_view() =~= old(coins).deep_view().update(
                    p as int,
                    Holding { key: old(coins).deep_view()[p as int].key, amount: sum },
                ));
                true
            },
            None => false,
        }
    } else {
        coins.push(incoming);
        assert(coins.deep_view() =~= old(coins).deep_view().push(incoming@));
        true
    }
}

/// Merges one token amount into `tokens`. On overflow `tokens` is left as it
/// was.
fn merge_token(tokens: &mut Vec<Cw20CoinVerified>, incoming: Cw20CoinVerified) -> (fits: bool)
    ensures
        fits ==> merge_one(old(tokens).deep_view(), incoming@) == Some(final(tokens).deep_view()),
        !fits ==> merge_one(old(tokens).deep_view(), incoming@) is None && *final(tokens) == *old(
            tokens,
        ),
{
    let p = find_token(tokens, &incoming.address);
    if p < tokens.len() {
        match tokens[p].amount.checked_add(incoming.amount) {
            Some(sum) => {
                tokens[p].amount = sum;
                assert(tokens.deep_view() =~= old(tokens).deep_view().update(
                    p as int,
                    Holding { key: old(tokens).deep_view()[p as int].key, amount: sum },
                ));
                true
            },
            None => false,
        }
    } else {
        tokens.push(incoming);
        assert(tokens.deep_view() =~= old(tokens).deep_view().push(incoming@));
        true
    }
}

/// A deposit: the funds that come with a request.
#[derive(Debug, PartialEq, Eq)]
pub enum Balance {
    /// Native coins, as the sender attached them.
    Native(Vec<Coin>),
    /// An amount of one token, as its contract reported it.
    Cw20(Cw20CoinVerified),
}

/// What a deposit holds.
pub enum BalanceView {
    Native(Seq<Holding>),
    Cw20(Holding),
}

/// Whether every entry of `h` has the amount zero.
pub open spec fn all_zero(h: Seq<Holding>) -> bool {
    forall|i: int| 0 <= i < h.len() ==> (#[trigger] h[i]).amount == 0
}

impl BalanceView {
    /// A deposit is empty when it carries no value: no coin of it has a
    /// non-zero amount, or the token amount is zero.
    pub open spec fn is_empty(self) -> bool {
        match self {
            BalanceView::Native(coins) => all_zero(coins),
            BalanceView::Cw20(token) => token.amount == 0,
        }
    }
}

impl View for Balance {
    type V = BalanceView;

    open spec fn view(&self) -> BalanceView {
        match self {
            Balance::Native(coins) => BalanceView::Native(coins.deep_view()),
            Balance::Cw20(token) => BalanceView::Cw20(token@),
        }
    }
}

impl Clone for Balance {
    fn clone(&self) -> (r: Self)
        ensures
            r@ == self@,
    {
        match self {
            Balance::Native(coins) => {
                let copy = coins.clone();
                assert(copy.deep_view() =~= coins.deep_view());
                Balance::Native(copy)
            },
            Balance::Cw20(token) => Balance::Cw20(token.clone()),
        }
    }
}

impl From<Vec<Coin>> for Balance {
    fn from(coins: Vec<Coin>) -> (r: Balance) {
        Balance::Native(coins)
    }
}

impl vstd::std_specs::convert::FromSpecImpl<Vec<Coin>> for Balance {
    open spec fn obeys_from_spec() -> bool {
        true
    }

    open spec fn from_spec(coins: Vec<Coin>) -> Balance {
        Balance::Native(coins)
    }
}

impl Balance {
    /// Whether the deposit carries no value.
    pub fn is_empty(&self) -> (r: bool)
        ensures
            r == self@.is_empty(),
    {
        match self {
            Balance::Native(coins) => {
                let mut i: usize = 0;
                while i < coins.len()
                    invariant
                        i <= coins.len(),
                        self@ == BalanceView::Native(coins.deep_view()),
                        forall|j: int| 0 <= j < i ==> (#[trigger] coins.deep_view()[j]).amount == 0,
                    decreases coins.len() - i,
                {
                    if coins[i].amount != 0 {
                        assert(coins.deep_view()[i as int].amount != 0);
                        return false;
                    }
                    i += 1;
                }
                true
            },
            Balance::Cw20(token) => token.amount == 0,
        }
    }
}

/// The holdings of an escrow: native coins and tokens, each list in the order
/// in which its assets were first deposited.
#[derive(Debug, PartialEq, Eq)]
pub struct GenericBalance {
    pub native: Vec<Coin>,
    pub cw20: Vec<Cw20CoinVerified>,
}

/// What a balance holds.
pub struct GenericBalanceView {
    pub native: Seq<Holding>,
    pub cw20: Seq<Holding>,
}

impl View for GenericBalance {
    type V = GenericBalanceView;

    open spec fn view(&self) -> GenericBalanceView {
        GenericBalanceView { native: self.native.deep_view(), cw20: self.cw20.deep_view() }
    }
}

impl DeepView for GenericBalance {
    type V = GenericBalanceView;

    open spec fn deep_view(&self) -> GenericBalanceView {
        self@
    }
}

impl Default for GenericBalance {
    fn default() -> (r: Self)
        ensures
            r@ == (GenericBalanceView { native: Seq::empty(), cw20: Seq::empty() }),
    {
        let r = GenericBalance { native: Vec::new(), cw20: Vec::new() };
        assert(r@.native =~= Seq::empty());
        assert(r@.cw20 =~= Seq::empty());
        r
    }
}

impl Clone for GenericBalance {
    fn clone(&self) -> (r: Self)
        ensures
            r@ == self@,
    {
        let native = self.native.clone();
        let cw20 = self.cw20.clone();
        assert(native.deep_view() =~= self.native.deep_view());
        assert(cw20.deep_view() =~= self.cw20.deep_view());
        GenericBalance { native, cw20 }
    }
}

/// The balance after a deposit has been merged into it: native coins go to
/// the native holdings one by one, a token amount to the token holdings.
/// `None` if a sum does not fit in 128 bits.
pub open spec fn merge(balance: GenericBalanceView, incoming: BalanceView) -> Option<
    GenericBalanceView,
> {
    match incoming {
        BalanceView::Native(coins) => match merge_all(balance.native, coins) {
            Some(native) => Some(GenericBalanceView { native, cw20: balance.cw20 }),
            None => None,
        },
        BalanceView::Cw20(token) => match merge_one(balance.cw20, token) {
            Some(cw20) => Some(GenericBalanceView { native: balance.native, cw20 }),
            None => None,
        },
    }
}

impl GenericBalance {
    /// Merges the deposit `add` into the balance.
    ///
    /// Fails with an overflow error, and changes nothing, if the amount held
    /// of some asset would exceed 128 bits.
    pub fn add_tokens(&mut self, add: Balance) -> (r: Result<(), ContractError>)
        ensures
            match r {
                Ok(()) => merge(old(self)@, add@) == Some(final(self)@),
                Err(e) => {
                    &&& merge(old(self)@, add@) is None
                    &&& e == ContractError::Std(StdErrorKind::Overflow {})
                    &&& *final(self) == *old(self)
                },
            },
    {
        match add {
            Balance::Native(coins) => {
                let mut merged = self.native.clone();
                assert(merged.deep_view() =~= self.native.deep_view());
                let mut i: usize = 0;
                while i < coins.len()
                    invariant
                        i <= coins.len(),
                        *self == *old(self),
                        add@ == BalanceView::Native(coins.deep_view()),
                        merge_all(self.native.deep_view(), coins.deep_view().take(i as int)) == Some(
                            merged.deep_view(),
                        ),
                    decreases coins.len() - i,
                {
                    let fits = merge_coin(&mut merged, coins[i].clone());
                    proof {
                        let upto = coins.deep_view().take(i + 1);
                        assert(upto.drop_last() =~= coins.deep_view().take(i as int));
                        assert(upto.last() == coins[i as int]@);
                        if !fits {
                            lemma_merge_all_prefix_fails(
                                self.native.deep_view(),
                                coins.deep_view(),
                                i + 1,
                            );
                        }
                    }
                    if !fits {
                        return Err(ContractError::Std(StdErrorKind::Overflow {}));
                    }
                    i += 1;
                }
                assert(coins.deep_view().take(i as int) =~= coins.deep_view());
                self.native = merged;
                Ok(())
            },
            Balance::Cw20(token) => {
                if merge_token(&mut self.cw20, token) {
                    Ok(())
                } else {
                    Err(ContractError::Std(StdErrorKind::Overflow {}))
                }
            },
        }
    }
}

/// What the entry `x` adds to the amount held of `key`.
pub open spec fn share(x: Holding, key: Seq<char>) -> int {
    if x.key == key {
        x.amount as int
    } else {
        0
    }
}

/// The amount of `key` that the entries of `h` hold together.
pub open spec fn total(h: Seq<Holding>, key: Seq<char>) -> int
    decreases h.len(),
{
    if h.len() == 0 {
        0
    } else {
        total(h.drop_last(), key) + share(h.last(), key)
    }
}

proof fn lemma_total_push(h: Seq<Holding>, x: Holding, key: Seq<char>)
    ensures
        total(h.push(x), key) == total(h, key) + share(x, key),
{
    assert(h.push(x).drop_last() =~= h);
}

proof fn lemma_total_update(h: Seq<Holding>, i: int, x: Holding, key: Seq<char>)
    requires
        0 <= i < h.len(),
    ensures
        total(h.update(i, x), key) == total(h, key) - share(h[i], key) + share(x, key),
    decreases h.len(),
{
    if i == h.len() - 1 {
        assert(h.update(i, x).drop_last() =~= h.drop_last());
    } else {
        assert(h.update(i, x).drop_last() =~= h.drop_last().update(i, x));
        lemma_total_update(h.drop_last(), i, x, key);
    }
}

proof fn lemma_total_concat(a: Seq<Holding>, b: Seq<Holding>, key: Seq<char>)
    ensures
        total(a + b, key) == total(a, key) + total(b, key),
    decreases b.len(),
{
    if b.len() == 0 {
        assert(a + b =~= a);
    } else {
        assert((a + b).drop_last() =~= a + b.drop_last());
        lemma_total_concat(a, b.drop_last(), key);
    }
}

/// What is held of an asset is never negative, it is nothing where no entry
/// is for the asset, and in a balance without duplicates it is the amount of
/// the one entry for the asset.
pub proof fn law_total_bounds(h: Seq<Holding>, key: Seq<char>)
    ensures
        0 <= total(h, key),
        !holds(h, key) ==> total(h, key) == 0,
        distinct_keys(h) && holds(h, key) ==> total(h, key) == h[position(h, key)].amount,
    decreases h.len(),
{
    lemma_position(h, key);
    if h.len() > 0 {
        let front = h.drop_last();
        law_total_bounds(front, key);
        lemma_position(front, key);
        let p = position(h, key);
        let q = position(front, key);
        if q < front.len() {
            assert(front[q] == h[q]);
        }
        assert forall|j: int| 0 <= j < q implies (#[trigger] h[j]).key != key by {
            assert(front[j] == h[j]);
        }
        if distinct_keys(h) {
            assert forall|i: int, j: int| 0 <= i < j < front.len() implies (#[trigger] front[i]).key
                != (#[trigger] front[j]).key by {
                assert(front[i] == h[i] && front[j] == h[j]);
            }
        }
    }
}

/// Merging one asset adds its amount to what is held of it and changes the
/// amount held of no other asset.
pub proof fn law_merge_one_total(h: Seq<Holding>, incoming: Holding, key: Seq<char>)
    requires
        merge_one(h, incoming) is Some,
    ensures
        total(merge_one(h, incoming)->0, key) == total(h, key) + share(incoming, key),
{
    lemma_position(h, incoming.key);
    let p = position(h, incoming.key);
    if p < h.len() {
        let sum = Holding { key: h[p].key, amount: (h[p].amount + incoming.amount) as u128 };
        lemma_total_update(h, p, sum, key);
    } else {
        lemma_total_push(h, incoming, key);
    }
}

/// After any sequence of merges, the amount held of each asset is what was
/// held before plus the sum of all merged amounts of that asset.
pub proof fn law_merge_totals(h: Seq<Holding>, incoming: Seq<Holding>, key: Seq<char>)
    requires
        merge_all(h, incoming) is Some,
    ensures
        total(merge_all(h, incoming)->0, key) == total(h, key) + total(incoming, key),
    decreases incoming.len(),
{
    if incoming.len() > 0 {
        let merged = merge_all(h, incoming.drop_last())->0;
        law_merge_totals(h, incoming.drop_last(), key);
        law_merge_one_total(merged, incoming.last(), key);
    }
}

/// Merging two deposits one after the other is merging them as one deposit.
pub proof fn law_merge_associative(h: Seq<Holding>, a: Seq<Holding>, b: Seq<Holding>)
    ensures
        merge_all(h, a + b) == match merge_all(h, a) {
            Some(merged) => merge_all(merged, b),
            None => None,
        },
    decreases b.len(),
{
    if b.len() == 0 {
        assert(a + b =~= a);
    } else {
        assert((a + b).drop_last() =~= a + b.drop_last());
        law_merge_associative(h, a, b.drop_last());
    }
}

/// The order in which two deposits are merged does not change the amount
/// held of any asset; and into a balance without duplicates, the two can be
/// merged in one order exactly when they can be merged in the other.
/// (Merging `a + b` is merging `a`, then `b`: see `law_merge_associative`.)
pub proof fn law_merge_commutative(h: Seq<Holding>, a: Seq<Holding>, b: Seq<Holding>)
    ensures
        merge_all(h, a + b) is Some && merge_all(h, b + a) is Some ==> forall|key: Seq<char>|
            #[trigger] total(merge_all(h, a + b)->0, key) == total(merge_all(h, b + a)->0, key),
        distinct_keys(h) ==> (merge_all(h, a + b) is Some <==> merge_all(h, b + a) is Some),
{
    assert forall|key: Seq<char>| #[trigger] total(a + b, key) == total(b + a, key) by {
        lemma_total_concat(a, b, key);
        lemma_total_concat(b, a, key);
    }
    if merge_all(h, a + b) is Some && merge_all(h, b + a) is Some {
        assert forall|key: Seq<char>| #[trigger]
            total(merge_all(h, a + b)->0, key) == total(merge_all(h, b + a)->0, key) by {
            law_merge_totals(h, a + b, key);
            law_merge_totals(h, b + a, key);
            assert(total(a + b, key) == total(b + a, key));
        }
    }
    if distinct_keys(h) {
        law_merge_succeeds(h, a + b);
        law_merge_succeeds(h, b + a);
        if merge_all(h, a + b) is Some {
            assert forall|key: Seq<char>| #[trigger]
                total(h, key) + total(b + a, key) <= u128::MAX by {
                assert(total(a + b, key) == total(b + a, key));
                assert(total(h, key) + total(a + b, key) <= u128::MAX);
            }
        }
        if merge_all(h, b + a) is Some {
            assert forall|key: Seq<char>| #[trigger]
                total(h, key) + total(a + b, key) <= u128::MAX by {
                assert(total(a + b, key) == total(b + a, key));
                assert(total(h, key) + total(b + a, key) <= u128::MAX);
            }
        }
    }
}

/// A merge keeps every entry where it was, under the asset it was for, and
/// never lowers an amount: new assets go to the end.
pub proof fn law_merge_one_keeps_order(h: Seq<Holding>, incoming: Holding)
    requires
        merge_one(h, incoming) is Some,
    ensures
        h.len() <= merge_one(h, incoming)->0.len() <= h.len() + 1,
        forall|i: int|
            0 <= i < h.len() ==> (#[trigger] merge_one(h, incoming)->0[i]).key == h[i].key
                && merge_one(h, incoming)->0[i].amount >= h[i].amount,
        !holds(h, incoming.key) ==> merge_one(h, incoming)->0 == h.push(incoming),
        distinct_keys(h) ==> distinct_keys(merge_one(h, incoming)->0),
{
    lemma_position(h, incoming.key);
}

/// See `law_merge_one_keeps_order`: the same of a whole deposit.
pub proof fn law_merge_keeps_order(h: Seq<Holding>, incoming: Seq<Holding>)
    requires
        merge_all(h, incoming) is Some,
    ensures
        h.len() <= merge_all(h, incoming)->0.len() <= h.len() + incoming.len(),
        forall|i: int|
            0 <= i < h.len() ==> (#[trigger] merge_all(h, incoming)->0[i]).key == h[i].key
                && merge_all(h, incoming)->0[i].amount >= h[i].amount,
        distinct_keys(h) ==> distinct_keys(merge_all(h, incoming)->0),
    decreases incoming.len(),
{
    if incoming.len() > 0 {
        let merged = merge_all(h, incoming.drop_last())->0;
        law_merge_keeps_order(h, incoming.drop_last());
        law_merge_one_keeps_order(merged, incoming.last());
    }
}

/// Into a balance without duplicates, an asset can be merged exactly when
/// what is held of it and what comes in fit in 128 bits together.
pub proof fn law_merge_one_succeeds(h: Seq<Holding>, incoming: Holding)
    requires
        distinct_keys(h),
    ensures
        merge_one(h, incoming) is Some <==> total(h, incoming.key) + incoming.amount <= u128::MAX,
{
    lemma_position(h, incoming.key);
    law_total_bounds(h, incoming.key);
}

/// Into a balance without duplicates, a deposit can be merged exactly when,
/// for each asset, what is held of it and all that comes in of it fit in 128
/// bits together.
pub proof fn law_merge_succeeds(h: Seq<Holding>, incoming: Seq<Holding>)
    requires
        distinct_keys(h),
    ensures
        merge_all(h, incoming) is Some <==> forall|key: Seq<char>|
            #[trigger] total(h, key) + total(incoming, key) <= u128::MAX,
    decreases incoming.len(),
{
    if incoming.len() == 0 {
        assert forall|key: Seq<char>| #[trigger] total(h, key) + total(incoming, key) <= u128::MAX by {
            law_total_bounds(h, key);
            lemma_position(h, key);
        }
    } else {
        let front = incoming.drop_last();
        let last = incoming.last();
        law_merge_succeeds(h, front);
        if merge_all(h, front) is Some {
            let merged = merge_all(h, front)->0;
            law_merge_keeps_order(h, front);
            law_merge_one_succeeds(merged, last);
            law_merge_totals(h, front, last.key);
            if merge_all(h, incoming) is Some {
                assert forall|key: Seq<char>| #[trigger] total(h, key) + total(incoming, key)
                    <= u128::MAX by {
                    law_merge_totals(h, incoming, key);
                    let all = merge_all(h, incoming)->0;
                    law_merge_one_keeps_order(merged, last);
                    law_total_bounds(all, key);
                    lemma_position(all, key);
                }
            } else {
                assert(total(h, last.key) + total(incoming, last.key) > u128::MAX);
            }
        } else {
            let key = choose|key: Seq<char>| #[trigger] total(h, key) + total(front, key) > u128::MAX;
            law_total_bounds(incoming, key);
            assert(total(h, key) + total(incoming, key) > u128::MAX);
        }
    }
}

} // verus!
