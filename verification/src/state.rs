//! What the engine keeps between requests: the governance values and the
//! registry of escrows.

use vstd::prelude::*;

use crate::balance::{GenericBalance, GenericBalanceView};
use crate::error::StdErrorKind;
use crate::msg::clone_strings;

verus! {

/// One funding of an escrow: who paid in, how many tokens (zero for native
/// coins), and the period that the funder named.
#[derive(Debug, PartialEq, Eq)]
pub struct AccountInfo {
    pub addr: String,
    pub amount: u128,
    pub start_time: u64,
    pub end_time: u64,
}

/// What an `AccountInfo` holds.
pub struct AccountInfoView {
    pub addr: Seq<char>,
    pub amount: u128,
    pub start_time: u64,
    pub end_time: u64,
}

impl View for AccountInfo {
    type V = AccountInfoView;

    open spec fn view(&self) -> AccountInfoView {
        AccountInfoView {
            addr: self.addr@,
            amount: self.amount,
            start_time: self.start_time,
            end_time: self.end_time,
        }
    }
}

impl DeepView for AccountInfo {
    type V = AccountInfoView;

    open spec fn deep_view(&self) -> AccountInfoView {
        self@
    }
}

impl Clone for AccountInfo {
    fn clone(&self) -> (r: Self)
        ensures
            r == *self,
    {
        AccountInfo {
            addr: self.addr.clone(),
            amount: self.amount,
            start_time: self.start_time,
            end_time: self.end_time,
        }
    }
}

/// Value held for a client until it is released or refunded.
#[derive(Debug, PartialEq, Eq)]
pub struct Escrow {
    /// The party that owns the escrow: the sender of the request that made
    /// it.
    pub client: String,
    /// One record per top-up, oldest first. Records are only ever added.
    pub accountinfo: Vec<AccountInfo>,
    /// A deadline. Nothing enforces it.
    pub end_time: Option<u64>,
    pub balance: GenericBalance,
    /// The token contracts that may fund the escrow.
    pub cw20_whitelist: Vec<String>,
    pub title: String,
    pub url: String,
    pub threshold: u64,
    /// The stage of the escrow's life; 0 is the created state.
    pub state: u8,
}

/// What an `Escrow` holds.
pub struct EscrowView {
    pub client: Seq<char>,
    pub accountinfo: Seq<AccountInfoView>,
    pub end_time: Option<u64>,
    pub balance: GenericBalanceView,
    pub cw20_whitelist: Seq<Seq<char>>,
    pub title: Seq<char>,
    pub url: Seq<char>,
    pub threshold: u64,
    pub state: u8,
}

impl View for Escrow {
    type V = EscrowView;

    open spec fn view(&self) -> EscrowView {
        EscrowView {
            client: self.client@,
            accountinfo: self.accountinfo.deep_view(),
            end_time: self.end_time,
            balance: self.balance@,
            cw20_whitelist: self.cw20_whitelist.deep_view(),
            title: self.title@,
            url: self.url@,
            threshold: self.threshold,
            state: self.state,
        }
    }
}

impl Clone for Escrow {
    fn clone(&self) -> (r: Self)
        ensures
            r@ == self@,
    {
        let accountinfo = self.accountinfo.clone();
        assert(accountinfo.deep_view() =~= self.accountinfo.deep_view());
        Escrow {
            client: self.client.clone(),
            accountinfo,
            end_time: self.end_time,
            balance: self.balance.clone(),
            cw20_whitelist: clone_strings(&self.cw20_whitelist),
            title: self.title.clone(),
            url: self.url.clone(),
            threshold: self.threshold,
            state: self.state,
        }
    }
}

impl Escrow {
    /// The whitelist as plain strings.
    pub fn human_whitelist(&self) -> (r: Vec<String>)
        ensures
            r.deep_view() == self@.cw20_whitelist,
    {
        clone_strings(&self.cw20_whitelist)
    }
}

/// The governance values. They are set as one: a change replaces the
/// manager, the minimum stake and both rates together.
#[derive(Debug, PartialEq, Eq)]
pub struct Constants {
    /// The manager. Empty as long as none has been named.
    pub manager_addr: String,
    pub min_stake: String,
    pub rate_client: String,
    /// The token contract whose tokens may fund a new escrow.
    pub rate_manager: String,
    /// The developer's address. No request changes it.
    pub dev_addr: String,
}

/// What a `Constants` holds.
pub struct ConstantsView {
    pub manager_addr: Seq<char>,
    pub min_stake: Seq<char>,
    pub rate_client: Seq<char>,
    pub rate_manager: Seq<char>,
    pub dev_addr: Seq<char>,
}

impl View for Constants {
    type V = ConstantsView;

    open spec fn view(&self) -> ConstantsView {
        ConstantsView {
            manager_addr: self.manager_addr@,
            min_stake: self.min_stake@,
            rate_client: self.rate_client@,
            rate_manager: self.rate_manager@,
            dev_addr: self.dev_addr@,
        }
    }
}

impl ConstantsView {
    /// The values that a fresh engine starts with: no manager, and "10" for
    /// the minimum stake and each rate.
    pub open spec fn initial() -> ConstantsView {
        ConstantsView {
            manager_addr: Seq::empty(),
            min_stake: "10"@,
            rate_client: "10"@,
            rate_manager: "10"@,
            dev_addr: "juno15fg4zvl8xgj3txslr56ztnyspf3jc7n9j44vhz"@,
        }
    }
}

impl Default for Constants {
    fn default() -> (r: Self)
        ensures
            r@ == ConstantsView::initial(),
    {
        Constants {
            manager_addr: String::new(),
            min_stake: String::from_str("10"),
            rate_client: String::from_str("10"),
            rate_manager: String::from_str("10"),
            dev_addr: String::from_str("juno15fg4zvl8xgj3txslr56ztnyspf3jc7n9j44vhz"),
        }
    }
}

impl Clone for Constants {
    fn clone(&self) -> (r: Self)
        ensures
            r == *self,
    {
        Constants {
            manager_addr: self.manager_addr.clone(),
            min_stake: self.min_stake.clone(),
            rate_client: self.rate_client.clone(),
            rate_manager: self.rate_manager.clone(),
            dev_addr: self.dev_addr.clone(),
        }
    }
}

/// An escrow with the id that it is stored under.
struct Record {
    id: String,
    escrow: Escrow,
}

/// The state of the engine: the governance values and the escrows, each
/// under its id, in the order in which they were made.
pub struct Store {
    constants: Constants,
    records: Vec<Record>,
}

/// What a `Store` holds.
pub struct StoreView {
    pub constants: ConstantsView,
    /// The ids in use, in the order in which their escrows were made.
    pub ids: Seq<Seq<char>>,
    /// The escrow under each id.
    pub escrows: Map<Seq<char>, EscrowView>,
}

impl StoreView {
    /// Every id is listed once, and the listed ids are those in use.
    pub open spec fn wf(self) -> bool {
        &&& self.ids.no_duplicates()
        &&& forall|id: Seq<char>| self.ids.contains(id) <==> #[trigger] self.escrows.contains_key(id)
    }

    /// The state with `escrow` stored under `id`, in the place of the one
    /// that was stored there or, if there was none, as the newest.
    pub open spec fn with_escrow(self, id: Seq<char>, escrow: EscrowView) -> StoreView {
        StoreView {
            constants: self.constants,
            ids: if self.escrows.contains_key(id) {
                self.ids
            } else {
                self.ids.push(id)
            },
            escrows: self.escrows.insert(id, escrow),
        }
    }

    /// The state with the governance values `constants`.
    pub open spec fn with_constants(self, constants: ConstantsView) -> StoreView {
        StoreView { constants, ids: self.ids, escrows: self.escrows }
    }

    /// The state of a fresh engine.
    pub open spec fn initial() -> StoreView {
        StoreView { constants: ConstantsView::initial(), ids: Seq::empty(), escrows: Map::empty() }
    }
}

/// Storing an escrow keeps a state well-formed.
pub proof fn law_with_escrow_wf(state: StoreView, id: Seq<char>, escrow: EscrowView)
    requires
        state.wf(),
    ensures
        state.with_escrow(id, escrow).wf(),
{
    let next = state.with_escrow(id, escrow);
    if !state.escrows.contains_key(id) {
        assert forall|key: Seq<char>| next.ids.contains(key) <==> #[trigger] next.escrows.contains_key(
            key,
        ) by {
            lemma_pushed_contains(state.ids, id, key);
        }
    }
}

/// The ids of `records`, in their order.
spec fn record_ids(records: Seq<Record>) -> Seq<Seq<char>> {
    Seq::new(records.len(), |i: int| records[i].id@)
}

/// The index of the first of `ids` that is `id`, or `ids.len()` if none is.
spec fn slot(ids: Seq<Seq<char>>, id: Seq<char>) -> int
    decreases ids.len(),
{
    if ids.len() == 0 || ids[0] == id {
        0
    } else {
        1 + slot(ids.drop_first(), id)
    }
}

proof fn lemma_slot(ids: Seq<Seq<char>>, id: Seq<char>)
    ensures
        0 <= slot(ids, id) <= ids.len(),
        forall|j: int| 0 <= j < slot(ids, id) ==> #[trigger] ids[j] != id,
        slot(ids, id) < ids.len() ==> ids[slot(ids, id)] == id,
        slot(ids, id) < ids.len() <==> ids.contains(id),
    decreases ids.len(),
{
    if ids.len() != 0 && ids[0] != id {
        let t = ids.drop_first();
        lemma_slot(t, id);
        assert forall|j: int| 0 <= j < slot(ids, id) implies #[trigger] ids[j] != id by {
            if j > 0 {
                assert(t[j - 1] == ids[j]);
            }
        }
        if slot(t, id) < t.len() {
            assert(ids[slot(ids, id)] == t[slot(t, id)]);
        }
    }
    if ids.contains(id) {
        let k = choose|k: int| 0 <= k < ids.len() && ids[k] == id;
        assert(ids[k] == id);
    }
}

proof fn lemma_pushed_contains(ids: Seq<Seq<char>>, id: Seq<char>, key: Seq<char>)
    ensures
        ids.push(id).contains(key) <==> ids.contains(key) || key == id,
{
    let now = ids.push(id);
    if now.contains(key) {
        let k = choose|k: int| 0 <= k < now.len() && now[k] == key;
        if k < ids.len() {
            assert(ids[k] == key);
        }
    }
    if ids.contains(key) {
        let k = choose|k: int| 0 <= k < ids.len() && ids[k] == key;
        assert(now[k] == key);
    }
    if key == id {
        assert(now[ids.len() as int] == key);
    }
}

impl View for Store {
    type V = StoreView;

    closed spec fn view(&self) -> StoreView {
        let ids = record_ids(self.records@);
        StoreView {
            constants: self.constants@,
            ids,
            escrows: Map::new(
                |id: Seq<char>| ids.contains(id),
                |id: Seq<char>| self.records@[slot(ids, id)].escrow@,
            ),
        }
    }
}

impl Store {
    /// A fresh state: the initial governance values and no escrow.
    pub fn new() -> (r: Store)
        ensures
            r@ == StoreView::initial(),
            r@.wf(),
    {
        let r = Store { constants: Constants::default(), records: Vec::new() };
        assert(r@.ids =~= Seq::<Seq<char>>::empty());
        assert(r@.escrows =~= Map::<Seq<char>, EscrowView>::empty());
        r
    }

    /// The governance values.
    pub fn constants(&self) -> (r: &Constants)
        ensures
            r@ == self@.constants,
    {
        &self.constants
    }

    /// Replaces the governance values.
    pub fn set_constants(&mut self, constants: Constants)
        ensures
            final(self)@ == old(self)@.with_constants(constants@),
    {
        self.constants = constants;
    }

    /// The place of the escrow stored under `id`, if there is one.
    fn find(&self, id: &String) -> (r: Option<usize>)
        ensures
            match r {
                Some(i) => i < self.records.len() && slot(record_ids(self.records@), id@) == i,
                None => !record_ids(self.records@).contains(id@),
            },
    {
        let ghost ids = record_ids(self.records@);
        proof {
            lemma_slot(ids, id@);
        }
        let mut i: usize = 0;
        while i < self.records.len()
            invariant
                i <= self.records.len(),
                ids == record_ids(self.records@),
                forall|j: int| 0 <= j < i ==> #[trigger] ids[j] != id@,
            decreases self.records.len() - i,
        {
            if self.records[i].id == *id {
                proof {
                    lemma_slot(ids, id@);
                    assert(ids[i as int] == id@);
                }
                return Some(i);
            }
            i += 1;
        }
        None
    }

    /// Whether an escrow is stored under `id`.
    pub fn has(&self, id: &String) -> (r: bool)
        ensures
            r == self@.escrows.contains_key(id@),
    {
        proof {
            lemma_slot(record_ids(self.records@), id@);
        }
        self.find(id).is_some()
    }

    /// The escrow stored under `id`.
    pub fn load(&self, id: &String) -> (r: Result<&Escrow, StdErrorKind>)
        ensures
            match r {
                Ok(escrow) => self@.escrows.contains_key(id@) && escrow@ == self@.escrows[id@],
                Err(e) => !self@.escrows.contains_key(id@) && e == (StdErrorKind::NotFound {}),
            },
    {
        proof {
            lemma_slot(record_ids(self.records@), id@);
        }
        match self.find(id) {
            Some(i) => Ok(&self.records[i].escrow),
            None => Err(StdErrorKind::NotFound {}),
        }
    }

    /// Stores `escrow` under `id`, in the place of the one that was stored
    /// there or, if there was none, as the newest.
    pub fn save(&mut self, id: String, escrow: Escrow)
        ensures
            final(self)@ == old(self)@.with_escrow(id@, escrow@),
    {
        let ghost before = self.records@;
        let ghost ids = record_ids(before);
        proof {
            lemma_slot(ids, id@);
        }
        match self.find(&id) {
            Some(i) => {
                self.records[i].escrow = escrow;
                proof {
                    assert(record_ids(self.records@) =~= ids);
                    assert forall|key: Seq<char>| ids.contains(key) implies #[trigger] self@.escrows[key]
                        == old(self)@.escrows.insert(id@, escrow@)[key] by {
                        lemma_slot(ids, key);
                    }
                    assert(self@.escrows =~= old(self)@.escrows.insert(id@, escrow@));
                }
            },
            None => {
                self.records.push(Record { id, escrow });
                proof {
                    let now = record_ids(self.records@);
                    assert(now =~= ids.push(id@));
                    assert forall|key: Seq<char>| now.contains(key) <==> (ids.contains(key) || key
                        == id@) by {
                        lemma_pushed_contains(ids, id@, key);
                    }
                    assert forall|key: Seq<char>| now.contains(key) implies #[trigger] self@.escrows[key]
                        == old(self)@.escrows.insert(id@, escrow@)[key] by {
                        lemma_slot(now, key);
                        lemma_slot(ids, key);
                        let k = slot(now, key);
                        if key != id@ {
                            let k0 = slot(ids, key);
                            assert(now[k0] == key);
                            if k < ids.len() {
                                assert(ids[k] == key);
                            }
                            assert(k == k0);
                        } else {
                            if k < ids.len() {
                                assert(ids[k] == key);
                            }
                        }
                    }
                    assert(self@.escrows =~= old(self)@.escrows.insert(id@, escrow@));
                }
            },
        }
    }

    /// The ids in use, in the order in which their escrows were made.
    pub fn ids(&self) -> (r: Vec<String>)
        ensures
            r.deep_view() == self@.ids,
    {
        let mut r: Vec<String> = Vec::new();
        let mut i: usize = 0;
        while i < self.records.len()
            invariant
                i <= self.records.len(),
                r.len() == i,
                forall|j: int| 0 <= j < i ==> (#[trigger] r[j])@ == self.records[j].id@,
            decreases self.records.len() - i,
        {
            r.push(self.records[i].id.clone());
            i += 1;
        }
        assert(r.deep_view() =~= record_ids(self.records@));
        r
    }
}

/// The ids that a store lists are those under which it holds an escrow.
pub proof fn law_listed_ids_in_use(store: Store, id: Seq<char>)
    ensures
        store@.ids.contains(id) <==> store@.escrows.contains_key(id),
{
}

} // verus!
