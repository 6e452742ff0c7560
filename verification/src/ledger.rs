//! The shared account state that both collaborators persist into.
//!
//! Accounts live in one address space: at most one record per address, with
//! mint, metadata and edition records distinguished by kind. Holdings are
//! keyed by the pair of owner and mint. Lookups are specified through
//! [`account_in`] and [`holding_in`]; the lemmas at the bottom describe how
//! pushing or replacing one entry moves those lookups, and every operation's
//! contract is stated over them.

use vstd::prelude::*;
use crate::records::{MintRecord, MetadataRecord, EditionRecord};

verus! {

/// One persisted account record.
#[derive(Debug)]
pub enum AccountRecord {
    Mint(MintRecord),
    Metadata(MetadataRecord),
    Edition(EditionRecord),
}

/// An account record together with the address it lives at.
#[derive(Debug)]
pub struct AccountEntry {
    pub address: u64,
    pub record: AccountRecord,
}

/// A balance: `owner` holds `amount` units of `mint`.
#[derive(Clone, Copy, PartialEq, Eq, Structural, Debug)]
pub struct HoldingEntry {
    pub owner: u64,
    pub mint: u64,
    pub amount: u64,
}

/// The whole persisted state.
#[derive(Debug)]
pub struct Ledger {
    pub accounts: Vec<AccountEntry>,
    pub holdings: Vec<HoldingEntry>,
}

/// Entry `j` of `s` is the account at address `a`.
pub open spec fn entry_matches(s: Seq<AccountEntry>, a: u64, j: int) -> bool {
    0 <= j < s.len() && s[j].address == a
}

/// No two account entries share an address.
pub open spec fn accounts_unique(s: Seq<AccountEntry>) -> bool {
    forall|i: int, j: int|
        0 <= i < j < s.len() ==> s[i].address != s[j].address
}

/// Some entry of `s` is the account at address `a`.
pub open spec fn has_account(s: Seq<AccountEntry>, a: u64) -> bool {
    exists|j: int| entry_matches(s, a, j)
}

/// The index of the account at address `a`.
pub open spec fn account_index(s: Seq<AccountEntry>, a: u64) -> int {
    choose|j: int| entry_matches(s, a, j)
}

/// The record at address `a`, if any.
pub open spec fn account_in(s: Seq<AccountEntry>, a: u64) -> Option<AccountRecord> {
    if has_account(s, a) {
        Some(s[account_index(s, a)].record)
    } else {
        None
    }
}

/// Entry `j` of `s` is the holding of `o` in `m`.
pub open spec fn holding_matches(s: Seq<HoldingEntry>, o: u64, m: u64, j: int) -> bool {
    0 <= j < s.len() && s[j].owner == o && s[j].mint == m
}

/// No two holding entries share an owner-and-mint pair.
pub open spec fn holdings_unique(s: Seq<HoldingEntry>) -> bool {
    forall|i: int, j: int|
        0 <= i < j < s.len()
            ==> !(s[i].owner == s[j].owner && s[i].mint == s[j].mint)
}

/// Some entry of `s` is the holding of `o` in `m`.
pub open spec fn has_holding(s: Seq<HoldingEntry>, o: u64, m: u64) -> bool {
    exists|j: int| holding_matches(s, o, m, j)
}

/// The index of the holding of `o` in `m`.
pub open spec fn holding_index(s: Seq<HoldingEntry>, o: u64, m: u64) -> int {
    choose|j: int| holding_matches(s, o, m, j)
}

/// The balance of `o` in `m`, if a holding exists.
pub open spec fn holding_in(s: Seq<HoldingEntry>, o: u64, m: u64) -> Option<u64> {
    if has_holding(s, o, m) {
        Some(s[holding_index(s, o, m)].amount)
    } else {
        None
    }
}

impl Ledger {
    /// Well-formedness: both tables are keyed.
    pub open spec fn wf(&self) -> bool {
        &&& accounts_unique(self.accounts@)
        &&& holdings_unique(self.holdings@)
    }

    /// The record at address `a`, if any.
    pub open spec fn account_of(&self, a: u64) -> Option<AccountRecord> {
        account_in(self.accounts@, a)
    }

    /// The mint record at address `a`, if `a` holds one.
    pub open spec fn mint_of(&self, a: u64) -> Option<MintRecord> {
        match self.account_of(a) {
            Some(AccountRecord::Mint(m)) => Some(m),
            _ => None,
        }
    }

    /// The metadata record at address `a`, if `a` holds one.
    pub open spec fn metadata_of(&self, a: u64) -> Option<MetadataRecord> {
        match self.account_of(a) {
            Some(AccountRecord::Metadata(m)) => Some(m),
            _ => None,
        }
    }

    /// The edition record at address `a`, if `a` holds one.
    pub open spec fn edition_of(&self, a: u64) -> Option<EditionRecord> {
        match self.account_of(a) {
            Some(AccountRecord::Edition(e)) => Some(e),
            _ => None,
        }
    }

    /// The balance of `owner` in `mint`, if a holding exists.
    pub open spec fn holding_of(&self, owner: u64, mint: u64) -> Option<u64> {
        holding_in(self.holdings@, owner, mint)
    }

    /// An empty ledger.
    pub fn new() -> (l: Ledger)
        ensures
            l.wf(),
            l.accounts@.len() == 0,
            l.holdings@.len() == 0,
            forall|a: u64| l.account_of(a) is None,
            forall|o: u64, m: u64| l.holding_of(o, m) is None,
    {
        let l = (Ledger { accounts: Vec::new(), holdings: Vec::new() });
        proof {
            assert forall|a: u64| l.account_of(a) is None by {
                if has_account(l.accounts@, a) {
                    let j = choose|j: int| entry_matches(l.accounts@, a, j);
                    assert(entry_matches(l.accounts@, a, j));
                }
            }
            assert forall|o: u64, m: u64| l.holding_of(o, m) is None by {
                if has_holding(l.holdings@, o, m) {
                    let j = choose|j: int| holding_matches(l.holdings@, o, m, j);
                    assert(holding_matches(l.holdings@, o, m, j));
                }
            }
        }
        l
    }

    /// Finds the table index of the account at `a`.
    pub fn find_account(&self, a: u64) -> (r: Option<usize>)
        requires
            self.wf(),
        ensures
            match r {
                Some(i) => {
                    &&& i < self.accounts@.len()
                    &&& self.accounts@[i as int].address == a
                    &&& self.account_of(a) == Some(self.accounts@[i as int].record)
                },
                None => self.account_of(a) is None,
            },
    {
        let mut i: usize = 0;
        while i < self.accounts.len()
            invariant
                i <= self.accounts.len(),
                self.wf(),
                forall|j: int| 0 <= j < i ==> self.accounts@[j].address != a,
            decreases self.accounts.len() - i,
        {
            if self.accounts[i].address == a {
                proof {
                    let s = self.accounts@;
                    assert(entry_matches(s, a, i as int));
                    let k = account_index(s, a);
                    assert(entry_matches(s, a, k));
                    if k < i as int {
                        assert(s[k].address != s[i as int].address);
                    } else if k > i as int {
                        assert(s[i as int].address != s[k].address);
                    }
                }
                return Some(i);
            }
            i = i + 1;
        }
        proof {
            if has_account(self.accounts@, a) {
                let j = account_index(self.accounts@, a);
                assert(entry_matches(self.accounts@, a, j));
            }
        }
        None
    }

    /// Finds the table index of the holding of `owner` in `mint`.
    pub fn find_holding(&self, owner: u64, mint: u64) -> (r: Option<usize>)
        requires
            self.wf(),
        ensures
            match r {
                Some(i) => {
                    &&& i < self.holdings@.len()
                    &&& self.holdings@[i as int].owner == owner
                    &&& self.holdings@[i as int].mint == mint
                    &&& self.holding_of(owner, mint)
                        == Some(self.holdings@[i as int].amount)
                },
                None => self.holding_of(owner, mint) is None,
            },
    {
        let mut i: usize = 0;
        while i < self.holdings.len()
            invariant
                i <= self.holdings.len(),
                self.wf(),
                forall|j: int|
                    0 <= j < i
                        ==> !(self.holdings@[j].owner == owner
                            && self.holdings@[j].mint == mint),
            decreases self.holdings.len() - i,
        {
            if self.holdings[i].owner == owner && self.holdings[i].mint == mint {
                proof {
                    let s = self.holdings@;
                    assert(holding_matches(s, owner, mint, i as int));
                    let k = holding_index(s, owner, mint);
                    assert(holding_matches(s, owner, mint, k));
                    if k < i as int {
                        assert(!(s[k].owner == s[i as int].owner
                            && s[k].mint == s[i as int].mint));
                    } else if k > i as int {
                        assert(!(s[i as int].owner == s[k].owner
                            && s[i as int].mint == s[k].mint));
                    }
                }
                return Some(i);
            }
            i = i + 1;
        }
        proof {
            if has_holding(self.holdings@, owner, mint) {
                let j = holding_index(self.holdings@, owner, mint);
                assert(holding_matches(self.holdings@, owner, mint, j));
            }
        }
        None
    }
}

/// Appending an entry at a fresh address leaves every other lookup alone and
/// makes the new address resolve to the new record.
pub proof fn lemma_account_push(s: Seq<AccountEntry>, e: AccountEntry)
    requires
        accounts_unique(s),
        account_in(s, e.address) is None,
    ensures
        accounts_unique(s.push(e)),
        account_in(s.push(e), e.address) == Some(e.record),
        forall|b: u64|
            b != e.address ==> account_in(s.push(e), b) == account_in(s, b),
{
    let t = s.push(e);
    assert forall|i: int, j: int|
        0 <= i < j < t.len() implies t[i].address != t[j].address by {
        if j < s.len() {
            assert(s[i].address != s[j].address);
        } else {
            assert(!entry_matches(s, e.address, i));
        }
    }
    assert(entry_matches(t, e.address, s.len() as int));
    let k = account_index(t, e.address);
    assert(entry_matches(t, e.address, k));
    if k != s.len() as int {
        assert(entry_matches(s, e.address, k));
    }
    assert forall|b: u64|
        b != e.address implies account_in(t, b) == account_in(s, b) by {
        if has_account(s, b) {
            let k1 = account_index(s, b);
            assert(entry_matches(s, b, k1));
            assert(entry_matches(t, b, k1));
            let k2 = account_index(t, b);
            assert(entry_matches(t, b, k2));
            if k2 == s.len() as int {
                assert(t[k2].address == e.address);
            } else {
                assert(entry_matches(s, b, k2));
            }
            if k1 < k2 {
                assert(t[k1].address != t[k2].address);
            } else if k2 < k1 {
                assert(t[k2].address != t[k1].address);
            }
        } else {
            if has_account(t, b) {
                let k2 = account_index(t, b);
                assert(entry_matches(t, b, k2));
                if k2 != s.len() as int {
                    assert(entry_matches(s, b, k2));
                }
            }
        }
    }
}

/// Replacing the entry at an index, keeping its address, leaves every other
/// lookup alone and makes that address resolve to the new record.
pub proof fn lemma_account_update(s: Seq<AccountEntry>, i: int, e: AccountEntry)
    requires
        accounts_unique(s),
        0 <= i < s.len(),
        s[i].address == e.address,
    ensures
        accounts_unique(s.update(i, e)),
        account_in(s.update(i, e), e.address) == Some(e.record),
        forall|b: u64|
            b != e.address ==> account_in(s.update(i, e), b) == account_in(s, b),
{
    let t = s.update(i, e);
    assert forall|p: int, q: int|
        0 <= p < q < t.len() implies t[p].address != t[q].address by {
        assert(s[p].address != s[q].address);
        assert(t[p].address == s[p].address);
        assert(t[q].address == s[q].address);
    }
    assert(entry_matches(t, e.address, i));
    let k = account_index(t, e.address);
    assert(entry_matches(t, e.address, k));
    if k != i {
        if k < i {
            assert(t[k].address != t[i].address);
        } else {
            assert(t[i].address != t[k].address);
        }
    }
    assert forall|b: u64|
        b != e.address implies account_in(t, b) == account_in(s, b) by {
        if has_account(s, b) {
            let k1 = account_index(s, b);
            assert(entry_matches(s, b, k1));
            assert(k1 != i);
            assert(entry_matches(t, b, k1));
            let k2 = account_index(t, b);
            assert(entry_matches(t, b, k2));
            assert(k2 != i);
            assert(entry_matches(s, b, k2));
            if k1 < k2 {
                assert(s[k1].address != s[k2].address);
            } else if k2 < k1 {
                assert(s[k2].address != s[k1].address);
            }
        } else {
            if has_account(t, b) {
                let k2 = account_index(t, b);
                assert(entry_matches(t, b, k2));
                assert(k2 != i);
                assert(entry_matches(s, b, k2));
            }
        }
    }
}

/// Appending a holding for a fresh owner-and-mint pair leaves every other
/// balance alone and makes the pair resolve to the new amount.
pub proof fn lemma_holding_push(s: Seq<HoldingEntry>, e: HoldingEntry)
    requires
        holdings_unique(s),
        holding_in(s, e.owner, e.mint) is None,
    ensures
        holdings_unique(s.push(e)),
        holding_in(s.push(e), e.owner, e.mint) == Some(e.amount),
        forall|o: u64, m: u64|
            !(o == e.owner && m == e.mint)
                ==> holding_in(s.push(e), o, m) == holding_in(s, o, m),
{
    let t = s.push(e);
    assert forall|i: int, j: int|
        0 <= i < j < t.len()
        implies !(t[i].owner == t[j].owner && t[i].mint == t[j].mint) by {
        if j < s.len() {
            assert(!(s[i].owner == s[j].owner && s[i].mint == s[j].mint));
        } else {
            assert(!holding_matches(s, e.owner, e.mint, i));
        }
    }
    assert(holding_matches(t, e.owner, e.mint, s.len() as int));
    let k = holding_index(t, e.owner, e.mint);
    assert(holding_matches(t, e.owner, e.mint, k));
    if k != s.len() as int {
        assert(holding_matches(s, e.owner, e.mint, k));
    }
    assert forall|o: u64, m: u64|
        !(o == e.owner && m == e.mint)
        implies holding_in(t, o, m) == holding_in(s, o, m) by {
        if has_holding(s, o, m) {
            let k1 = holding_index(s, o, m);
            assert(holding_matches(s, o, m, k1));
            assert(holding_matches(t, o, m, k1));
            let k2 = holding_index(t, o, m);
            assert(holding_matches(t, o, m, k2));
            if k2 == s.len() as int {
                assert(t[k2].owner == e.owner && t[k2].mint == e.mint);
            } else {
                assert(holding_matches(s, o, m, k2));
            }
            if k1 < k2 {
                assert(!(t[k1].owner == t[k2].owner && t[k1].mint == t[k2].mint));
            } else if k2 < k1 {
                assert(!(t[k2].owner == t[k1].owner && t[k2].mint == t[k1].mint));
            }
        } else {
            if has_holding(t, o, m) {
                let k2 = holding_index(t, o, m);
                assert(holding_matches(t, o, m, k2));
                if k2 != s.len() as int {
                    assert(holding_matches(s, o, m, k2));
                }
            }
        }
    }
}

/// Replacing the holding at an index, keeping its key, leaves every other
/// balance alone and makes the key resolve to the new amount.
pub proof fn lemma_holding_update(s: Seq<HoldingEntry>, i: int, e: HoldingEntry)
    requires
        holdings_unique(s),
        0 <= i < s.len(),
        s[i].owner == e.owner,
        s[i].mint == e.mint,
    ensures
        holdings_unique(s.update(i, e)),
        holding_in(s.update(i, e), e.owner, e.mint) == Some(e.amount),
        forall|o: u64, m: u64|
            !(o == e.owner && m == e.mint)
                ==> holding_in(s.update(i, e), o, m) == holding_in(s, o, m),
{
    let t = s.update(i, e);
    assert forall|p: int, q: int|
        0 <= p < q < t.len()
        implies !(t[p].owner == t[q].owner && t[p].mint == t[q].mint) by {
        assert(!(s[p].owner == s[q].owner && s[p].mint == s[q].mint));
    }
    assert(holding_matches(t, e.owner, e.mint, i));
    let k = holding_index(t, e.owner, e.mint);
    assert(holding_matches(t, e.owner, e.mint, k));
    if k != i {
        if k < i {
            assert(!(t[k].owner == t[i].owner && t[k].mint == t[i].mint));
        } else {
            assert(!(t[i].owner == t[k].owner && t[i].mint == t[k].mint));
        }
    }
    assert forall|o: u64, m: u64|
        !(o == e.owner && m == e.mint)
        implies holding_in(t, o, m) == holding_in(s, o, m) by {
        if has_holding(s, o, m) {
            let k1 = holding_index(s, o, m);
            assert(holding_matches(s, o, m, k1));
            assert(k1 != i);
            assert(holding_matches(t, o, m, k1));
            let k2 = holding_index(t, o, m);
            assert(holding_matches(t, o, m, k2));
            assert(k2 != i);
            assert(holding_matches(s, o, m, k2));
            if k1 < k2 {
                assert(!(s[k1].owner == s[k2].owner && s[k1].mint == s[k2].mint));
            } else if k2 < k1 {
                assert(!(s[k2].owner == s[k1].owner && s[k2].mint == s[k1].mint));
            }
        } else {
            if has_holding(t, o, m) {
                let k2 = holding_index(t, o, m);
                assert(holding_matches(t, o, m, k2));
                assert(k2 != i);
                assert(holding_matches(s, o, m, k2));
            }
        }
    }
}

} // verus!
