//! The token ledger collaborator: mint creation and unit minting.
//!
//! Each operation either applies in full or returns the rejection reason and
//! leaves the ledger untouched; the `*_error` spec function beside each
//! operation says exactly which reason comes on which state.

use vstd::prelude::*;
use crate::records::{MintRecord, Error};
use crate::ledger::{
    AccountRecord, AccountEntry, HoldingEntry, Ledger, lemma_account_push,
    lemma_account_update, lemma_holding_push, lemma_holding_update,
};

verus! {

/// Whether an existing account can pass for the mint this protocol would
/// have created: a mint with zero decimals whose mint and freeze authority
/// are the given authority.
pub open spec fn mint_compatible(rec: AccountRecord, authority: u64) -> bool {
    &&& rec matches AccountRecord::Mint(m)
    &&& m.decimals == 0
    &&& m.authority == authority
    &&& m.freeze_authority == authority
}

impl Ledger {
    /// Rejection reason of [`Ledger::create_mint`], if any.
    pub open spec fn create_mint_error(&self, address: u64) -> Option<Error> {
        if self.account_of(address) is Some {
            Some(Error::AlreadyInUse)
        } else {
            None
        }
    }

    /// Creates a brand-new mint with zero decimals and zero supply, owned by
    /// `authority` as both mint and freeze authority. Rejected when the
    /// address is already in use.
    pub fn create_mint(&mut self, address: u64, authority: u64) -> (r: Result<
        (),
        Error,
    >)
        requires
            old(self).wf(),
        ensures
            final(self).wf(),
            r is Ok <==> old(self).create_mint_error(address) is None,
            r matches Err(e) ==> {
                &&& Some(e) == old(self).create_mint_error(address)
                &&& *final(self) == *old(self)
            },
            r is Ok ==> {
                &&& final(self).account_of(address) == Some(
                    AccountRecord::Mint(
                        (MintRecord {
                            decimals: 0,
                            supply: 0,
                            authority,
                            freeze_authority: authority,
                        }),
                    ),
                )
                &&& forall|b: u64|
                    b != address ==> final(self).account_of(b)
                        == old(self).account_of(b)
                &&& final(self).holdings@ == old(self).holdings@
                &&& final(self).accounts@.len() == old(self).accounts@.len() + 1
            },
    {
        match self.find_account(address) {
            Some(_) => Err(Error::AlreadyInUse),
            None => {
                let e = AccountEntry {
                    address,
                    record: AccountRecord::Mint(
                        MintRecord {
                            decimals: 0,
                            supply: 0,
                            authority,
                            freeze_authority: authority,
                        },
                    ),
                };
                proof {
                    lemma_account_push(self.accounts@, e);
                }
                self.accounts.push(e);
                Ok(())
            },
        }
    }

    /// Rejection reason of [`Ledger::create_mint_if_needed`], if any.
    pub open spec fn create_mint_if_needed_error(
        &self,
        address: u64,
        authority: u64,
    ) -> Option<Error> {
        match self.account_of(address) {
            None => None,
            Some(rec) => if mint_compatible(rec, authority) {
                None
            } else {
                Some(Error::IncompatibleAccount)
            },
        }
    }

    /// Creates the mint only if the address is still free; an existing,
    /// compatible mint is accepted unchanged, anything else at the address is
    /// rejected.
    pub fn create_mint_if_needed(&mut self, address: u64, authority: u64) -> (r:
        Result<(), Error>)
        requires
            old(self).wf(),
        ensures
            final(self).wf(),
            r is Ok <==> old(self).create_mint_if_needed_error(address, authority)
                is None,
            r matches Err(e) ==> {
                &&& Some(e) == old(self).create_mint_if_needed_error(
                    address,
                    authority,
                )
                &&& *final(self) == *old(self)
            },
            r is Ok ==> {
                &&& old(self).account_of(address) is Some ==> *final(self) == *old(
                    self,
                )
                &&& old(self).account_of(address) is None ==> {
                    &&& final(self).account_of(address) == Some(
                        AccountRecord::Mint(
                            (MintRecord {
                                decimals: 0,
                                supply: 0,
                                authority,
                                freeze_authority: authority,
                            }),
                        ),
                    )
                    &&& forall|b: u64|
                        b != address ==> final(self).account_of(b)
                            == old(self).account_of(b)
                    &&& final(self).holdings@ == old(self).holdings@
                    &&& final(self).accounts@.len() == old(self).accounts@.len()
                        + 1
                }
            },
    {
        match self.find_account(address) {
            Some(i) => {
                match &self.accounts[i].record {
                    AccountRecord::Mint(m) => {
                        if m.decimals == 0 && m.authority == authority
                            && m.freeze_authority == authority {
                            Ok(())
                        } else {
                            Err(Error::IncompatibleAccount)
                        }
                    },
                    _ => Err(Error::IncompatibleAccount),
                }
            },
            None => {
                let e = AccountEntry {
                    address,
                    record: AccountRecord::Mint(
                        MintRecord {
                            decimals: 0,
                            supply: 0,
                            authority,
                            freeze_authority: authority,
                        },
                    ),
                };
                proof {
                    lemma_account_push(self.accounts@, e);
                }
                self.accounts.push(e);
                Ok(())
            },
        }
    }

    /// Rejection reason of [`Ledger::create_holding_if_needed`], if any.
    pub open spec fn create_holding_if_needed_error(
        &self,
        owner: u64,
        mint: u64,
    ) -> Option<Error> {
        if self.mint_of(mint) is None {
            Some(Error::MissingAccount)
        } else {
            None
        }
    }

    /// Creates the holding account of `owner` for `mint` with a zero balance
    /// if the pair has none yet; an existing holding is accepted unchanged.
    /// The mint must exist.
    pub fn create_holding_if_needed(&mut self, owner: u64, mint: u64) -> (r:
        Result<(), Error>)
        requires
            old(self).wf(),
        ensures
            final(self).wf(),
            r is Ok <==> old(self).create_holding_if_needed_error(owner, mint)
                is None,
            r matches Err(e) ==> {
                &&& Some(e) == old(self).create_holding_if_needed_error(
                    owner,
                    mint,
                )
                &&& *final(self) == *old(self)
            },
            r is Ok ==> {
                &&& final(self).accounts@ == old(self).accounts@
                &&& old(self).holding_of(owner, mint) is Some ==> *final(self)
                    == *old(self)
                &&& old(self).holding_of(owner, mint) is None ==> {
                    &&& final(self).holding_of(owner, mint) == Some(0u64)
                    &&& forall|o: u64, m: u64|
                        !(o == owner && m == mint) ==> final(self).holding_of(
                            o,
                            m,
                        ) == old(self).holding_of(o, m)
                    &&& final(self).holdings@.len() == old(self).holdings@.len()
                        + 1
                }
            },
    {
        let mint_exists = match self.find_account(mint) {
            Some(i) => match &self.accounts[i].record {
                AccountRecord::Mint(_) => true,
                _ => false,
            },
            None => false,
        };
        if !mint_exists {
            return Err(Error::MissingAccount);
        }
        match self.find_holding(owner, mint) {
            Some(_) => Ok(()),
            None => {
                let e = HoldingEntry { owner, mint, amount: 0 };
                proof {
                    lemma_holding_push(self.holdings@, e);
                }
                self.holdings.push(e);
                Ok(())
            },
        }
    }

    /// Rejection reason of [`Ledger::mint_to`], if any.
    pub open spec fn mint_to_error(
        &self,
        mint: u64,
        owner: u64,
        amount: u64,
        signer: u64,
    ) -> Option<Error> {
        match self.account_of(mint) {
            None => Some(Error::MissingAccount),
            Some(AccountRecord::Mint(m)) => if signer != m.authority {
                Some(Error::Unauthorized)
            } else if self.holding_of(owner, mint) is None {
                Some(Error::MissingAccount)
            } else if m.supply + amount > u64::MAX {
                Some(Error::SupplyOverflow)
            } else if self.holding_of(owner, mint).unwrap() + amount
                > u64::MAX {
                Some(Error::SupplyOverflow)
            } else {
                None
            },
            Some(_) => Some(Error::IncompatibleAccount),
        }
    }

    /// Mints `amount` new units of `mint` into the existing holding of
    /// `owner`. Only the mint's authority may sign; the supply and the
    /// balance must both stay representable.
    pub fn mint_to(&mut self, mint: u64, owner: u64, amount: u64, signer: u64) -> (r:
        Result<(), Error>)
        requires
            old(self).wf(),
        ensures
            final(self).wf(),
            r is Ok <==> old(self).mint_to_error(mint, owner, amount, signer)
                is None,
            r matches Err(e) ==> {
                &&& Some(e) == old(self).mint_to_error(mint, owner, amount, signer)
                &&& *final(self) == *old(self)
            },
            r is Ok ==> {
                &&& old(self).mint_of(mint) matches Some(m0)
                    && final(self).account_of(mint) == Some(
                    AccountRecord::Mint(
                        (MintRecord {
                            decimals: m0.decimals,
                            supply: (m0.supply + amount) as u64,
                            authority: m0.authority,
                            freeze_authority: m0.freeze_authority,
                        }),
                    ),
                )
                &&& old(self).holding_of(owner, mint) matches Some(h0)
                    && final(self).holding_of(owner, mint) == Some(
                    (h0 + amount) as u64,
                )
                &&& forall|b: u64|
                    b != mint ==> final(self).account_of(b) == old(
                        self,
                    ).account_of(b)
                &&& forall|o: u64, m: u64|
                    !(o == owner && m == mint) ==> final(self).holding_of(o, m)
                        == old(self).holding_of(o, m)
                &&& final(self).accounts@.len() == old(self).accounts@.len()
                &&& final(self).holdings@.len() == old(self).holdings@.len()
            },
    {
        let i = match self.find_account(mint) {
            Some(i) => i,
            None => {
                return Err(Error::MissingAccount);
            },
        };
        let m = match &self.accounts[i].record {
            AccountRecord::Mint(m) => *m,
            _ => {
                return Err(Error::IncompatibleAccount);
            },
        };
        if signer != m.authority {
            return Err(Error::Unauthorized);
        }
        let j = match self.find_holding(owner, mint) {
            Some(j) => j,
            None => {
                return Err(Error::MissingAccount);
            },
        };
        if amount > u64::MAX - m.supply {
            return Err(Error::SupplyOverflow);
        }
        let h = self.holdings[j].amount;
        if amount > u64::MAX - h {
            return Err(Error::SupplyOverflow);
        }
        let me = AccountEntry {
            address: mint,
            record: AccountRecord::Mint(
                MintRecord {
                    decimals: m.decimals,
                    supply: m.supply + amount,
                    authority: m.authority,
                    freeze_authority: m.freeze_authority,
                },
            ),
        };
        proof {
            lemma_account_update(self.accounts@, i as int, me);
        }
        self.accounts.set(i, me);
        let he = HoldingEntry { owner, mint, amount: h + amount };
        proof {
            lemma_holding_update(self.holdings@, j as int, he);
        }
        self.holdings.set(j, he);
        Ok(())
    }
}

} // verus!
