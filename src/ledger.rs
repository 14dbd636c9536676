//! A model of the ledger state a claim touches: which wrapped mints exist and
//! what each holding account holds. Creating a mint is an exclusive insert,
//! which is what makes each asset pair mintable at most once.
use vstd::prelude::*;
use crate::bytes::bytes_equal;
use crate::error::ClaimError;

verus! {

/// A recipient's holding account for one wrapped mint.
#[derive(Clone, Copy, Debug)]
pub struct HoldingAccount {
    pub mint: [u8; 32],
    pub owner: [u8; 32],
    pub balance: u64,
}

/// The balance that `accounts` record for `(mint, owner)`; the latest
/// matching account counts, and no matching account means a zero balance.
pub open spec fn balance_in(accounts: Seq<HoldingAccount>, mint: Seq<u8>, owner: Seq<u8>) -> nat
    decreases accounts.len(),
{
    if accounts.len() == 0 {
        0
    } else {
        let last = accounts.last();
        if last.mint@ == mint && last.owner@ == owner {
            last.balance as nat
        } else {
            balance_in(accounts.drop_last(), mint, owner)
        }
    }
}

proof fn lemma_no_account_no_balance(accounts: Seq<HoldingAccount>, mint: Seq<u8>, owner: Seq<u8>)
    requires
        forall|i: int| 0 <= i < accounts.len() ==> #[trigger] accounts[i].mint@ != mint,
    ensures
        balance_in(accounts, mint, owner) == 0,
    decreases accounts.len(),
{
    if accounts.len() > 0 {
        let rest = accounts.drop_last();
        assert forall|i: int| 0 <= i < rest.len() implies #[trigger] rest[i].mint@ != mint by {
            assert(rest[i] == accounts[i]);
        }
        lemma_no_account_no_balance(rest, mint, owner);
    }
}

/// The mints created so far and the holding accounts.
pub struct Ledger {
    mints: Vec<[u8; 32]>,
    accounts: Vec<HoldingAccount>,
}

impl Ledger {
    /// Whether a mint with address `mint` has been created.
    pub closed spec fn is_initialized(&self, mint: Seq<u8>) -> bool {
        exists|i: int| 0 <= i < self.mints@.len() && #[trigger] self.mints@[i]@ == mint
    }

    /// The balance of `owner`'s holding account for `mint`.
    pub closed spec fn balance_of(&self, mint: Seq<u8>, owner: Seq<u8>) -> nat {
        balance_in(self.accounts@, mint, owner)
    }

    /// Every holding account belongs to a created mint.
    pub closed spec fn wf(&self) -> bool {
        forall|i: int| 0 <= i < self.accounts@.len() ==> self.is_initialized(#[trigger] self.accounts@[i].mint@)
    }

    /// An empty ledger: no mint exists and every balance is zero.
    pub fn new() -> (r: Ledger)
        ensures
            r.wf(),
            forall|m: Seq<u8>| !r.is_initialized(m),
            forall|m: Seq<u8>, o: Seq<u8>| r.balance_of(m, o) == 0,
    {
        let r = Ledger { mints: Vec::new(), accounts: Vec::new() };
        assert forall|m: Seq<u8>, o: Seq<u8>| r.balance_of(m, o) == 0 by {
            lemma_no_account_no_balance(r.accounts@, m, o);
        }
        r
    }

    /// Whether a mint with address `mint` has been created.
    pub fn is_mint_initialized(&self, mint: &[u8; 32]) -> (r: bool)
        ensures
            r == self.is_initialized(mint@),
    {
        let mut i: usize = 0;
        while i < self.mints.len()
            invariant
                i <= self.mints@.len(),
                forall|j: int| 0 <= j < i ==> self.mints@[j]@ != mint@,
            decreases self.mints@.len() - i,
        {
            if bytes_equal(&self.mints[i], mint) {
                return true;
            }
            i = i + 1;
        }
        false
    }

    /// The balance of `owner`'s holding account for `mint`.
    pub fn balance(&self, mint: &[u8; 32], owner: &[u8; 32]) -> (r: u64)
        ensures
            r as nat == self.balance_of(mint@, owner@),
    {
        let mut i: usize = self.accounts.len();
        assert(self.accounts@.take(i as int) =~= self.accounts@);
        while i > 0
            invariant
                i <= self.accounts@.len(),
                balance_in(self.accounts@, mint@, owner@) == balance_in(self.accounts@.take(i as int), mint@, owner@),
            decreases i,
        {
            let account = &self.accounts[i - 1];
            assert(self.accounts@.take(i as int).drop_last() =~= self.accounts@.take(i - 1));
            if bytes_equal(&account.mint, mint) && bytes_equal(&account.owner, owner) {
                return account.balance;
            }
            i = i - 1;
        }
        assert(self.accounts@.take(0) =~= Seq::<HoldingAccount>::empty());
        0
    }

    /// Creates the mint `mint` and issues one unit of it to `owner`, whose
    /// holding account is created for it. Refused, with nothing changed, if
    /// the mint already exists.
    pub fn create_and_mint_one(&mut self, mint: &[u8; 32], owner: &[u8; 32]) -> (r: Result<(), ClaimError>)
        requires
            old(self).wf(),
        ensures
            final(self).wf(),
            r is Err <==> old(self).is_initialized(mint@),
            r is Err ==> r == Err::<(), ClaimError>(ClaimError::AccountAlreadyInitialized) && *final(self) == *old(self),
            r is Ok ==> {
                &&& old(self).balance_of(mint@, owner@) == 0
                &&& final(self).balance_of(mint@, owner@) == 1
                &&& forall|m: Seq<u8>, o: Seq<u8>|
                    !(m == mint@ && o == owner@) ==> #[trigger] final(self).balance_of(m, o) == old(self).balance_of(m, o)
                &&& forall|m: Seq<u8>| #[trigger] final(self).is_initialized(m) == (old(self).is_initialized(m) || m == mint@)
            },
    {
        if self.is_mint_initialized(mint) {
            return Err(ClaimError::AccountAlreadyInitialized);
        }
        let ghost before = *self;
        proof {
            assert forall|i: int| 0 <= i < before.accounts@.len() implies #[trigger] before.accounts@[i].mint@ != mint@ by {
                assert(before.is_initialized(before.accounts@[i].mint@));
            }
            lemma_no_account_no_balance(before.accounts@, mint@, owner@);
        }
        self.mints.push(*mint);
        self.accounts.push(HoldingAccount { mint: *mint, owner: *owner, balance: 1 });
        proof {
            assert(self.accounts@.drop_last() =~= before.accounts@);
            assert(self.mints@[before.mints@.len() as int]@ == mint@);
            assert forall|m: Seq<u8>| #[trigger] self.is_initialized(m) == (before.is_initialized(m) || m == mint@) by {
                if before.is_initialized(m) {
                    let i = choose|i: int| 0 <= i < before.mints@.len() && #[trigger] before.mints@[i]@ == m;
                    assert(self.mints@[i]@ == m);
                }
                if self.is_initialized(m) && m != mint@ {
                    let i = choose|i: int| 0 <= i < self.mints@.len() && #[trigger] self.mints@[i]@ == m;
                    assert(before.mints@[i]@ == m);
                }
            }
            assert forall|i: int| 0 <= i < self.accounts@.len() implies self.is_initialized(#[trigger] self.accounts@[i].mint@) by {
                if i < before.accounts@.len() {
                    assert(self.accounts@[i] == before.accounts@[i]);
                    assert(before.is_initialized(before.accounts@[i].mint@));
                }
            }
        }
        Ok(())
    }
}

} // verus!
