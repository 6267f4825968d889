//! The state that the operations act on: the storage in which accounts are
//! allocated by address, and the token ledger that holds the reward mint and
//! the reward balance of each owner.
//!
//! Deposits are no part of this state. What an account costs, who pays for
//! it and who is refunded when it is released is settled by the runtime
//! that stores the accounts.

use crate::address::Address;
use crate::error::MovieReviewError;
use crate::table::AddressMap;
use vstd::prelude::*;

verus! {

/// The reward mint: the signing authority under which rewards are issued.
#[derive(Clone, Copy, Debug)]
pub struct RewardMint {
    /// Where the mint is stored.
    pub address: Address,
    /// The identity that must sign for the mint to issue.
    pub authority: Address,
    /// The bump seed with which the program signs for the mint.
    pub bump: u8,
    /// The number of decimals of the reward token.
    pub decimals: u8,
}

/// Storage and token ledger.
pub struct Ledger {
    accounts: AddressMap<Vec<u8>>,
    mint: Option<RewardMint>,
    balances: AddressMap<u64>,
}

/// Storage and token ledger as mathematical values.
pub struct LedgerView {
    /// The bytes of each allocated account, by address.
    pub accounts: Map<Address, Seq<u8>>,
    /// The reward mint, once it is initialized.
    pub mint: Option<RewardMint>,
    /// The reward balance of each owner that has a token account.
    pub balances: Map<Address, u64>,
}

impl LedgerView {
    /// The reward balance of `owner`; an owner without a token account has
    /// none.
    pub open spec fn balance_of(self, owner: Address) -> int {
        if self.balances.contains_key(owner) {
            self.balances[owner] as int
        } else {
            0
        }
    }
}

/// `n` bytes of zero.
pub open spec fn zeros(n: int) -> Seq<u8> {
    Seq::new(n as nat, |i: int| 0u8)
}

/// `data` cut or grown to `n` bytes; what is grown is zero.
pub open spec fn resized(data: Seq<u8>, n: int) -> Seq<u8> {
    if n <= data.len() {
        data.subrange(0, n)
    } else {
        data + zeros(n - data.len())
    }
}

/// `data` with `bytes` written over it from `offset` on.
pub open spec fn overwritten(data: Seq<u8>, offset: int, bytes: Seq<u8>) -> Seq<u8> {
    data.subrange(0, offset) + bytes + data.subrange(offset + bytes.len(), data.len() as int)
}

impl View for Ledger {
    type V = LedgerView;

    closed spec fn view(&self) -> LedgerView {
        LedgerView {
            accounts: self.accounts@.map_values(|data: Vec<u8>| data@),
            mint: self.mint,
            balances: self.balances@,
        }
    }
}

impl Ledger {
    /// The invariant of the ledger. Every ledger that the operations of
    /// this library made has it.
    pub closed spec fn wf(&self) -> bool {
        self.accounts.wf() && self.balances.wf()
    }

    /// A ledger with no account, no mint and no balance.
    pub fn new() -> (ledger: Ledger)
        ensures
            ledger.wf(),
            ledger@.accounts == Map::<Address, Seq<u8>>::empty(),
            ledger@.mint is None,
            ledger@.balances == Map::<Address, u64>::empty(),
    {
        let ledger = Ledger {
            accounts: AddressMap::new(),
            mint: None,
            balances: AddressMap::new(),
        };
        assert(ledger@.accounts =~= Map::<Address, Seq<u8>>::empty());
        ledger
    }

    /// The bytes of the account at `address`.
    pub fn data(&self, address: &Address) -> (data: Option<&Vec<u8>>)
        requires
            self.wf(),
        ensures
            match data {
                Some(bytes) => self@.accounts.contains_key(*address) && bytes@
                    == self@.accounts[*address],
                None => !self@.accounts.contains_key(*address),
            },
    {
        self.accounts.get(address)
    }

    /// Allocates `size` bytes of zero at `address`. Refused with
    /// `AddressInUse` where an account is allocated there already.
    pub fn allocate(&mut self, address: Address, size: usize) -> (done: Result<
        (),
        MovieReviewError,
    >)
        requires
            old(self).wf(),
        ensures
            final(self).wf(),
            old(self)@.accounts.contains_key(address) ==> done == Err::<(), MovieReviewError>(
                MovieReviewError::AddressInUse,
            ) && final(self)@ == old(self)@,
            !old(self)@.accounts.contains_key(address) ==> done == Ok::<(), MovieReviewError>(())
                && final(self)@ == (LedgerView {
                accounts: old(self)@.accounts.insert(address, zeros(size as int)),
                ..old(self)@
            }),
    {
        if self.accounts.contains_key(&address) {
            return Err(MovieReviewError::AddressInUse);
        }
        let mut data: Vec<u8> = Vec::new();
        data.resize(size, 0);
        assert(data@ =~= zeros(size as int));
        self.accounts.insert(address, data);
        assert(self@.accounts =~= old(self)@.accounts.insert(address, zeros(size as int)));
        Ok(())
    }

    /// Cuts or grows the account at `address` to `new_size` bytes, keeping
    /// the bytes that stay and filling what is grown with zeros. Refused
    /// with `NotFound` where no account is allocated there.
    pub fn resize(&mut self, address: &Address, new_size: usize) -> (done: Result<
        (),
        MovieReviewError,
    >)
        requires
            old(self).wf(),
        ensures
            final(self).wf(),
            !old(self)@.accounts.contains_key(*address) ==> done == Err::<(), MovieReviewError>(
                MovieReviewError::NotFound,
            ) && final(self)@ == old(self)@,
            old(self)@.accounts.contains_key(*address) ==> done == Ok::<(), MovieReviewError>(())
                && final(self)@ == (LedgerView {
                accounts: old(self)@.accounts.insert(
                    *address,
                    resized(old(self)@.accounts[*address], new_size as int),
                ),
                ..old(self)@
            }),
    {
        match self.accounts.remove(address) {
            None => {
                assert(self@.accounts =~= old(self)@.accounts);
                Err(MovieReviewError::NotFound)
            },
            Some(data) => {
                let mut data = data;
                let ghost before = data@;
                data.resize(new_size, 0);
                assert(data@ =~= resized(before, new_size as int));
                self.accounts.insert(*address, data);
                assert(self@.accounts =~= old(self)@.accounts.insert(
                    *address,
                    resized(old(self)@.accounts[*address], new_size as int),
                ));
                Ok(())
            },
        }
    }

    /// Writes `bytes` into the account at `address` from `offset` on.
    /// Refused with `NotFound` where no account is allocated there or the
    /// account ends before the bytes do.
    pub fn write(&mut self, address: &Address, offset: usize, bytes: &[u8]) -> (done: Result<
        (),
        MovieReviewError,
    >)
        requires
            old(self).wf(),
        ensures
            final(self).wf(),
            done == write_result(old(self)@, *address, offset as int, bytes@.len() as int),
            done is Err ==> final(self)@ == old(self)@,
            done is Ok ==> final(self)@ == (LedgerView {
                accounts: old(self)@.accounts.insert(
                    *address,
                    overwritten(old(self)@.accounts[*address], offset as int, bytes@),
                ),
                ..old(self)@
            }),
    {
        let fits = match self.accounts.get(address) {
            None => false,
            Some(data) => offset <= data.len() && bytes.len() <= data.len() - offset,
        };
        if !fits {
            return Err(MovieReviewError::NotFound);
        }
        match self.accounts.remove(address) {
            None => Err(MovieReviewError::NotFound),
            Some(data) => {
                let mut data = data;
                let ghost before = data@;
                let size = data.len();
                let mut i: usize = 0;
                while i < bytes.len()
                    invariant
                        i <= bytes@.len(),
                        before.len() == size,
                        offset + bytes@.len() <= before.len(),
                        data@.len() == before.len(),
                        forall|k: int| 0 <= k < offset ==> data@[k] == before[k],
                        forall|k: int| 0 <= k < i ==> data@[offset + k] == bytes@[k],
                        forall|k: int| offset + i <= k < before.len() ==> data@[k] == before[k],
                    decreases bytes@.len() - i,
                {
                    data[offset + i] = bytes[i];
                    i += 1;
                }
                assert(data@ =~= overwritten(before, offset as int, bytes@));
                self.accounts.insert(*address, data);
                assert(self@.accounts =~= old(self)@.accounts.insert(
                    *address,
                    overwritten(old(self)@.accounts[*address], offset as int, bytes@),
                ));
                Ok(())
            },
        }
    }

    /// Releases the account at `address`. Refused with `NotFound` where no
    /// account is allocated there.
    pub fn release(&mut self, address: &Address) -> (done: Result<(), MovieReviewError>)
        requires
            old(self).wf(),
        ensures
            final(self).wf(),
            !old(self)@.accounts.contains_key(*address) ==> done == Err::<(), MovieReviewError>(
                MovieReviewError::NotFound,
            ) && final(self)@ == old(self)@,
            old(self)@.accounts.contains_key(*address) ==> done == Ok::<(), MovieReviewError>(())
                && final(self)@ == (LedgerView {
                accounts: old(self)@.accounts.remove(*address),
                ..old(self)@
            }),
    {
        match self.accounts.remove(address) {
            None => {
                assert(self@.accounts =~= old(self)@.accounts);
                Err(MovieReviewError::NotFound)
            },
            Some(_) => {
                assert(self@.accounts =~= old(self)@.accounts.remove(*address));
                Ok(())
            },
        }
    }

    /// The reward mint, once it is initialized.
    pub fn mint(&self) -> (mint: Option<RewardMint>)
        ensures
            mint == self@.mint,
    {
        self.mint
    }

    /// Creates the reward mint. Refused with `AlreadyInitialized` where the
    /// ledger has a reward mint.
    pub fn create_mint(&mut self, mint: RewardMint) -> (done: Result<
        (),
        MovieReviewError,
    >)
        requires
            old(self).wf(),
        ensures
            final(self).wf(),
            old(self)@.mint is Some ==> done == Err::<(), MovieReviewError>(
                MovieReviewError::AlreadyInitialized,
            ) && final(self)@ == old(self)@,
            old(self)@.mint is None ==> done == Ok::<(), MovieReviewError>(())
                && final(self)@ == (LedgerView {
                mint: Some(mint),
                ..old(self)@
            }),
    {
        if self.mint.is_some() {
            return Err(MovieReviewError::AlreadyInitialized);
        }
        self.mint = Some(mint);
        Ok(())
    }

    /// The reward balance of `owner`, where `owner` has a token account.
    pub fn balance(&self, owner: &Address) -> (balance: Option<u64>)
        requires
            self.wf(),
        ensures
            balance is Some <==> self@.balances.contains_key(*owner),
            balance matches Some(amount) ==> amount == self@.balances[*owner],
            balance matches Some(amount) ==> amount == self@.balance_of(*owner),
            balance is None ==> self@.balance_of(*owner) == 0,
    {
        match self.balances.get(owner) {
            Some(amount) => Some(*amount),
            None => None,
        }
    }

    /// Makes sure that `owner` has a token account for the reward. One
    /// that exists is left as it is. Refused with `MintAuthorityMismatch`
    /// where the ledger has no reward mint to open an account for.
    pub fn ensure_token_account(&mut self, owner: Address) -> (done: Result<(), MovieReviewError>)
        requires
            old(self).wf(),
        ensures
            final(self).wf(),
            old(self)@.mint is None ==> done == Err::<(), MovieReviewError>(
                MovieReviewError::MintAuthorityMismatch,
            ) && final(self)@ == old(self)@,
            old(self)@.mint is Some ==> done == Ok::<(), MovieReviewError>(()),
            old(self)@.mint is Some && old(self)@.balances.contains_key(owner) ==> final(self)@
                == old(self)@,
            old(self)@.mint is Some && !old(self)@.balances.contains_key(owner) ==> final(self)@
                == (LedgerView { balances: old(self)@.balances.insert(owner, 0), ..old(self)@ }),
    {
        if self.mint.is_none() {
            return Err(MovieReviewError::MintAuthorityMismatch);
        }
        if !self.balances.contains_key(&owner) {
            self.balances.insert(owner, 0);
        }
        Ok(())
    }

    /// Issues `amount` of the reward token to the token account of `owner`,
    /// signed for by `authority`. Refused with `MintAuthorityMismatch` where
    /// the ledger has no reward mint or `authority` is not the authority of
    /// the mint, else with `NotFound` where `owner` has no token account,
    /// else with `MintFailure` where the balance would not fit in 64 bits.
    pub fn mint_to(&mut self, owner: &Address, amount: u64, authority: &Address) -> (done: Result<
        (),
        MovieReviewError,
    >)
        requires
            old(self).wf(),
        ensures
            final(self).wf(),
            done == mint_to_result(old(self)@, *owner, amount, *authority),
            done is Err ==> final(self)@ == old(self)@,
            done is Ok ==> final(self)@ == (LedgerView {
                balances: old(self)@.balances.insert(
                    *owner,
                    (old(self)@.balances[*owner] + amount) as u64,
                ),
                ..old(self)@
            }),
    {
        match self.mint {
            None => {
                return Err(MovieReviewError::MintAuthorityMismatch);
            },
            Some(mint) => {
                if mint.authority != *authority {
                    return Err(MovieReviewError::MintAuthorityMismatch);
                }
            },
        }
        let balance = match self.balances.get(owner) {
            None => {
                return Err(MovieReviewError::NotFound);
            },
            Some(balance) => *balance,
        };
        match balance.checked_add(amount) {
            None => Err(MovieReviewError::MintFailure),
            Some(sum) => {
                self.balances.insert(*owner, sum);
                Ok(())
            },
        }
    }
}

/// Whether `len` bytes can be written into the account at `address` from
/// `offset` on: they can where the account is allocated and holds that
/// range.
pub open spec fn write_result(
    ledger: LedgerView,
    address: Address,
    offset: int,
    len: int,
) -> Result<(), MovieReviewError> {
    if ledger.accounts.contains_key(address) && offset + len <= ledger.accounts[address].len() {
        Ok(())
    } else {
        Err(MovieReviewError::NotFound)
    }
}

/// Whether `amount` can be issued to the token account of `owner` under the
/// signature of `authority`, and why not.
pub open spec fn mint_to_result(
    ledger: LedgerView,
    owner: Address,
    amount: u64,
    authority: Address,
) -> Result<(), MovieReviewError> {
    if !(ledger.mint matches Some(mint) && mint.authority == authority) {
        Err(MovieReviewError::MintAuthorityMismatch)
    } else if !ledger.balances.contains_key(owner) {
        Err(MovieReviewError::NotFound)
    } else if ledger.balances[owner] + amount > u64::MAX {
        Err(MovieReviewError::MintFailure)
    } else {
        Ok(())
    }
}

/// Whether an operation went through.
pub open spec fn status(outcome: Result<LedgerView, MovieReviewError>) -> Result<
    (),
    MovieReviewError,
> {
    match outcome {
        Ok(_) => Ok(()),
        Err(e) => Err(e),
    }
}

/// The ledger after an operation: a refused operation leaves it as it was.
pub open spec fn applied(
    outcome: Result<LedgerView, MovieReviewError>,
    before: LedgerView,
) -> LedgerView {
    match outcome {
        Ok(after) => after,
        Err(_) => before,
    }
}

} // verus!
