//! The reward: a fixed amount of the reward token, issued to the author
//! for every review that is added, under the authority of the reward mint.

use crate::address::Address;
use crate::error::MovieReviewError;
use crate::ledger::{applied, status, Ledger, LedgerView};
use vstd::prelude::*;

verus! {

/// The amount issued for one review. `*` binds tighter than `^`, which is
/// exclusive or: the amount is 100 xor 6.
pub const REWARD_AMOUNT: u64 = 10 * 10 ^ 6;

/// The number of decimals of the reward token.
pub const MINT_DECIMALS: u8 = 6;

/// The reward for one review is 98 units.
pub proof fn lemma_reward_amount()
    ensures
        REWARD_AMOUNT == 98,
{
    assert(100u64 ^ 6u64 == 98u64) by (bit_vector);
}

/// What issuing the reward to `owner` does to a ledger: the ledger after
/// it, or why it is refused. The program signs for the address of the
/// mint, so the reward is issued only where the mint is its own authority.
pub open spec fn reward_outcome(ledger: LedgerView, owner: Address) -> Result<
    LedgerView,
    MovieReviewError,
> {
    if !(ledger.mint matches Some(mint) && mint.authority == mint.address) {
        Err(MovieReviewError::MintAuthorityMismatch)
    } else if ledger.balance_of(owner) + REWARD_AMOUNT > u64::MAX {
        Err(MovieReviewError::MintFailure)
    } else {
        Ok(
            LedgerView {
                balances: ledger.balances.insert(
                    owner,
                    (ledger.balance_of(owner) + REWARD_AMOUNT) as u64,
                ),
                ..ledger
            },
        )
    }
}

/// Issues the reward for one review to the token account of `owner`, which
/// is created first where `owner` has none, signing for the address of the
/// mint. Refused with `MintAuthorityMismatch` where the reward mint is not
/// initialized or is not its own authority, and with `MintFailure` where
/// the balance would not fit in 64 bits; the ledger is then left as it was.
pub fn mint_reward(ledger: &mut Ledger, owner: &Address) -> (done: Result<(), MovieReviewError>)
    requires
        old(ledger).wf(),
    ensures
        final(ledger).wf(),
        done == status(reward_outcome(old(ledger)@, *owner)),
        final(ledger)@ == applied(reward_outcome(old(ledger)@, *owner), old(ledger)@),
{
    let mint = match ledger.mint() {
        None => {
            return Err(MovieReviewError::MintAuthorityMismatch);
        },
        Some(mint) => mint,
    };
    if mint.authority != mint.address {
        return Err(MovieReviewError::MintAuthorityMismatch);
    }
    let balance = match ledger.balance(owner) {
        Some(balance) => balance,
        None => 0,
    };
    if balance > u64::MAX - REWARD_AMOUNT {
        return Err(MovieReviewError::MintFailure);
    }
    match ledger.ensure_token_account(*owner) {
        Err(e) => {
            return Err(e);
        },
        Ok(_) => {},
    }
    let done = ledger.mint_to(owner, REWARD_AMOUNT, &mint.address);
    proof {
        assert(ledger@.balances =~= old(ledger)@.balances.insert(
            *owner,
            (old(ledger)@.balance_of(*owner) + REWARD_AMOUNT) as u64,
        ));
    }
    done
}

} // verus!
