//! The operations of the store: add, update and delete a review, and
//! initialize the reward mint.
//!
//! Every operation is one unit of work on a ledger: it goes through as a
//! whole or leaves the ledger as it was.

use crate::address::{
    derive_spec, lemma_address_by_bytes, mint_address, mint_address_spec, Address,
};
use crate::error::MovieReviewError;
use crate::ledger::{
    applied, overwritten, resized, status, zeros, Ledger, LedgerView, RewardMint,
};
use crate::reward::{mint_reward, reward_outcome, MINT_DECIMALS};
use crate::space::required_size;
use crate::state::{decoding, lemma_encoding_of_decoding, MovieAccountState, ReviewView};
use vstd::prelude::*;
use vstd::utf8::encode_utf8;

verus! {

/// The lowest rating of a review.
pub const MIN_RATING: u8 = 1;

/// The highest rating of a review.
pub const MAX_RATING: u8 = 5;

/// The most bytes that the title of a new review can have.
pub const MAX_TITLE_LENGTH: usize = 20;

/// The most bytes that the description of a new review can have.
pub const MAX_DESCRIPTION_LENGTH: usize = 50;

/// Who adds a review: the signer, who becomes its author and receives the
/// reward.
#[derive(Clone, Copy, Debug)]
pub struct AddMovieReview {
    pub initializer: Address,
}

/// Who updates a review: the signer, who must be its author.
#[derive(Clone, Copy, Debug)]
pub struct UpdateMovieReview {
    pub initializer: Address,
}

/// Who deletes a review: the signer, who must be its author.
#[derive(Clone, Copy, Debug)]
pub struct DeleteMovieReview {
    pub initializer: Address,
}

/// Who initializes the reward mint: the signer. Anyone may.
#[derive(Clone, Copy, Debug)]
pub struct InitializeMint {
    pub user: Address,
}

/// Whether a new review is acceptable, and the first reason why not: the
/// rating is looked at first, then the title, then the description.
pub open spec fn validation(rating: u8, title_len: int, description_len: int) -> Result<
    (),
    MovieReviewError,
> {
    if rating < MIN_RATING || rating > MAX_RATING {
        Err(MovieReviewError::InvalidRating)
    } else if title_len > MAX_TITLE_LENGTH {
        Err(MovieReviewError::TitleTooLong)
    } else if description_len > MAX_DESCRIPTION_LENGTH {
        Err(MovieReviewError::DescriptionTooLong)
    } else {
        Ok(())
    }
}

/// Checks the rating and the byte lengths of the texts of a new review.
pub fn validate_review(rating: u8, title_len: usize, description_len: usize) -> (checked: Result<
    (),
    MovieReviewError,
>)
    ensures
        checked == validation(rating, title_len as int, description_len as int),
{
    if rating < MIN_RATING || rating > MAX_RATING {
        Err(MovieReviewError::InvalidRating)
    } else if title_len > MAX_TITLE_LENGTH {
        Err(MovieReviewError::TitleTooLong)
    } else if description_len > MAX_DESCRIPTION_LENGTH {
        Err(MovieReviewError::DescriptionTooLong)
    } else {
        Ok(())
    }
}

/// The review of `signer` under `title` at `address`, as the ledger holds
/// it, or why there is none: there is no address (`AuthorityMismatch`),
/// nothing is stored at the address (`NotFound`), or what is stored there is
/// not a review of `signer` under `title` (`AuthorityMismatch`).
pub open spec fn resolution_at(
    ledger: LedgerView,
    address: Option<Address>,
    title: Seq<u8>,
    signer: Address,
) -> Result<(Address, ReviewView), MovieReviewError> {
    match address {
        None => Err(MovieReviewError::AuthorityMismatch),
        Some(address) => if !ledger.accounts.contains_key(address) {
            Err(MovieReviewError::NotFound)
        } else {
            match decoding(ledger.accounts[address]) {
                None => Err(MovieReviewError::AuthorityMismatch),
                Some(review) => if review.reviewer == signer@ && review.title_bytes() == title {
                    Ok((address, review))
                } else {
                    Err(MovieReviewError::AuthorityMismatch)
                },
            }
        },
    }
}

/// The review of `signer` under `title`, looked up at the address derived
/// from the two.
pub open spec fn resolution(ledger: LedgerView, title: Seq<u8>, signer: Address) -> Result<
    (Address, ReviewView),
    MovieReviewError,
> {
    resolution_at(ledger, derive_spec(title, signer), title, signer)
}

/// What `find_review` returned, as mathematical values.
pub open spec fn resolved_view(found: Result<(Address, MovieAccountState), MovieReviewError>)
    -> Result<(Address, ReviewView), MovieReviewError> {
    match found {
        Ok((address, review)) => Ok((address, review@)),
        Err(e) => Err(e),
    }
}

/// Whether two runs of bytes are the same.
fn same_bytes(a: &[u8], b: &[u8]) -> (same: bool)
    ensures
        same == (a@ == b@),
{
    if a.len() != b.len() {
        return false;
    }
    let mut i: usize = 0;
    while i < a.len()
        invariant
            i <= a@.len(),
            a@.len() == b@.len(),
            forall|k: int| 0 <= k < i ==> a@[k] == b@[k],
        decreases a@.len() - i,
    {
        if a[i] != b[i] {
            return false;
        }
        i += 1;
    }
    assert(a@ =~= b@);
    true
}

/// Looks up the review of `signer` under `title` at `address`, which is
/// what the derivation from the two gave.
pub fn find_review_at(
    ledger: &Ledger,
    address: Option<Address>,
    title: &[u8],
    signer: &Address,
) -> (found: Result<(Address, MovieAccountState), MovieReviewError>)
    requires
        ledger.wf(),
    ensures
        resolved_view(found) == resolution_at(ledger@, address, title@, *signer),
{
    let address = match address {
        None => {
            return Err(MovieReviewError::AuthorityMismatch);
        },
        Some(address) => address,
    };
    let data = match ledger.data(&address) {
        None => {
            return Err(MovieReviewError::NotFound);
        },
        Some(data) => data,
    };
    match MovieAccountState::from_bytes(data.as_slice()) {
        None => Err(MovieReviewError::AuthorityMismatch),
        Some(review) => {
            proof {
                lemma_address_by_bytes(review.reviewer, *signer);
            }
            if review.reviewer == *signer && same_bytes(review.title.as_str().as_bytes(), title) {
                Ok((address, review))
            } else {
                Err(MovieReviewError::AuthorityMismatch)
            }
        },
    }
}

/// Looks up the review of `signer` under `title`, with the address at which
/// it is stored.
pub fn find_review(ledger: &Ledger, title: &[u8], signer: &Address) -> (found: Result<
    (Address, MovieAccountState),
    MovieReviewError,
>)
    requires
        ledger.wf(),
    ensures
        resolved_view(found) == resolution(ledger@, title@, *signer),
{
    find_review_at(ledger, crate::address::derive(title, signer), title, signer)
}

/// What adding a review at `address` does to a ledger: the ledger after it,
/// or why it is refused. A review that is acceptable is stored at the
/// address in exactly the bytes of its layout, and the signer is issued the
/// reward. It is refused where there is no address (`AuthorityMismatch`),
/// where the address is taken (`AddressInUse`), and where the reward cannot
/// be issued.
pub open spec fn add_outcome_at(
    ledger: LedgerView,
    address: Option<Address>,
    signer: Address,
    title: Seq<char>,
    description: Seq<char>,
    rating: u8,
) -> Result<LedgerView, MovieReviewError> {
    let review = ReviewView { reviewer: signer@, rating, title, description };
    match validation(
        rating,
        review.title_bytes().len() as int,
        review.description_bytes().len() as int,
    ) {
        Err(e) => Err(e),
        Ok(_) => match address {
            None => Err(MovieReviewError::AuthorityMismatch),
            Some(address) => if ledger.accounts.contains_key(address) {
                Err(MovieReviewError::AddressInUse)
            } else {
                reward_outcome(
                    LedgerView {
                        accounts: ledger.accounts.insert(address, review.encoding()),
                        ..ledger
                    },
                    signer,
                )
            },
        },
    }
}

/// What adding a review does to a ledger: it is added at the address
/// derived from its title and the signer.
pub open spec fn add_outcome(
    ledger: LedgerView,
    signer: Address,
    title: Seq<char>,
    description: Seq<char>,
    rating: u8,
) -> Result<LedgerView, MovieReviewError> {
    add_outcome_at(
        ledger,
        derive_spec(encode_utf8(title), signer),
        signer,
        title,
        description,
        rating,
    )
}

/// What updating the review at `address` does to a ledger: the ledger after
/// it, or why it is refused. The review of the signer under `title` keeps
/// its author and its title and takes the new description and rating; its
/// account then holds exactly the bytes of the new layout. The new rating
/// is not checked against the bounds of a new review, nor the new
/// description against its bound; a description whose length four bytes
/// cannot spell is refused (`DescriptionTooLong`).
pub open spec fn update_outcome_at(
    ledger: LedgerView,
    address: Option<Address>,
    signer: Address,
    title: Seq<char>,
    description: Seq<char>,
    rating: u8,
) -> Result<LedgerView, MovieReviewError> {
    match resolution_at(ledger, address, encode_utf8(title), signer) {
        Err(e) => Err(e),
        Ok((address, review)) => if encode_utf8(description).len() > u32::MAX {
            Err(MovieReviewError::DescriptionTooLong)
        } else {
            Ok(
                LedgerView {
                    accounts: ledger.accounts.insert(
                        address,
                        (ReviewView { rating, description, ..review }).encoding(),
                    ),
                    ..ledger
                },
            )
        },
    }
}

/// What updating a review does to a ledger: the review at the address
/// derived from the title and the signer is updated.
pub open spec fn update_outcome(
    ledger: LedgerView,
    signer: Address,
    title: Seq<char>,
    description: Seq<char>,
    rating: u8,
) -> Result<LedgerView, MovieReviewError> {
    update_outcome_at(
        ledger,
        derive_spec(encode_utf8(title), signer),
        signer,
        title,
        description,
        rating,
    )
}

/// What deleting the review at `address` does to a ledger: the ledger after
/// it, or why it is refused. The account of the review of the signer under
/// `title` is released; nothing else changes.
pub open spec fn delete_outcome_at(
    ledger: LedgerView,
    address: Option<Address>,
    signer: Address,
    title: Seq<char>,
) -> Result<LedgerView, MovieReviewError> {
    match resolution_at(ledger, address, encode_utf8(title), signer) {
        Err(e) => Err(e),
        Ok((address, _)) => Ok(
            LedgerView { accounts: ledger.accounts.remove(address), ..ledger },
        ),
    }
}

/// What deleting a review does to a ledger: the review at the address
/// derived from the title and the signer is deleted.
pub open spec fn delete_outcome(ledger: LedgerView, signer: Address, title: Seq<char>) -> Result<
    LedgerView,
    MovieReviewError,
> {
    delete_outcome_at(ledger, derive_spec(encode_utf8(title), signer), signer, title)
}

/// What initializing the reward mint at the address that `found` holds does
/// to a ledger: the ledger after it, in which the mint is its own
/// authority, or why it is refused: the ledger has a reward mint
/// (`AlreadyInitialized`), or there is no address for one
/// (`AuthorityMismatch`).
pub open spec fn initialize_outcome_at(ledger: LedgerView, found: Option<(Address, u8)>) -> Result<
    LedgerView,
    MovieReviewError,
> {
    if ledger.mint is Some {
        Err(MovieReviewError::AlreadyInitialized)
    } else {
        match found {
            None => Err(MovieReviewError::AuthorityMismatch),
            Some((address, bump)) => Ok(
                LedgerView {
                    mint: Some(
                        RewardMint { address, authority: address, bump, decimals: MINT_DECIMALS },
                    ),
                    ..ledger
                },
            ),
        }
    }
}

/// What initializing the reward mint does to a ledger: it is created at the
/// address derived for it.
pub open spec fn initialize_outcome(ledger: LedgerView) -> Result<LedgerView, MovieReviewError> {
    initialize_outcome_at(ledger, mint_address_spec())
}

/// Adds the review of the signer under `title` at `address`, which is what
/// the derivation from the two gave, and issues the reward to the signer.
/// The texts and the rating are checked before anything is stored, and
/// where the reward cannot be issued the review is not stored either.
pub fn add_movie_review_at(
    ledger: &mut Ledger,
    address: Option<Address>,
    ctx: &AddMovieReview,
    title: String,
    description: String,
    rating: u8,
) -> (done: Result<(), MovieReviewError>)
    requires
        old(ledger).wf(),
    ensures
        final(ledger).wf(),
        done == status(
            add_outcome_at(old(ledger)@, address, ctx.initializer, title@, description@, rating),
        ),
        final(ledger)@ == applied(
            add_outcome_at(old(ledger)@, address, ctx.initializer, title@, description@, rating),
            old(ledger)@,
        ),
{
    let title_len = title.as_str().as_bytes().len();
    let description_len = description.as_str().as_bytes().len();
    match validate_review(rating, title_len, description_len) {
        Err(e) => {
            return Err(e);
        },
        Ok(_) => {},
    }
    let address = match address {
        None => {
            return Err(MovieReviewError::AuthorityMismatch);
        },
        Some(address) => address,
    };
    let size = required_size(title_len, description_len);
    let review = MovieAccountState { reviewer: ctx.initializer, rating, title, description };
    match ledger.allocate(address, size) {
        Err(e) => {
            return Err(e);
        },
        Ok(_) => {},
    }
    let data = review.to_bytes();
    let written = ledger.write(&address, 0, data.as_slice());
    proof {
        assert(overwritten(zeros(size as int), 0, data@) =~= data@);
        assert(ledger@.accounts =~= old(ledger)@.accounts.insert(address, review@.encoding()));
    }
    let rewarded = match written {
        Ok(_) => mint_reward(ledger, &ctx.initializer),
        Err(e) => Err(e),
    };
    match rewarded {
        Ok(_) => Ok(()),
        Err(e) => {
            let released = ledger.release(&address);
            proof {
                assert(released is Ok);
                assert(ledger@.accounts =~= old(ledger)@.accounts);
            }
            Err(e)
        },
    }
}

/// Adds the review of the signer under `title`, at the address derived from
/// the two, and issues the reward to the signer.
pub fn add_movie_review(
    ledger: &mut Ledger,
    ctx: &AddMovieReview,
    title: String,
    description: String,
    rating: u8,
) -> (done: Result<(), MovieReviewError>)
    requires
        old(ledger).wf(),
    ensures
        final(ledger).wf(),
        done == status(add_outcome(old(ledger)@, ctx.initializer, title@, description@, rating)),
        final(ledger)@ == applied(
            add_outcome(old(ledger)@, ctx.initializer, title@, description@, rating),
            old(ledger)@,
        ),
{
    let address = crate::address::derive(title.as_str().as_bytes(), &ctx.initializer);
    add_movie_review_at(ledger, address, ctx, title, description, rating)
}

/// Gives the review of the signer under `title` at `address`, which is what
/// the derivation from the two gave, a new description and a new rating.
/// Its storage is resized to the new layout, with what is grown filled with
/// zeros, and then written; its author and its title stay.
pub fn update_movie_review_at(
    ledger: &mut Ledger,
    address: Option<Address>,
    ctx: &UpdateMovieReview,
    title: String,
    description: String,
    rating: u8,
) -> (done: Result<(), MovieReviewError>)
    requires
        old(ledger).wf(),
    ensures
        final(ledger).wf(),
        done == status(
            update_outcome_at(
                old(ledger)@,
                address,
                ctx.initializer,
                title@,
                description@,
                rating,
            ),
        ),
        final(ledger)@ == applied(
            update_outcome_at(
                old(ledger)@,
                address,
                ctx.initializer,
                title@,
                description@,
                rating,
            ),
            old(ledger)@,
        ),
{
    let (address, stored) = match find_review_at(
        ledger,
        address,
        title.as_str().as_bytes(),
        &ctx.initializer,
    ) {
        Err(e) => {
            return Err(e);
        },
        Ok(found) => found,
    };
    if description.as_str().as_bytes().len() as u64 > u32::MAX as u64 {
        return Err(MovieReviewError::DescriptionTooLong);
    }
    proof {
        lemma_encoding_of_decoding(ledger@.accounts[address]);
    }
    let review = MovieAccountState {
        reviewer: stored.reviewer,
        rating,
        title: stored.title,
        description,
    };
    let data = review.to_bytes();
    match ledger.resize(&address, data.len()) {
        Err(e) => {
            return Err(e);
        },
        Ok(_) => {},
    }
    let written = ledger.write(&address, 0, data.as_slice());
    proof {
        let before = old(ledger)@.accounts[address];
        assert(overwritten(resized(before, data@.len() as int), 0, data@) =~= data@);
        assert(ledger@.accounts =~= old(ledger)@.accounts.insert(address, review@.encoding()));
    }
    match written {
        Ok(_) => Ok(()),
        Err(e) => Err(e),
    }
}

/// Gives the review of the signer under `title` a new description and a new
/// rating.
pub fn update_movie_review(
    ledger: &mut Ledger,
    ctx: &UpdateMovieReview,
    title: String,
    description: String,
    rating: u8,
) -> (done: Result<(), MovieReviewError>)
    requires
        old(ledger).wf(),
    ensures
        final(ledger).wf(),
        done == status(
            update_outcome(old(ledger)@, ctx.initializer, title@, description@, rating),
        ),
        final(ledger)@ == applied(
            update_outcome(old(ledger)@, ctx.initializer, title@, description@, rating),
            old(ledger)@,
        ),
{
    let address = crate::address::derive(title.as_str().as_bytes(), &ctx.initializer);
    update_movie_review_at(ledger, address, ctx, title, description, rating)
}

/// Deletes the review of the signer under `title` at `address`, which is
/// what the derivation from the two gave, and releases its storage.
pub fn delete_movie_review_at(
    ledger: &mut Ledger,
    address: Option<Address>,
    ctx: &DeleteMovieReview,
    title: String,
) -> (done: Result<(), MovieReviewError>)
    requires
        old(ledger).wf(),
    ensures
        final(ledger).wf(),
        done == status(delete_outcome_at(old(ledger)@, address, ctx.initializer, title@)),
        final(ledger)@ == applied(
            delete_outcome_at(old(ledger)@, address, ctx.initializer, title@),
            old(ledger)@,
        ),
{
    match find_review_at(ledger, address, title.as_str().as_bytes(), &ctx.initializer) {
        Err(e) => Err(e),
        Ok((address, _)) => ledger.release(&address),
    }
}

/// Deletes the review of the signer under `title` and releases its storage.
pub fn delete_movie_review(ledger: &mut Ledger, ctx: &DeleteMovieReview, title: String) -> (done:
    Result<(), MovieReviewError>)
    requires
        old(ledger).wf(),
    ensures
        final(ledger).wf(),
        done == status(delete_outcome(old(ledger)@, ctx.initializer, title@)),
        final(ledger)@ == applied(
            delete_outcome(old(ledger)@, ctx.initializer, title@),
            old(ledger)@,
        ),
{
    let address = crate::address::derive(title.as_str().as_bytes(), &ctx.initializer);
    delete_movie_review_at(ledger, address, ctx, title)
}

/// Creates the reward mint, once, at the address that `found` holds, which
/// is what the derivation for the mint gave.
pub fn initialize_token_mint_at(
    ledger: &mut Ledger,
    found: Option<(Address, u8)>,
    ctx: &InitializeMint,
) -> (done: Result<(), MovieReviewError>)
    requires
        old(ledger).wf(),
    ensures
        final(ledger).wf(),
        done == status(initialize_outcome_at(old(ledger)@, found)),
        final(ledger)@ == applied(initialize_outcome_at(old(ledger)@, found), old(ledger)@),
{
    if ledger.mint().is_some() {
        return Err(MovieReviewError::AlreadyInitialized);
    }
    match found {
        None => Err(MovieReviewError::AuthorityMismatch),
        Some((address, bump)) => ledger.create_mint(
            RewardMint { address, authority: address, bump, decimals: MINT_DECIMALS },
        ),
    }
}

/// Creates the reward mint at its derived address, once.
pub fn initialize_token_mint(ledger: &mut Ledger, ctx: &InitializeMint) -> (done: Result<
    (),
    MovieReviewError,
>)
    requires
        old(ledger).wf(),
    ensures
        final(ledger).wf(),
        done == status(initialize_outcome(old(ledger)@)),
        final(ledger)@ == applied(initialize_outcome(old(ledger)@), old(ledger)@),
{
    initialize_token_mint_at(ledger, mint_address(), ctx)
}

} // verus!
