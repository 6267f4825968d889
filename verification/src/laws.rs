//! What holds of the operations, whatever the ledger and the arguments.

use crate::address::{address_of, derive_spec, lemma_address_of, Address};
use crate::error::MovieReviewError;
use crate::instructions::{
    add_outcome, delete_outcome, initialize_outcome, resolution, update_outcome, validation,
    MAX_DESCRIPTION_LENGTH, MAX_RATING, MAX_TITLE_LENGTH, MIN_RATING,
};
use crate::ledger::{applied, LedgerView};
use crate::reward::{lemma_reward_amount, reward_outcome, REWARD_AMOUNT};
use crate::space::INIT_SPACE;
use crate::state::{decoding, lemma_decoding_of_encoding, lemma_encoding_of_decoding, ReviewView};
use vstd::prelude::*;
use vstd::utf8::encode_utf8;

verus! {

/// The address of a review is a function of its title and its author:
/// the same title and author give the same address, whenever and
/// wherever it is derived.
pub proof fn lemma_derive_is_a_function(
    title: Seq<u8>,
    reviewer: Address,
    same_title: Seq<u8>,
    same_reviewer: Address,
)
    requires
        title == same_title,
        reviewer == same_reviewer,
    ensures
        derive_spec(title, reviewer) == derive_spec(same_title, same_reviewer),
{
}

/// A review with a rating from 1 to 5, a title of at most 20 bytes and a
/// description of at most 50 bytes is added wherever its address can be
/// derived and is free and the reward can be issued. Its account then
/// holds exactly the fixed 49 bytes and the bytes of the two texts, and
/// reads back as the review.
pub proof fn lemma_add_succeeds(
    ledger: LedgerView,
    signer: Address,
    title: Seq<char>,
    description: Seq<char>,
    rating: u8,
)
    requires
        MIN_RATING <= rating <= MAX_RATING,
        encode_utf8(title).len() <= MAX_TITLE_LENGTH,
        encode_utf8(description).len() <= MAX_DESCRIPTION_LENGTH,
        derive_spec(encode_utf8(title), signer) is Some,
        !ledger.accounts.contains_key(derive_spec(encode_utf8(title), signer)->0),
        reward_outcome(ledger, signer) is Ok,
    ensures
        add_outcome(ledger, signer, title, description, rating) is Ok,
        ({
            let after = add_outcome(ledger, signer, title, description, rating)->Ok_0;
            let address = derive_spec(encode_utf8(title), signer)->0;
            let review = ReviewView { reviewer: signer@, rating, title, description };
            &&& after.accounts.contains_key(address)
            &&& after.accounts[address].len() == INIT_SPACE + encode_utf8(title).len()
                + encode_utf8(description).len()
            &&& after.accounts[address].len() == 49 + encode_utf8(title).len() + encode_utf8(
                description,
            ).len()
            &&& decoding(after.accounts[address]) == Some(review)
        }),
{
    let review = ReviewView { reviewer: signer@, rating, title, description };
    lemma_decoding_of_encoding(review, Seq::<u8>::empty());
    assert(review.encoding() + Seq::<u8>::empty() =~= review.encoding());
}

/// A review that was added is found again under its title by its
/// author, at the address derived from the two.
pub proof fn lemma_added_review_is_found(
    ledger: LedgerView,
    signer: Address,
    title: Seq<char>,
    description: Seq<char>,
    rating: u8,
)
    requires
        add_outcome(ledger, signer, title, description, rating) is Ok,
    ensures
        resolution(
            add_outcome(ledger, signer, title, description, rating)->Ok_0,
            encode_utf8(title),
            signer,
        ) == Ok::<(Address, ReviewView), MovieReviewError>(
            (
                derive_spec(encode_utf8(title), signer)->0,
                ReviewView { reviewer: signer@, rating, title, description },
            ),
        ),
        !ledger.accounts.contains_key(derive_spec(encode_utf8(title), signer)->0),
{
    let review = ReviewView { reviewer: signer@, rating, title, description };
    lemma_decoding_of_encoding(review, Seq::<u8>::empty());
    assert(review.encoding() + Seq::<u8>::empty() =~= review.encoding());
}

/// A review that was added can be updated and can be deleted by its author
/// under its title: the update goes through for every description whose
/// length four bytes can spell, and the deletion goes through.
pub proof fn lemma_added_review_is_in_reach(
    ledger: LedgerView,
    signer: Address,
    title: Seq<char>,
    description: Seq<char>,
    rating: u8,
    new_description: Seq<char>,
    new_rating: u8,
)
    requires
        add_outcome(ledger, signer, title, description, rating) is Ok,
        encode_utf8(new_description).len() <= u32::MAX,
    ensures
        update_outcome(
            add_outcome(ledger, signer, title, description, rating)->Ok_0,
            signer,
            title,
            new_description,
            new_rating,
        ) is Ok,
        delete_outcome(add_outcome(ledger, signer, title, description, rating)->Ok_0, signer, title)
            is Ok,
{
    lemma_added_review_is_found(ledger, signer, title, description, rating);
}

/// A review whose rating is not from 1 to 5 is refused with
/// `InvalidRating`: nothing is stored and nothing is issued.
pub proof fn lemma_invalid_rating_is_refused(
    ledger: LedgerView,
    signer: Address,
    title: Seq<char>,
    description: Seq<char>,
    rating: u8,
)
    requires
        rating < MIN_RATING || rating > MAX_RATING,
    ensures
        add_outcome(ledger, signer, title, description, rating) == Err::<
            LedgerView,
            MovieReviewError,
        >(MovieReviewError::InvalidRating),
        applied(add_outcome(ledger, signer, title, description, rating), ledger) == ledger,
{
}

/// With a rating from 1 to 5, a review whose title has more than 20 bytes
/// is refused with `TitleTooLong`, and one whose title fits and whose
/// description has more than 50 bytes with `DescriptionTooLong`.
pub proof fn lemma_long_text_is_refused(
    ledger: LedgerView,
    signer: Address,
    title: Seq<char>,
    description: Seq<char>,
    rating: u8,
)
    requires
        MIN_RATING <= rating <= MAX_RATING,
    ensures
        encode_utf8(title).len() > MAX_TITLE_LENGTH ==> add_outcome(
            ledger,
            signer,
            title,
            description,
            rating,
        ) == Err::<LedgerView, MovieReviewError>(MovieReviewError::TitleTooLong),
        encode_utf8(title).len() <= MAX_TITLE_LENGTH && encode_utf8(description).len()
            > MAX_DESCRIPTION_LENGTH ==> add_outcome(ledger, signer, title, description, rating)
            == Err::<LedgerView, MovieReviewError>(MovieReviewError::DescriptionTooLong),
{
}

/// Once a review is added, adding a review under the same title by the
/// same signer is refused, with `AddressInUse` where the new review is
/// acceptable in itself, and the ledger stays as the first review left it.
pub proof fn lemma_add_twice_is_refused(
    ledger: LedgerView,
    signer: Address,
    title: Seq<char>,
    description: Seq<char>,
    rating: u8,
    second_description: Seq<char>,
    second_rating: u8,
)
    requires
        add_outcome(ledger, signer, title, description, rating) is Ok,
    ensures
        ({
            let after = add_outcome(ledger, signer, title, description, rating)->Ok_0;
            let again = add_outcome(after, signer, title, second_description, second_rating);
            &&& again is Err
            &&& validation(
                second_rating,
                encode_utf8(title).len() as int,
                encode_utf8(second_description).len() as int,
            ) is Ok ==> again == Err::<LedgerView, MovieReviewError>(
                MovieReviewError::AddressInUse,
            )
            &&& applied(again, after) == after
        }),
{
}

/// An update leaves alone every account that holds a review of somebody
/// other than the signer, and is refused with `AuthorityMismatch` where
/// such an account is the one that the title and the signer name.
pub proof fn lemma_update_needs_the_author(
    ledger: LedgerView,
    signer: Address,
    title: Seq<char>,
    description: Seq<char>,
    rating: u8,
    address: Address,
)
    requires
        ledger.accounts.contains_key(address),
        decoding(ledger.accounts[address]) is Some,
        decoding(ledger.accounts[address])->0.reviewer != signer@,
    ensures
        ({
            let outcome = update_outcome(ledger, signer, title, description, rating);
            &&& applied(outcome, ledger).accounts.contains_key(address)
            &&& applied(outcome, ledger).accounts[address] == ledger.accounts[address]
            &&& derive_spec(encode_utf8(title), signer) == Some(address) ==> outcome == Err::<
                LedgerView,
                MovieReviewError,
            >(MovieReviewError::AuthorityMismatch)
        }),
{
}

/// A deletion leaves alone every account that holds a review of somebody
/// other than the signer, and is refused with `AuthorityMismatch` where
/// such an account is the one that the title and the signer name.
pub proof fn lemma_delete_needs_the_author(
    ledger: LedgerView,
    signer: Address,
    title: Seq<char>,
    address: Address,
)
    requires
        ledger.accounts.contains_key(address),
        decoding(ledger.accounts[address]) is Some,
        decoding(ledger.accounts[address])->0.reviewer != signer@,
    ensures
        ({
            let outcome = delete_outcome(ledger, signer, title);
            &&& applied(outcome, ledger).accounts.contains_key(address)
            &&& applied(outcome, ledger).accounts[address] == ledger.accounts[address]
            &&& derive_spec(encode_utf8(title), signer) == Some(address) ==> outcome == Err::<
                LedgerView,
                MovieReviewError,
            >(MovieReviewError::AuthorityMismatch)
        }),
{
}

/// After an update the account of the review holds exactly the fixed 49
/// bytes, the bytes of the title and the bytes of the new description,
/// however long the old description was: no byte of the old one is left
/// behind it. It reads back as the old review with the new description and
/// rating; every other account is as it was.
pub proof fn lemma_update_is_exact(
    ledger: LedgerView,
    signer: Address,
    title: Seq<char>,
    description: Seq<char>,
    rating: u8,
)
    requires
        update_outcome(ledger, signer, title, description, rating) is Ok,
    ensures
        resolution(ledger, encode_utf8(title), signer) is Ok,
        ({
            let after = update_outcome(ledger, signer, title, description, rating)->Ok_0;
            let (address, before) = resolution(ledger, encode_utf8(title), signer)->Ok_0;
            let review = ReviewView { rating, description, ..before };
            &&& address == derive_spec(encode_utf8(title), signer)->0
            &&& before.reviewer == signer@
            &&& before.title_bytes() == encode_utf8(title)
            &&& after.accounts.contains_key(address)
            &&& after.accounts[address] == review.encoding()
            &&& after.accounts[address].len() == INIT_SPACE + encode_utf8(title).len()
                + encode_utf8(description).len()
            &&& after.accounts[address].len() == 49 + encode_utf8(title).len() + encode_utf8(
                description,
            ).len()
            &&& decoding(after.accounts[address]) == Some(review)
            &&& forall|other: Address|
                other != address ==> after.accounts.contains_key(other)
                    == ledger.accounts.contains_key(other) && after.accounts[other]
                    == ledger.accounts[other]
        }),
{
    let (address, before) = resolution(ledger, encode_utf8(title), signer)->Ok_0;
    let review = ReviewView { rating, description, ..before };
    lemma_encoding_of_decoding(ledger.accounts[address]);
    lemma_decoding_of_encoding(review, Seq::<u8>::empty());
    assert(review.encoding() + Seq::<u8>::empty() =~= review.encoding());
}

/// Once a review is deleted its address is free again: a review under the
/// same title by the same signer that is acceptable in itself is added
/// wherever the reward can be issued, and its account holds the bytes of
/// the new review and nothing of the old one.
pub proof fn lemma_delete_then_add(
    ledger: LedgerView,
    signer: Address,
    title: Seq<char>,
    description: Seq<char>,
    rating: u8,
)
    requires
        delete_outcome(ledger, signer, title) is Ok,
        validation(
            rating,
            encode_utf8(title).len() as int,
            encode_utf8(description).len() as int,
        ) is Ok,
        reward_outcome(delete_outcome(ledger, signer, title)->Ok_0, signer) is Ok,
    ensures
        ({
            let vacated = delete_outcome(ledger, signer, title)->Ok_0;
            let address = derive_spec(encode_utf8(title), signer)->0;
            let review = ReviewView { reviewer: signer@, rating, title, description };
            let outcome = add_outcome(vacated, signer, title, description, rating);
            &&& !vacated.accounts.contains_key(address)
            &&& outcome is Ok
            &&& outcome->Ok_0.accounts.contains_key(address)
            &&& outcome->Ok_0.accounts[address] == review.encoding()
        }),
{
}

/// A review that is added raises the reward balance of the signer by
/// exactly the reward, which is 98, and no other balance.
pub proof fn lemma_add_rewards_the_signer(
    ledger: LedgerView,
    signer: Address,
    title: Seq<char>,
    description: Seq<char>,
    rating: u8,
)
    requires
        add_outcome(ledger, signer, title, description, rating) is Ok,
    ensures
        ({
            let after = add_outcome(ledger, signer, title, description, rating)->Ok_0;
            &&& after.balance_of(signer) == ledger.balance_of(signer) + REWARD_AMOUNT
            &&& after.balance_of(signer) == ledger.balance_of(signer) + 98
            &&& forall|other: Address|
                other != signer ==> after.balance_of(other) == ledger.balance_of(other)
            &&& after.mint == ledger.mint
        }),
{
    lemma_reward_amount();
}

/// Neither an update nor a deletion changes a reward balance or the reward
/// mint, whether it goes through or not.
pub proof fn lemma_update_and_delete_keep_balances(
    ledger: LedgerView,
    signer: Address,
    title: Seq<char>,
    description: Seq<char>,
    rating: u8,
)
    ensures
        applied(update_outcome(ledger, signer, title, description, rating), ledger).balances
            == ledger.balances,
        applied(update_outcome(ledger, signer, title, description, rating), ledger).mint
            == ledger.mint,
        applied(delete_outcome(ledger, signer, title), ledger).balances == ledger.balances,
        applied(delete_outcome(ledger, signer, title), ledger).mint == ledger.mint,
{
}

/// The reward mint is initialized once: on a ledger that has one, and so
/// after an initialization that went through, initializing is refused with
/// `AlreadyInitialized` and the mint stays the one that was there. The
/// mint that an initialization made is its own authority, so that rewards
/// are issued under it as far as balances have room.
pub proof fn lemma_initialize_once(ledger: LedgerView)
    ensures
        ledger.mint is Some ==> initialize_outcome(ledger) == Err::<LedgerView, MovieReviewError>(
            MovieReviewError::AlreadyInitialized,
        ),
        initialize_outcome(ledger) matches Ok(after) ==> after.mint is Some && initialize_outcome(
            after,
        ) == Err::<LedgerView, MovieReviewError>(MovieReviewError::AlreadyInitialized)
            && applied(initialize_outcome(after), after) == after && after.accounts
            == ledger.accounts && after.balances == ledger.balances,
        initialize_outcome(ledger) matches Ok(after) ==> after.mint->0.authority
            == after.mint->0.address && forall|owner: Address|
            ledger.balance_of(owner) + REWARD_AMOUNT <= u64::MAX ==> #[trigger] reward_outcome(
                after,
                owner,
            ) is Ok,
{
}

/// The account at `address` holds a review, in exactly the bytes of its
/// layout, which are the fixed 49 and those of its two texts, and `address`
/// is the one derived from its title and its author.
pub open spec fn review_in_place(ledger: LedgerView, address: Address) -> bool {
    &&& decoding(ledger.accounts[address]) matches Some(review)
    &&& ledger.accounts[address] == review.encoding()
    &&& ledger.accounts[address].len() == INIT_SPACE + review.title_bytes().len()
        + review.description_bytes().len()
    &&& derive_spec(review.title_bytes(), address_of(review.reviewer)) == Some(address)
}

/// Every account of the ledger holds a review in its place.
pub open spec fn every_review_in_place(ledger: LedgerView) -> bool {
    forall|address: Address|
        ledger.accounts.contains_key(address) ==> #[trigger] review_in_place(ledger, address)
}

/// An account that holds exactly the layout of a review whose author has
/// 32 bytes, at the address derived for it, holds the review in its place.
proof fn lemma_in_place(ledger: LedgerView, address: Address, review: ReviewView)
    requires
        review.storable(),
        ledger.accounts[address] == review.encoding(),
        derive_spec(review.title_bytes(), address_of(review.reviewer)) == Some(address),
    ensures
        review_in_place(ledger, address),
{
    lemma_decoding_of_encoding(review, Seq::<u8>::empty());
    assert(review.encoding() + Seq::<u8>::empty() =~= review.encoding());
}

/// Adding a review keeps every review in its place.
proof fn lemma_add_keeps_place(
    ledger: LedgerView,
    signer: Address,
    title: Seq<char>,
    description: Seq<char>,
    rating: u8,
)
    requires
        every_review_in_place(ledger),
    ensures
        every_review_in_place(
            applied(add_outcome(ledger, signer, title, description, rating), ledger),
        ),
{
    let outcome = add_outcome(ledger, signer, title, description, rating);
    if outcome is Ok {
        let after = outcome->Ok_0;
        let review = ReviewView { reviewer: signer@, rating, title, description };
        let place = derive_spec(encode_utf8(title), signer)->0;
        lemma_address_of(signer);
        assert forall|address: Address| after.accounts.contains_key(address) implies #[trigger]
            review_in_place(after, address) by {
            if address == place {
                lemma_in_place(after, address, review);
            } else {
                assert(ledger.accounts.contains_key(address));
                assert(review_in_place(ledger, address));
                assert(after.accounts[address] == ledger.accounts[address]);
            }
        }
    }
}

/// Updating a review keeps every review in its place.
proof fn lemma_update_keeps_place(
    ledger: LedgerView,
    signer: Address,
    title: Seq<char>,
    description: Seq<char>,
    rating: u8,
)
    requires
        every_review_in_place(ledger),
    ensures
        every_review_in_place(
            applied(update_outcome(ledger, signer, title, description, rating), ledger),
        ),
{
    let outcome = update_outcome(ledger, signer, title, description, rating);
    if outcome is Ok {
        let after = outcome->Ok_0;
        let (place, before) = resolution(ledger, encode_utf8(title), signer)->Ok_0;
        let review = ReviewView { rating, description, ..before };
        assert(ledger.accounts.contains_key(place));
        assert(review_in_place(ledger, place));
        lemma_encoding_of_decoding(ledger.accounts[place]);
        assert forall|address: Address| after.accounts.contains_key(address) implies #[trigger]
            review_in_place(after, address) by {
            if address == place {
                lemma_in_place(after, address, review);
            } else {
                assert(ledger.accounts.contains_key(address));
                assert(review_in_place(ledger, address));
                assert(after.accounts[address] == ledger.accounts[address]);
            }
        }
    }
}

/// Deleting a review keeps every other review in its place.
proof fn lemma_delete_keeps_place(ledger: LedgerView, signer: Address, title: Seq<char>)
    requires
        every_review_in_place(ledger),
    ensures
        every_review_in_place(applied(delete_outcome(ledger, signer, title), ledger)),
{
    let outcome = delete_outcome(ledger, signer, title);
    if outcome is Ok {
        let after = outcome->Ok_0;
        assert forall|address: Address| after.accounts.contains_key(address) implies #[trigger]
            review_in_place(after, address) by {
            assert(ledger.accounts.contains_key(address));
            assert(review_in_place(ledger, address));
            assert(after.accounts[address] == ledger.accounts[address]);
        }
    }
}

/// A ledger in which every review is in its place stays so under the four
/// operations, whether they go through or not. A ledger without accounts
/// is such a ledger.
pub proof fn lemma_reviews_stay_in_place(
    ledger: LedgerView,
    signer: Address,
    title: Seq<char>,
    description: Seq<char>,
    rating: u8,
)
    requires
        every_review_in_place(ledger),
    ensures
        every_review_in_place(
            applied(add_outcome(ledger, signer, title, description, rating), ledger),
        ),
        every_review_in_place(
            applied(update_outcome(ledger, signer, title, description, rating), ledger),
        ),
        every_review_in_place(applied(delete_outcome(ledger, signer, title), ledger)),
        every_review_in_place(applied(initialize_outcome(ledger), ledger)),
        every_review_in_place(
            LedgerView { accounts: Map::<Address, Seq<u8>>::empty(), ..ledger },
        ),
{
    lemma_add_keeps_place(ledger, signer, title, description, rating);
    lemma_update_keeps_place(ledger, signer, title, description, rating);
    lemma_delete_keeps_place(ledger, signer, title);
    let outcome = initialize_outcome(ledger);
    if outcome is Ok {
        let after = outcome->Ok_0;
        assert forall|address: Address| after.accounts.contains_key(address) implies #[trigger]
            review_in_place(after, address) by {
            assert(review_in_place(ledger, address));
        }
    }
}

} // verus!
