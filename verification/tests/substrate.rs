use anchor_movie_review_program::address::Address;
use anchor_movie_review_program::error::MovieReviewError;
use anchor_movie_review_program::ledger::{Ledger, RewardMint};
use anchor_movie_review_program::table::AddressMap;

fn who(fill: u8) -> Address {
    Address { bytes: [fill; 32] }
}

#[test]
fn allocate_gives_zeroed_bytes_once() {
    let mut ledger = Ledger::new();
    assert_eq!(ledger.data(&who(1)), None);
    assert_eq!(ledger.allocate(who(1), 4), Ok(()));
    assert_eq!(ledger.data(&who(1)), Some(&vec![0, 0, 0, 0]));
    assert_eq!(ledger.allocate(who(1), 9), Err(MovieReviewError::AddressInUse));
    assert_eq!(ledger.data(&who(1)), Some(&vec![0, 0, 0, 0]));
    assert_eq!(ledger.allocate(who(2), 0), Ok(()));
    assert_eq!(ledger.data(&who(2)), Some(&vec![]));
}

#[test]
fn write_overwrites_a_range() {
    let mut ledger = Ledger::new();
    assert_eq!(ledger.allocate(who(1), 5), Ok(()));
    assert_eq!(ledger.write(&who(1), 1, &[7, 8]), Ok(()));
    assert_eq!(ledger.data(&who(1)), Some(&vec![0, 7, 8, 0, 0]));
    assert_eq!(ledger.write(&who(1), 3, &[1, 2]), Ok(()));
    assert_eq!(ledger.data(&who(1)), Some(&vec![0, 7, 8, 1, 2]));
    assert_eq!(ledger.write(&who(1), 5, &[]), Ok(()));
    assert_eq!(ledger.write(&who(1), 4, &[1, 2]), Err(MovieReviewError::NotFound));
    assert_eq!(ledger.write(&who(1), 6, &[]), Err(MovieReviewError::NotFound));
    assert_eq!(ledger.write(&who(1), usize::MAX, &[1, 2]), Err(MovieReviewError::NotFound));
    assert_eq!(ledger.write(&who(2), 0, &[1]), Err(MovieReviewError::NotFound));
    assert_eq!(ledger.data(&who(1)), Some(&vec![0, 7, 8, 1, 2]));
}

#[test]
fn resize_cuts_and_grows_with_zeros() {
    let mut ledger = Ledger::new();
    assert_eq!(ledger.allocate(who(1), 4), Ok(()));
    assert_eq!(ledger.write(&who(1), 0, &[1, 2, 3, 4]), Ok(()));
    assert_eq!(ledger.resize(&who(1), 2), Ok(()));
    assert_eq!(ledger.data(&who(1)), Some(&vec![1, 2]));
    assert_eq!(ledger.resize(&who(1), 5), Ok(()));
    assert_eq!(ledger.data(&who(1)), Some(&vec![1, 2, 0, 0, 0]));
    assert_eq!(ledger.resize(&who(1), 5), Ok(()));
    assert_eq!(ledger.data(&who(1)), Some(&vec![1, 2, 0, 0, 0]));
    assert_eq!(ledger.resize(&who(2), 5), Err(MovieReviewError::NotFound));
}

#[test]
fn release_frees_the_address() {
    let mut ledger = Ledger::new();
    assert_eq!(ledger.allocate(who(1), 4), Ok(()));
    assert_eq!(ledger.allocate(who(2), 2), Ok(()));
    assert_eq!(ledger.release(&who(1)), Ok(()));
    assert_eq!(ledger.data(&who(1)), None);
    assert_eq!(ledger.data(&who(2)), Some(&vec![0, 0]));
    assert_eq!(ledger.release(&who(1)), Err(MovieReviewError::NotFound));
    assert_eq!(ledger.allocate(who(1), 1), Ok(()));
    assert_eq!(ledger.data(&who(1)), Some(&vec![0]));
}

#[test]
fn create_mint_once() {
    let mut ledger = Ledger::new();
    let mint = RewardMint { address: who(9), authority: who(9), bump: 254, decimals: 6 };
    assert_eq!(ledger.create_mint(mint), Ok(()));
    let other = RewardMint { address: who(8), authority: who(8), bump: 1, decimals: 2 };
    assert_eq!(ledger.create_mint(other), Err(MovieReviewError::AlreadyInitialized));
    let held = ledger.mint().unwrap();
    assert_eq!(held.address, who(9));
    assert_eq!(held.authority, who(9));
    assert_eq!(held.bump, 254);
    assert_eq!(held.decimals, 6);
}

#[test]
fn mint_to_names_what_is_missing() {
    let mut ledger = Ledger::new();
    assert_eq!(ledger.mint_to(&who(1), 5, &who(9)), Err(MovieReviewError::MintAuthorityMismatch));
    assert_eq!(ledger.ensure_token_account(who(1)), Err(MovieReviewError::MintAuthorityMismatch));
    assert_eq!(ledger.balance(&who(1)), None);
    let mint = RewardMint { address: who(9), authority: who(9), bump: 254, decimals: 6 };
    assert_eq!(ledger.create_mint(mint), Ok(()));
    assert_eq!(ledger.mint_to(&who(1), 5, &who(9)), Err(MovieReviewError::NotFound));
    assert_eq!(ledger.ensure_token_account(who(1)), Ok(()));
    assert_eq!(ledger.balance(&who(1)), Some(0));
    assert_eq!(ledger.mint_to(&who(1), 5, &who(9)), Ok(()));
    assert_eq!(ledger.mint_to(&who(1), 7, &who(9)), Ok(()));
    assert_eq!(ledger.balance(&who(1)), Some(12));
    assert_eq!(ledger.mint_to(&who(1), 7, &who(1)), Err(MovieReviewError::MintAuthorityMismatch));
    assert_eq!(ledger.mint_to(&who(2), 7, &who(1)), Err(MovieReviewError::MintAuthorityMismatch));
    assert_eq!(ledger.mint_to(&who(1), u64::MAX - 11, &who(9)), Err(MovieReviewError::MintFailure));
    assert_eq!(ledger.balance(&who(1)), Some(12));
    assert_eq!(ledger.balance(&who(2)), None);
}

#[test]
fn address_map_holds_one_value_per_key() {
    let mut map: AddressMap<u32> = AddressMap::new();
    assert!(!map.contains_key(&who(1)));
    assert_eq!(map.get(&who(1)), None);
    map.insert(who(1), 10);
    map.insert(who(2), 20);
    map.insert(who(1), 11);
    assert_eq!(map.get(&who(1)), Some(&11));
    assert_eq!(map.get(&who(2)), Some(&20));
    assert!(map.contains_key(&who(2)));
    assert_eq!(map.remove(&who(1)), Some(11));
    assert_eq!(map.remove(&who(1)), None);
    assert_eq!(map.get(&who(1)), None);
    assert_eq!(map.get(&who(2)), Some(&20));
    map.insert(who(3), 30);
    assert_eq!(map.remove(&who(2)), Some(20));
    assert_eq!(map.get(&who(3)), Some(&30));
}
