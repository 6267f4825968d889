use anchor_lang::prelude::Pubkey;
use anchor_movie_review_program::address::{mint_address, program_id, Address};
use std::str::FromStr;

fn address(fill: u8) -> Address {
    Address { bytes: [fill; 32] }
}

#[test]
fn program_id_is_the_declared_one() {
    let declared = Pubkey::from_str("DdfERqFmyJXMTv9j6sCJzrtHjmaNKW4WRaf9ig83fhL1").unwrap();
    assert_eq!(program_id().bytes, declared.to_bytes());
}

#[test]
fn derive_is_the_program_derived_address() {
    let owner = address(7);
    let program = Pubkey::new_from_array(program_id().bytes);
    let (expected, _) = Pubkey::find_program_address(&[b"Up", &owner.bytes], &program);
    let derived = anchor_movie_review_program::address::derive(b"Up", &owner).unwrap();
    assert_eq!(derived.bytes, expected.to_bytes());
    assert_ne!(derived.bytes, owner.bytes);
}

#[test]
fn derive_gives_the_same_address_twice() {
    let owner = address(9);
    let first = anchor_movie_review_program::address::derive(b"Heat", &owner);
    let second = anchor_movie_review_program::address::derive(b"Heat", &owner);
    assert!(first.is_some());
    assert_eq!(first, second);
}

#[test]
fn derive_tells_titles_and_owners_apart() {
    let a = anchor_movie_review_program::address::derive(b"Up", &address(1)).unwrap();
    let b = anchor_movie_review_program::address::derive(b"Up", &address(2)).unwrap();
    let c = anchor_movie_review_program::address::derive(b"Heat", &address(1)).unwrap();
    assert_ne!(a, b);
    assert_ne!(a, c);
    assert_ne!(b, c);
}

#[test]
fn derive_with_an_empty_title() {
    let owner = address(3);
    let program = Pubkey::new_from_array(program_id().bytes);
    let (expected, _) = Pubkey::find_program_address(&[b"", &owner.bytes], &program);
    let derived = anchor_movie_review_program::address::derive(b"", &owner).unwrap();
    assert_eq!(derived.bytes, expected.to_bytes());
}

#[test]
fn derive_refuses_a_title_of_33_bytes() {
    let title = [b'a'; 33];
    assert_eq!(anchor_movie_review_program::address::derive(&title, &address(1)), None);
    let title = [b'a'; 32];
    assert!(anchor_movie_review_program::address::derive(&title, &address(1)).is_some());
}

#[test]
fn mint_address_is_derived_from_its_seed() {
    let program = Pubkey::new_from_array(program_id().bytes);
    let (expected, bump) = Pubkey::find_program_address(&[b"mint"], &program);
    let (found, found_bump) = mint_address().unwrap();
    assert_eq!(found.bytes, expected.to_bytes());
    assert_eq!(found_bump, bump);
}

#[test]
fn addresses_compare_by_their_bytes() {
    let mut bytes = [5u8; 32];
    assert!(address(5) == Address { bytes });
    bytes[31] = 6;
    assert!(address(5) != Address { bytes });
    bytes[31] = 5;
    bytes[0] = 4;
    assert!(address(5) != Address { bytes });
}

#[test]
fn mint_signer_seeds_sign_for_the_mint() {
    let program = Pubkey::new_from_array(program_id().bytes);
    let (address, bump) = mint_address().unwrap();
    let seeds = anchor_movie_review_program::address::mint_signer_seeds(bump);
    assert_eq!(seeds, vec![b"mint".to_vec(), vec![bump]]);
    let signed = Pubkey::create_program_address(&[&seeds[0], &seeds[1]], &program).unwrap();
    assert_eq!(signed.to_bytes(), address.bytes);
}
