use anchor_lang::solana_program::hash::hash;
use anchor_lang::AnchorSerialize;
use anchor_movie_review_program::address::Address;
use anchor_movie_review_program::space::{
    required_size, ANCHOR_DISCRIMINATOR, INIT_SPACE, PUBKEY_SIZE, STRING_LENGTH_PREFIX, U8_SIZE,
};
use anchor_movie_review_program::state::MovieAccountState;

fn review(title: &str, description: &str, rating: u8) -> MovieAccountState {
    MovieAccountState {
        reviewer: Address { bytes: [7; 32] },
        rating,
        title: title.to_string(),
        description: description.to_string(),
    }
}

#[test]
fn fixed_overhead_is_49_bytes() {
    assert_eq!(ANCHOR_DISCRIMINATOR, 8);
    assert_eq!(PUBKEY_SIZE, 32);
    assert_eq!(U8_SIZE, 1);
    assert_eq!(STRING_LENGTH_PREFIX, 4);
    assert_eq!(INIT_SPACE, 49);
}

#[test]
fn required_size_adds_the_text_lengths() {
    assert_eq!(required_size(0, 0), 49);
    assert_eq!(required_size(2, 5), 56);
    assert_eq!(required_size(20, 50), 119);
    assert_eq!(required_size(20, 5), 74);
}

#[test]
fn layout_is_byte_exact() {
    let bytes = review("Up", "Great", 5).to_bytes();
    let mut expected: Vec<u8> = vec![103, 146, 32, 212, 187, 166, 40, 13];
    expected.extend_from_slice(&[7; 32]);
    expected.push(5);
    expected.extend_from_slice(&[2, 0, 0, 0]);
    expected.extend_from_slice(b"Up");
    expected.extend_from_slice(&[5, 0, 0, 0]);
    expected.extend_from_slice(b"Great");
    assert_eq!(bytes, expected);
    assert_eq!(bytes.len(), 56);
}

#[test]
fn layout_begins_with_the_account_tag() {
    let bytes = review("Up", "Great", 5).to_bytes();
    let digest = hash(b"account:MovieAccountState").to_bytes();
    assert_eq!(&bytes[..8], &digest[..8]);
}

#[test]
fn layout_agrees_with_borsh() {
    let r = review("Amélie", "très bien \u{1F3AC}", 4);
    let mut expected: Vec<u8> = r.to_bytes()[..8].to_vec();
    expected.extend_from_slice(&r.reviewer.bytes.try_to_vec().unwrap());
    expected.extend_from_slice(&r.rating.try_to_vec().unwrap());
    expected.extend_from_slice(&r.title.try_to_vec().unwrap());
    expected.extend_from_slice(&r.description.try_to_vec().unwrap());
    assert_eq!(r.to_bytes(), expected);
}

#[test]
fn length_prefix_is_little_endian() {
    let long = "x".repeat(300);
    let bytes = review("", &long, 1).to_bytes();
    assert_eq!(&bytes[41..45], &[0, 0, 0, 0]);
    assert_eq!(&bytes[45..49], &[44, 1, 0, 0]);
    assert_eq!(bytes.len(), 349);
}

#[test]
fn size_counts_bytes_not_characters() {
    let r = review("Amélie", "\u{1F3AC}", 4);
    assert_eq!(r.size(), 49 + 7 + 4);
    assert_eq!(r.to_bytes().len(), r.size());
}

#[test]
fn bytes_read_back_as_the_review() {
    let r = review("Amélie", "très bien", 4);
    let back = MovieAccountState::from_bytes(&r.to_bytes()).unwrap();
    assert_eq!(back.reviewer, r.reviewer);
    assert_eq!(back.rating, 4);
    assert_eq!(back.title, "Amélie");
    assert_eq!(back.description, "très bien");
}

#[test]
fn bytes_after_the_review_are_not_read() {
    let r = review("Up", "Great", 5);
    let mut bytes = r.to_bytes();
    bytes.extend_from_slice(&[9, 9, 9]);
    let back = MovieAccountState::from_bytes(&bytes).unwrap();
    assert_eq!(back.title, "Up");
    assert_eq!(back.description, "Great");
    assert_eq!(back.to_bytes(), r.to_bytes());
}

#[test]
fn from_bytes_refuses_what_is_no_review() {
    let good = review("Up", "Great", 5).to_bytes();
    assert!(MovieAccountState::from_bytes(&good).is_some());
    assert!(MovieAccountState::from_bytes(&[]).is_none());
    assert!(MovieAccountState::from_bytes(&good[..44]).is_none());
    assert!(MovieAccountState::from_bytes(&good[..55]).is_none());
    assert!(MovieAccountState::from_bytes(&good[..48]).is_none());
    let mut bad_tag = good.clone();
    bad_tag[0] ^= 1;
    assert!(MovieAccountState::from_bytes(&bad_tag).is_none());
    let mut bad_tag = good.clone();
    bad_tag[7] ^= 1;
    assert!(MovieAccountState::from_bytes(&bad_tag).is_none());
    let mut long_title = good.clone();
    long_title[44] = 1;
    assert!(MovieAccountState::from_bytes(&long_title).is_none());
    assert!(MovieAccountState::from_bytes(&[0; 56]).is_none());
}

#[test]
fn from_bytes_refuses_text_that_is_not_utf8() {
    let good = review("Up", "Great", 5).to_bytes();
    let mut bad_title = good.clone();
    bad_title[45] = 0xff;
    assert!(MovieAccountState::from_bytes(&bad_title).is_none());
    let mut bad_description = good.clone();
    bad_description[55] = 0xc3;
    assert!(MovieAccountState::from_bytes(&bad_description).is_none());
}

#[test]
fn empty_texts_take_the_fixed_size() {
    let r = review("", "", 1);
    let bytes = r.to_bytes();
    assert_eq!(bytes.len(), 49);
    let back = MovieAccountState::from_bytes(&bytes).unwrap();
    assert_eq!(back.title, "");
    assert_eq!(back.description, "");
}
