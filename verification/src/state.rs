//! The stored form of a review: the record and its exact byte layout.
//!
//! A review is laid out as an 8-byte tag, the 32 bytes of the author, one
//! byte of rating, and the title and the description, each as a 4-byte
//! little-endian length followed by that many bytes of UTF-8.

use crate::address::Address;
use crate::space::required_size_spec;
use vstd::prelude::*;
use vstd::utf8::*;

verus! {

/// A stored movie review.
#[derive(Clone, Debug)]
pub struct MovieAccountState {
    /// Who wrote the review. Set when the review is added, never changed.
    pub reviewer: Address,
    /// The rating.
    pub rating: u8,
    /// The title. Set when the review is added, never changed.
    pub title: String,
    /// The description.
    pub description: String,
}

/// A review as a mathematical value.
pub struct ReviewView {
    pub reviewer: Seq<u8>,
    pub rating: u8,
    pub title: Seq<char>,
    pub description: Seq<char>,
}

impl View for MovieAccountState {
    type V = ReviewView;

    open spec fn view(&self) -> ReviewView {
        ReviewView {
            reviewer: self.reviewer@,
            rating: self.rating,
            title: self.title@,
            description: self.description@,
        }
    }
}

/// The tag in front of every stored review.
pub open spec fn discriminator() -> Seq<u8> {
    seq![103u8, 146u8, 32u8, 212u8, 187u8, 166u8, 40u8, 13u8]
}

/// The four bytes of a length, least significant first.
pub open spec fn le32(n: int) -> Seq<u8> {
    seq![
        (n % 256) as u8,
        ((n / 256) % 256) as u8,
        ((n / 65536) % 256) as u8,
        ((n / 16777216) % 256) as u8,
    ]
}

/// The length that four bytes spell, least significant first.
pub open spec fn from_le32(bytes: Seq<u8>) -> int {
    bytes[0] as int + 256 * (bytes[1] as int) + 65536 * (bytes[2] as int) + 16777216 * (
    bytes[3] as int)
}

/// A text field: its length in bytes, then the bytes.
pub open spec fn text_field(text: Seq<u8>) -> Seq<u8> {
    le32(text.len() as int) + text
}

impl ReviewView {
    /// The bytes of the title.
    pub open spec fn title_bytes(self) -> Seq<u8> {
        encode_utf8(self.title)
    }

    /// The bytes of the description.
    pub open spec fn description_bytes(self) -> Seq<u8> {
        encode_utf8(self.description)
    }

    /// Whether the review can be laid out: the author has 32 bytes and
    /// each text has a length that four bytes can spell.
    pub open spec fn storable(self) -> bool {
        &&& self.reviewer.len() == 32
        &&& self.title_bytes().len() <= u32::MAX
        &&& self.description_bytes().len() <= u32::MAX
    }

    /// The bytes that the stored review occupies.
    pub open spec fn size(self) -> int {
        required_size_spec(
            self.title_bytes().len() as int,
            self.description_bytes().len() as int,
        )
    }

    /// The byte layout of the review.
    pub open spec fn encoding(self) -> Seq<u8> {
        discriminator() + self.reviewer + seq![self.rating] + text_field(self.title_bytes())
            + text_field(self.description_bytes())
    }
}

/// The review that a run of bytes begins with, if it begins with one. Bytes
/// after the review are not looked at.
pub open spec fn decoding(data: Seq<u8>) -> Option<ReviewView> {
    if data.len() < 45 || data.subrange(0, 8) != discriminator() {
        None
    } else {
        let title_len = from_le32(data.subrange(41, 45));
        if data.len() < 49 + title_len {
            None
        } else {
            let title = data.subrange(45, 45 + title_len);
            let description_len = from_le32(data.subrange(45 + title_len, 49 + title_len));
            if data.len() < 49 + title_len + description_len {
                None
            } else {
                let description = data.subrange(
                    49 + title_len,
                    49 + title_len + description_len,
                );
                if valid_utf8(title) && valid_utf8(description) {
                    Some(
                        ReviewView {
                            reviewer: data.subrange(8, 40),
                            rating: data[40],
                            title: decode_utf8(title),
                            description: decode_utf8(description),
                        },
                    )
                } else {
                    None
                }
            }
        }
    }
}

/// Four bytes spell the length they were made from.
pub proof fn lemma_le32_round_trip(n: int)
    requires
        0 <= n <= u32::MAX,
    ensures
        le32(n).len() == 4,
        from_le32(le32(n)) == n,
{
}

/// A length read from four bytes fits in 32 bits, and its bytes are those
/// four.
pub proof fn lemma_from_le32(bytes: Seq<u8>)
    requires
        bytes.len() == 4,
    ensures
        0 <= from_le32(bytes) <= u32::MAX,
        le32(from_le32(bytes)) == bytes,
{
    let b0 = bytes[0] as int;
    let b1 = bytes[1] as int;
    let b2 = bytes[2] as int;
    let b3 = bytes[3] as int;
    let q2 = b2 + 256 * b3;
    let q1 = b1 + 256 * q2;
    let n = b0 + 256 * q1;
    assert(n == from_le32(bytes));
    assert(n / 256 == q1 && n % 256 == b0);
    assert(q1 / 256 == q2 && q1 % 256 == b1);
    assert(q2 / 256 == b3 && q2 % 256 == b2);
    assert(n / 65536 == q2) by {
        assert(n / 65536 == (n / 256) / 256);
    }
    assert(n / 16777216 == b3) by {
        assert(n / 16777216 == (n / 65536) / 256);
    }
    assert(b3 % 256 == b3);
    assert(le32(n) =~= bytes);
}

/// The layout of a review has exactly the size that is allocated for it.
pub proof fn lemma_encoding_len(r: ReviewView)
    requires
        r.storable(),
    ensures
        r.encoding().len() == r.size(),
{
}

/// The layout of a review, whatever follows it, is read back as that review.
pub proof fn lemma_decoding_of_encoding(r: ReviewView, rest: Seq<u8>)
    requires
        r.storable(),
    ensures
        decoding(r.encoding() + rest) == Some(r),
{
    let title = r.title_bytes();
    let description = r.description_bytes();
    let data = r.encoding() + rest;
    let t = title.len() as int;
    let d = description.len() as int;
    lemma_le32_round_trip(t);
    lemma_le32_round_trip(d);
    assert(data.subrange(0, 8) =~= discriminator());
    assert(data.subrange(8, 40) =~= r.reviewer);
    assert(data[40] == r.rating);
    assert(data.subrange(41, 45) =~= le32(t));
    assert(data.subrange(45, 45 + t) =~= title);
    assert(data.subrange(45 + t, 49 + t) =~= le32(d));
    assert(data.subrange(49 + t, 49 + t + d) =~= description);
    encode_utf8_valid_utf8(r.title);
    encode_utf8_valid_utf8(r.description);
    encode_utf8_decode_utf8(r.title);
    encode_utf8_decode_utf8(r.description);
}

/// Bytes that are read as a review begin with the layout of that review.
pub proof fn lemma_encoding_of_decoding(data: Seq<u8>)
    requires
        decoding(data) is Some,
    ensures
        decoding(data)->0.storable(),
        decoding(data)->0.size() <= data.len(),
        data.subrange(0, decoding(data)->0.size()) == decoding(data)->0.encoding(),
{
    let r = decoding(data)->0;
    let t = from_le32(data.subrange(41, 45));
    let title = data.subrange(45, 45 + t);
    let d = from_le32(data.subrange(45 + t, 49 + t));
    let description = data.subrange(49 + t, 49 + t + d);
    lemma_from_le32(data.subrange(41, 45));
    lemma_from_le32(data.subrange(45 + t, 49 + t));
    decode_utf8_encode_utf8(title);
    decode_utf8_encode_utf8(description);
    assert(r.title_bytes() == title);
    assert(r.description_bytes() == description);
    assert(data.subrange(0, r.size()) =~= r.encoding());
}

/// What `from_bytes` returned, as a mathematical value.
pub open spec fn review_view(review: Option<MovieAccountState>) -> Option<ReviewView> {
    match review {
        Some(r) => Some(r@),
        None => None,
    }
}

/// Calls `String::from_utf8` of std, which succeeds exactly on valid UTF-8
/// and then gives the string whose bytes are the ones handed in.
#[verifier::external_body]
fn string_from_utf8(bytes: Vec<u8>) -> (text: Option<String>)
    ensures
        text is Some <==> valid_utf8(bytes@),
        text matches Some(s) ==> encode_utf8(s@) == bytes@,
{
    match String::from_utf8(bytes) {
        Ok(text) => Some(text),
        Err(_) => None,
    }
}

/// Appends the four bytes of a length.
fn push_le32(out: &mut Vec<u8>, n: u32)
    ensures
        final(out)@ == old(out)@ + le32(n as int),
{
    out.push((n % 256) as u8);
    out.push(((n / 256) % 256) as u8);
    out.push(((n / 65536) % 256) as u8);
    out.push(((n / 16777216) % 256) as u8);
    assert(out@ =~= old(out)@ + le32(n as int));
}

/// Appends a text field: the length of the text, then its bytes.
fn push_text(out: &mut Vec<u8>, text: &[u8])
    requires
        text@.len() <= u32::MAX,
    ensures
        final(out)@ == old(out)@ + text_field(text@),
{
    push_le32(out, text.len() as u32);
    out.extend_from_slice(text);
    assert(out@ =~= old(out)@ + text_field(text@));
}

/// Reads the length that the four bytes at `at` spell.
fn read_le32(data: &[u8], at: usize) -> (n: u32)
    requires
        at + 4 <= data@.len(),
    ensures
        n == from_le32(data@.subrange(at as int, at + 4)),
{
    let b0: u32 = data[at] as u32;
    let b1: u32 = data[at + 1] as u32;
    let b2: u32 = data[at + 2] as u32;
    let b3: u32 = data[at + 3] as u32;
    b0 + 256 * b1 + 65536 * b2 + 16777216 * b3
}

/// An owned copy of the bytes from `from` up to `to`.
fn copy_range(data: &[u8], from: usize, to: usize) -> (copy: Vec<u8>)
    requires
        from <= to <= data@.len(),
    ensures
        copy@ == data@.subrange(from as int, to as int),
{
    let mut copy: Vec<u8> = Vec::new();
    let mut i: usize = from;
    while i < to
        invariant
            from <= i <= to <= data@.len(),
            copy@ == data@.subrange(from as int, i as int),
        decreases to - i,
    {
        copy.push(data[i]);
        i += 1;
        assert(copy@ =~= data@.subrange(from as int, i as int));
    }
    copy
}

impl MovieAccountState {
    /// The size in bytes of the stored review.
    pub fn size(&self) -> (size: usize)
        requires
            self@.size() <= usize::MAX,
        ensures
            size == self@.size(),
    {
        crate::space::required_size(
            self.title.as_str().as_bytes().len(),
            self.description.as_str().as_bytes().len(),
        )
    }

    /// Lays the review out as bytes.
    pub fn to_bytes(&self) -> (data: Vec<u8>)
        requires
            self@.storable(),
        ensures
            data@ == self@.encoding(),
            data@.len() == self@.size(),
    {
        let mut data: Vec<u8> = Vec::new();
        data.push(103);
        data.push(146);
        data.push(32);
        data.push(212);
        data.push(187);
        data.push(166);
        data.push(40);
        data.push(13);
        assert(data@ =~= discriminator());
        data.extend_from_slice(self.reviewer.bytes.as_slice());
        assert(data@ =~= discriminator() + self.reviewer@);
        data.push(self.rating);
        push_text(&mut data, self.title.as_str().as_bytes());
        push_text(&mut data, self.description.as_str().as_bytes());
        data
    }

    /// Reads the review that `data` begins with. Gives `None` where `data`
    /// does not begin with the tag, ends before the review does, or holds a
    /// text that is not UTF-8. Bytes after the review are not looked at.
    pub fn from_bytes(data: &[u8]) -> (review: Option<MovieAccountState>)
        ensures
            review_view(review) == decoding(data@),
    {
        if data.len() < 45 {
            return None;
        }
        let tag = copy_range(data, 0, 8);
        if tag[0] != 103 || tag[1] != 146 || tag[2] != 32 || tag[3] != 212 || tag[4] != 187
            || tag[5] != 166 || tag[6] != 40 || tag[7] != 13 {
            return None;
        }
        assert(data@.subrange(0, 8) =~= discriminator());
        let title_len = read_le32(data, 41);
        if (data.len() as u64) < 49 + title_len as u64 {
            return None;
        }
        let title_end: usize = 45 + title_len as usize;
        let title = copy_range(data, 45, title_end);
        let description_len = read_le32(data, title_end);
        if (data.len() as u64) < 49 + title_len as u64 + description_len as u64 {
            return None;
        }
        let description_start: usize = title_end + 4;
        let description = copy_range(
            data,
            description_start,
            description_start + description_len as usize,
        );
        let mut bytes: [u8; 32] = [0;32];
        let mut i: usize = 0;
        while i < 32
            invariant
                i <= 32,
                data@.len() >= 45,
                forall|k: int| 0 <= k < i ==> bytes[k] == data@[8 + k],
            decreases 32 - i,
        {
            bytes[i] = data[8 + i];
            i += 1;
        }
        let reviewer = Address { bytes };
        assert(reviewer@ =~= data@.subrange(8, 40));
        let rating = data[40];
        match string_from_utf8(title) {
            None => None,
            Some(title) => match string_from_utf8(description) {
                None => None,
                Some(description) => {
                    proof {
                        encode_utf8_decode_utf8(title@);
                        encode_utf8_decode_utf8(description@);
                    }
                    Some(MovieAccountState { reviewer, rating, title, description })
                },
            },
        }
    }
}

} // verus!
