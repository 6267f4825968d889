//! Storage accounting: how many bytes a stored review occupies.

use vstd::prelude::*;

verus! {

/// Bytes of the tag that marks an account as a stored review.
pub const ANCHOR_DISCRIMINATOR: usize = 8;

/// Bytes of an identity.
pub const PUBKEY_SIZE: usize = 32;

/// Bytes of the rating.
pub const U8_SIZE: usize = 1;

/// Bytes of the length prefix in front of each text field.
pub const STRING_LENGTH_PREFIX: usize = 4;

/// Bytes that every stored review occupies, whatever its texts hold: the tag,
/// the author, the rating and the two length prefixes.
pub const INIT_SPACE: usize = ANCHOR_DISCRIMINATOR + PUBKEY_SIZE + U8_SIZE + STRING_LENGTH_PREFIX
    + STRING_LENGTH_PREFIX;

/// The size of a stored review as a mathematical integer.
pub open spec fn required_size_spec(title_len: int, description_len: int) -> int {
    INIT_SPACE as int + title_len + description_len
}

/// The fixed part of a stored review is 49 bytes.
pub proof fn lemma_init_space()
    ensures
        INIT_SPACE == 49,
        forall|t: int, d: int| #[trigger] required_size_spec(t, d) == 49 + t + d,
{
}

/// Bytes to allocate for a review whose title and description have the given
/// byte lengths.
pub fn required_size(title_len: usize, description_len: usize) -> (size: usize)
    requires
        required_size_spec(title_len as int, description_len as int) <= usize::MAX,
    ensures
        size == required_size_spec(title_len as int, description_len as int),
{
    INIT_SPACE + title_len + description_len
}

} // verus!
