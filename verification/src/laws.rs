//! Laws of construction, rendering and equality of tags. Each is stated over
//! the spec functions that the contracts of the executable functions use, so
//! it holds of what those functions return.

use crate::ascii::{all_alphanumeric, is_uppercase, lemma_alphanumeric_is_ascii};
use crate::chunk_type::{ChunkType, ChunkTypeError};
use vstd::prelude::*;
use vstd::utf8::is_ascii_chars;

verus! {

/// Construction from raw bytes keeps the bytes: where every byte is an ASCII
/// letter or digit, it succeeds, and the tag holds the very bytes given.
pub proof fn lemma_raw_bytes_kept(bytes: [u8; 4])
    requires
        all_alphanumeric(bytes@),
    ensures
        ChunkType::spec_try_from(bytes) matches Ok(tag) && tag@ == bytes@ && tag.well_formed(),
{
    ChunkType::lemma_with_bytes_view(bytes@);
    lemma_alphanumeric_is_ascii(bytes@);
}

/// Construction from raw bytes refuses every other input: where one byte is
/// neither an ASCII letter nor an ASCII digit, it fails with the error that
/// holds the bytes.
pub proof fn lemma_other_raw_bytes_rejected(bytes: [u8; 4])
    requires
        !all_alphanumeric(bytes@),
    ensures
        ChunkType::spec_try_from(bytes) == Err::<ChunkType, ChunkTypeError>(
            ChunkTypeError::InvalidChunkType(bytes),
        ),
{
}

/// Text with a character outside ASCII is an encoding error, whatever its
/// length.
pub proof fn lemma_non_ascii_text_rejected(text: Seq<char>)
    requires
        !is_ascii_chars(text),
    ensures
        ChunkType::spec_from_str(text) == Err::<ChunkType, ChunkTypeError>(
            ChunkTypeError::InvalidEncoding,
        ),
{
}

/// ASCII text of another length than four is a length error.
pub proof fn lemma_wrong_length_rejected(text: Seq<char>)
    requires
        is_ascii_chars(text),
        text.len() != 4,
    ensures
        ChunkType::spec_from_str(text) == Err::<ChunkType, ChunkTypeError>(
            ChunkTypeError::InvalidLength(text.len() as usize),
        ),
{
}

/// Construction from text and rendering are inverse on text: any four ASCII
/// characters give a tag, and that tag renders as the same four characters.
pub proof fn lemma_text_round_trip(text: Seq<char>)
    requires
        text.len() == 4,
        is_ascii_chars(text),
    ensures
        ChunkType::spec_from_str(text) matches Ok(tag) && tag.text() == text && tag.well_formed(),
{
    ChunkType::lemma_with_bytes_view(ChunkType::bytes_of_text(text));
    let tag = ChunkType::with_bytes(ChunkType::bytes_of_text(text));
    assert(tag.text() =~= text);
}

/// Rendering and construction from text are inverse on tags: the text of a
/// tag is four ASCII characters, and building from it gives the tag back.
pub proof fn lemma_rendering_parses_back(tag: ChunkType)
    requires
        tag.well_formed(),
    ensures
        tag.text().len() == 4,
        is_ascii_chars(tag.text()),
        ChunkType::spec_from_str(tag.text()) == Ok::<ChunkType, ChunkTypeError>(tag),
{
    tag.lemma_view_len();
    tag.lemma_with_bytes_of_view();
    assert(ChunkType::bytes_of_text(tag.text()) =~= tag@);
}

/// Two tags are equal iff their bytes are equal, in order.
pub proof fn lemma_equal_iff_same_bytes(a: ChunkType, b: ChunkType)
    ensures
        (a == b) <==> (a@ == b@),
{
    a.lemma_with_bytes_of_view();
    b.lemma_with_bytes_of_view();
}

/// Where construction from raw bytes succeeds, construction from the same
/// bytes read as text gives the same tag.
pub proof fn lemma_constructions_agree(bytes: [u8; 4])
    requires
        all_alphanumeric(bytes@),
    ensures
        ChunkType::spec_from_str(ChunkType::text_of_bytes(bytes@)) == ChunkType::spec_try_from(
            bytes,
        ),
{
    let text = ChunkType::text_of_bytes(bytes@);
    lemma_alphanumeric_is_ascii(bytes@);
    assert(ChunkType::bytes_of_text(text) =~= bytes@);
}

/// For a tag built from raw bytes, validity is the reserved bit alone.
pub proof fn lemma_raw_bytes_valid_iff_reserved_bit(bytes: [u8; 4])
    requires
        all_alphanumeric(bytes@),
    ensures
        ChunkType::spec_try_from(bytes) matches Ok(tag) && (tag.valid() <==> is_uppercase(tag@[2])),
{
    ChunkType::lemma_with_bytes_view(bytes@);
}

} // verus!
