//! The chunk-type tag: a validated sequence of four bytes.
//!
//! A tag is modelled by its view, the sequence of its four bytes. It is built
//! from raw bytes, which must all be ASCII letters or digits, or from text,
//! which must be four ASCII characters. The two paths check different things:
//! text such as `"Ru!t"` gives a tag, the same four raw bytes do not.
//! [`ChunkType::is_valid`] tells whether a tag, however it was built, would
//! pass the check of the raw-byte path and has its reserved bit set.
//!
//! The case of each byte encodes one property of the chunk that the tag names:
//! byte 0 critical or ancillary, byte 1 public or private, byte 2 the reserved
//! bit, byte 3 safe to copy or not.

use crate::ascii::{
    all_alphanumeric, all_ascii, byte_is_lowercase, byte_is_uppercase, bytes_all_alphanumeric,
    is_lowercase, is_uppercase, lemma_alphanumeric_is_ascii,
};
use std::str::FromStr;
use vstd::prelude::*;
use vstd::std_specs::cmp::PartialEqSpecImpl;
use vstd::std_specs::convert::TryFromSpecImpl;
use vstd::string::is_ascii_spec_bytes;
use vstd::utf8::{is_ascii_chars, is_ascii_chars_nat_bound};

verus! {

/// Why a tag could not be built.
#[derive(Debug, Clone, Copy, PartialEq, Eq)]
pub enum ChunkTypeError {
    /// One of the four raw bytes is neither an ASCII letter nor an ASCII
    /// digit. Holds the rejected bytes.
    InvalidChunkType([u8; 4]),
    /// The text is ASCII but not four characters long. Holds its length.
    InvalidLength(usize),
    /// The text holds a character outside ASCII.
    InvalidEncoding,
}

/// A four-byte chunk-type tag.
///
/// A tag comes into being only through one of its two constructors, so every
/// tag holds four ASCII bytes; one built from raw bytes holds letters and
/// digits only. A tag is never changed after it was built.
#[derive(Debug, Clone, Copy)]
pub struct ChunkType {
    bytes: [u8; 4],
}

impl View for ChunkType {
    type V = Seq<u8>;

    /// The four bytes of the tag, in order.
    closed spec fn view(&self) -> Seq<u8> {
        self.bytes@
    }
}

impl ChunkType {
    /// What holds of every tag: its bytes are ASCII.
    #[verifier::type_invariant]
    pub open spec fn well_formed(&self) -> bool {
        all_ascii(self@)
    }

    /// The tag whose view is `bytes`, for `bytes` of length four.
    pub closed spec fn with_bytes(bytes: Seq<u8>) -> ChunkType {
        ChunkType { bytes: [bytes[0], bytes[1], bytes[2], bytes[3]] }
    }

    /// What construction from raw bytes yields: the tag of these bytes iff
    /// every one of them is an ASCII letter or digit, and else the error that
    /// holds them.
    pub open spec fn spec_try_from(bytes: [u8; 4]) -> Result<ChunkType, ChunkTypeError> {
        if all_alphanumeric(bytes@) {
            Ok(ChunkType::with_bytes(bytes@))
        } else {
            Err(ChunkTypeError::InvalidChunkType(bytes))
        }
    }

    /// The bytes that ASCII characters stand for: each character as its code.
    pub open spec fn bytes_of_text(text: Seq<char>) -> Seq<u8> {
        text.map_values(|c: char| c as u8)
    }

    /// What construction from text yields. Text outside ASCII is an encoding
    /// error whatever its length; ASCII text of another length than four is a
    /// length error; any four ASCII characters give the tag of their bytes.
    pub open spec fn spec_from_str(text: Seq<char>) -> Result<ChunkType, ChunkTypeError> {
        if !is_ascii_chars(text) {
            Err(ChunkTypeError::InvalidEncoding)
        } else if text.len() != 4 {
            Err(ChunkTypeError::InvalidLength(text.len() as usize))
        } else {
            Ok(ChunkType::with_bytes(ChunkType::bytes_of_text(text)))
        }
    }

    /// The characters that bytes stand for: each byte as the character with
    /// that code.
    pub open spec fn text_of_bytes(bytes: Seq<u8>) -> Seq<char> {
        bytes.map_values(|b: u8| b as char)
    }

    /// The tag as text.
    pub open spec fn text(&self) -> Seq<char> {
        ChunkType::text_of_bytes(self@)
    }

    /// The tag would pass the check of raw-byte construction, and its
    /// reserved bit is set.
    pub open spec fn valid(&self) -> bool {
        is_uppercase(self@[2]) && all_alphanumeric(self@)
    }

    /// A tag has four bytes.
    pub proof fn lemma_view_len(self)
        ensures
            self@.len() == 4,
    {
    }

    /// `with_bytes` builds the tag with the given view.
    pub proof fn lemma_with_bytes_view(bytes: Seq<u8>)
        requires
            bytes.len() == 4,
        ensures
            ChunkType::with_bytes(bytes)@ == bytes,
    {
        assert(ChunkType::with_bytes(bytes)@ =~= bytes);
    }

    /// A tag is the tag built from its own view.
    pub proof fn lemma_with_bytes_of_view(self)
        ensures
            ChunkType::with_bytes(self@) == self,
    {
        assert(ChunkType::with_bytes(self@).bytes =~= self.bytes);
    }

    /// Returns a copy of the four bytes.
    pub fn bytes(&self) -> (r: [u8; 4])
        ensures
            r@ == self@,
            all_ascii(r@),
    {
        proof {
            use_type_invariant(self);
        }
        self.bytes
    }

    /// Critical chunks must be understood by every reader; the others are
    /// ancillary. True iff byte 0 is an uppercase letter.
    pub fn is_critical(&self) -> (r: bool)
        ensures
            r == is_uppercase(self@[0]),
    {
        byte_is_uppercase(self.bytes[0])
    }

    /// Public chunk types are registered; the others are private. True iff
    /// byte 1 is an uppercase letter.
    pub fn is_public(&self) -> (r: bool)
        ensures
            r == is_uppercase(self@[1]),
    {
        byte_is_uppercase(self.bytes[1])
    }

    /// The reserved bit of a conforming tag is set. True iff byte 2 is an
    /// uppercase letter.
    pub fn is_reserved_bit_valid(&self) -> (r: bool)
        ensures
            r == is_uppercase(self@[2]),
    {
        byte_is_uppercase(self.bytes[2])
    }

    /// An editor that does not know the chunk may copy it into a changed
    /// file. True iff byte 3 is a lowercase letter.
    pub fn is_safe_to_copy(&self) -> (r: bool)
        ensures
            r == is_lowercase(self@[3]),
    {
        byte_is_lowercase(self.bytes[3])
    }

    /// Tells whether the tag conforms: its reserved bit is set, and every byte
    /// is one that construction from raw bytes accepts, an ASCII letter or
    /// digit. A tag built from text may fail either test; one built from raw
    /// bytes can fail only the first.
    pub fn is_valid(&self) -> (r: bool)
        ensures
            r == self.valid(),
    {
        self.is_reserved_bit_valid() && bytes_all_alphanumeric(self.bytes.as_slice())
    }

    /// Renders the tag as a text of four ASCII characters.
    pub fn to_string(&self) -> (r: String)
        ensures
            r@ == self.text(),
            r@.len() == 4,
            is_ascii_chars(r@),
    {
        proof {
            use_type_invariant(self);
        }
        let mut r = String::new();
        let mut i: usize = 0;
        while i < 4
            invariant
                i <= 4,
                r@ == self.text().take(i as int),
            decreases 4 - i,
        {
            r.push(self.bytes[i] as char);
            assert(r@ =~= self.text().take(i + 1));
            i += 1;
        }
        assert(r@ =~= self.text());
        r
    }
}

impl TryFromSpecImpl<[u8; 4]> for ChunkType {
    open spec fn obeys_try_from_spec() -> bool {
        true
    }

    open spec fn try_from_spec(bytes: [u8; 4]) -> Result<Self, Self::Error> {
        ChunkType::spec_try_from(bytes)
    }
}

impl TryFrom<[u8; 4]> for ChunkType {
    type Error = ChunkTypeError;

    /// Builds a tag from four raw bytes. Succeeds iff every byte is an ASCII
    /// letter or digit; the tag then holds the bytes given.
    fn try_from(bytes: [u8; 4]) -> (r: Result<Self, Self::Error>)
        ensures
            r == ChunkType::spec_try_from(bytes),
            r matches Ok(tag) ==> tag@ == bytes@,
    {
        if bytes_all_alphanumeric(bytes.as_slice()) {
            proof {
                lemma_alphanumeric_is_ascii(bytes@);
            }
            let tag = ChunkType { bytes };
            proof {
                tag.lemma_with_bytes_of_view();
            }
            Ok(tag)
        } else {
            Err(ChunkTypeError::InvalidChunkType(bytes))
        }
    }
}

impl FromStr for ChunkType {
    type Err = ChunkTypeError;

    /// Builds a tag from text. Succeeds iff the text is four ASCII characters;
    /// the tag then holds their codes, in order. Whether the text is ASCII is
    /// tested first, so text that fails both tests is an encoding error.
    fn from_str(s: &str) -> (r: Result<Self, Self::Err>)
        ensures
            r == ChunkType::spec_from_str(s@),
            r matches Ok(tag) ==> tag@ == ChunkType::bytes_of_text(s@),
    {
        if !s.is_ascii() {
            return Err(ChunkTypeError::InvalidEncoding);
        }
        let raw = s.as_bytes();
        proof {
            is_ascii_spec_bytes(s);
            is_ascii_chars_nat_bound(s@);
        }
        if raw.len() != 4 {
            return Err(ChunkTypeError::InvalidLength(raw.len()));
        }
        let tag = ChunkType { bytes: [raw[0], raw[1], raw[2], raw[3]] };
        proof {
            assert(tag@ =~= ChunkType::bytes_of_text(s@));
            tag.lemma_with_bytes_of_view();
        }
        Ok(tag)
    }
}

impl PartialEqSpecImpl for ChunkType {
    open spec fn obeys_eq_spec() -> bool {
        true
    }

    /// Two tags are equal iff their bytes are equal, in order.
    open spec fn eq_spec(&self, other: &Self) -> bool {
        self@ == other@
    }
}

impl PartialEq for ChunkType {
    fn eq(&self, other: &Self) -> (r: bool) {
        let r = self.bytes[0] == other.bytes[0] && self.bytes[1] == other.bytes[1]
            && self.bytes[2] == other.bytes[2] && self.bytes[3] == other.bytes[3];
        assert(r == (self@ =~= other@));
        r
    }
}

impl Eq for ChunkType {}

} // verus!
