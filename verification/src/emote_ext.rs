//! Emote identifiers of the two known providers: twelve raw bytes each,
//! written as twenty-four hexadecimal digits, from which the download URL
//! and the canonical on-disk file name are derived.

use vstd::prelude::*;
use crate::text::{hex_of, hex_val, is_hex_digit_char};

verus! {

/// The given text is no valid emote id.
#[derive(Debug, Clone, Copy, PartialEq, Eq, Structural)]
pub enum IdParseError {
    InvalidHex,
}

/// Twenty-four hexadecimal digits, either case.
pub open spec fn is_hex_24(s: Seq<char>) -> bool {
    s.len() == 24 && forall|i: int| 0 <= i < 24 ==> is_hex_digit_char(#[trigger] s[i])
}

/// The twelve bytes written by twenty-four hexadecimal digits.
pub open spec fn hex_bytes_of(s: Seq<char>) -> Seq<u8> {
    Seq::new(12, |i: int| (16 * hex_val(s[2 * i]) + hex_val(s[2 * i + 1])) as u8)
}

/// Relies on hex::encode: two lowercase hexadecimal digits per byte, in
/// byte order.
#[verifier::external_body]
fn hex_encode_bytes(bytes: &[u8; 12]) -> (r: String)
    ensures
        r@ == hex_of(bytes@),
{
    hex::encode(bytes)
}

/// Relies on hex::decode_to_slice: accepts exactly twice as many
/// hexadecimal digits (either case) as the output holds, and writes each
/// pair's value; anything else is an error.
#[verifier::external_body]
fn hex_decode_12(s: &str) -> (r: Result<[u8; 12], IdParseError>)
    ensures
        match r {
            Result::Ok(b) => is_hex_24(s@) && b@ == hex_bytes_of(s@),
            Result::Err(_) => !is_hex_24(s@),
        },
{
    let mut b = [0u8; 12];
    match hex::decode_to_slice(s, &mut b) {
        Ok(()) => Ok(b),
        Err(_) => Err(IdParseError::InvalidHex),
    }
}

/// An emote id: parsed from hexadecimal text, rendered back into the
/// provider's URL and the canonical file name.
pub trait EmoteIdExt: Sized {
    /// The raw bytes behind the id.
    spec fn id_bytes(&self) -> Seq<u8>;

    /// The provider URL the id downloads from.
    spec fn url_of(&self) -> Seq<char>;

    /// The canonical on-disk file name.
    spec fn file_name_of(&self) -> Seq<char>;

    /// Reads an id from twenty-four hexadecimal digits.
    fn parse_id(input: &str) -> (r: Result<Self, IdParseError>)
        ensures
            match r {
                Result::Ok(id) => is_hex_24(input@) && id.id_bytes() == hex_bytes_of(input@),
                Result::Err(_) => !is_hex_24(input@),
            },
    ;

    /// The provider URL the id downloads from.
    fn to_url(&self) -> (r: String)
        ensures
            r@ == self.url_of(),
    ;

    /// The canonical on-disk file name.
    fn to_file_name(&self) -> (r: String)
        ensures
            r@ == self.file_name_of(),
    ;
}

/// An emote of the first provider.
#[derive(Debug, Clone, Copy, PartialEq, Eq, Hash)]
pub struct SevenTvId([u8; 12]);

impl SevenTvId {
    /// The id's lowercase hexadecimal form.
    pub fn hex_string(&self) -> (r: String)
        ensures
            r@ == hex_of(self.id_bytes()),
    {
        hex_encode_bytes(&self.0)
    }
}

impl EmoteIdExt for SevenTvId {
    closed spec fn id_bytes(&self) -> Seq<u8> {
        self.0@
    }

    open spec fn url_of(&self) -> Seq<char> {
        "https://cdn.7tv.app/emote/"@ + hex_of(self.id_bytes()) + "/4x.webp"@
    }

    open spec fn file_name_of(&self) -> Seq<char> {
        hex_of(self.id_bytes()) + ".webp"@
    }

    fn parse_id(input: &str) -> (r: Result<Self, IdParseError>) {
        match hex_decode_12(input) {
            Result::Ok(b) => Ok(SevenTvId(b)),
            Result::Err(e) => Err(e),
        }
    }

    fn to_url(&self) -> (r: String) {
        let mut s = String::new();
        s.append("https://cdn.7tv.app/emote/");
        let hex = hex_encode_bytes(&self.0);
        s.append(hex.as_str());
        s.append("/4x.webp");
        proof {
            assert(s@ =~= self.url_of());
        }
        s
    }

    fn to_file_name(&self) -> (r: String) {
        let mut s = hex_encode_bytes(&self.0);
        s.append(".webp");
        proof {
            assert(s@ =~= self.file_name_of());
        }
        s
    }
}

/// An emote of the second provider.
#[derive(Debug, Clone, Copy, PartialEq, Eq, Hash)]
pub struct BttvId([u8; 12]);

impl BttvId {
    /// The id's lowercase hexadecimal form.
    pub fn hex_string(&self) -> (r: String)
        ensures
            r@ == hex_of(self.id_bytes()),
    {
        hex_encode_bytes(&self.0)
    }
}

impl EmoteIdExt for BttvId {
    closed spec fn id_bytes(&self) -> Seq<u8> {
        self.0@
    }

    open spec fn url_of(&self) -> Seq<char> {
        "https://cdn.betterttv.net/emote/"@ + hex_of(self.id_bytes()) + "/3x.webp"@
    }

    open spec fn file_name_of(&self) -> Seq<char> {
        hex_of(self.id_bytes()) + ".webp"@
    }

    fn parse_id(input: &str) -> (r: Result<Self, IdParseError>) {
        match hex_decode_12(input) {
            Result::Ok(b) => Ok(BttvId(b)),
            Result::Err(e) => Err(e),
        }
    }

    fn to_url(&self) -> (r: String) {
        let mut s = String::new();
        s.append("https://cdn.betterttv.net/emote/");
        let hex = hex_encode_bytes(&self.0);
        s.append(hex.as_str());
        s.append("/3x.webp");
        proof {
            assert(s@ =~= self.url_of());
        }
        s
    }

    fn to_file_name(&self) -> (r: String) {
        let mut s = hex_encode_bytes(&self.0);
        s.append(".webp");
        proof {
            assert(s@ =~= self.file_name_of());
        }
        s
    }
}

/// An emote id of either provider.
#[derive(Debug, Clone, Copy, PartialEq, Eq, Hash)]
pub enum EmoteId {
    SevenTv(SevenTvId),
    Bttv(BttvId),
}

impl EmoteId {
    /// The raw bytes behind the id, whichever the provider.
    pub open spec fn id_bytes(&self) -> Seq<u8> {
        match self {
            EmoteId::SevenTv(id) => id.id_bytes(),
            EmoteId::Bttv(id) => id.id_bytes(),
        }
    }

    /// The provider URL the id downloads from.
    pub open spec fn url_of(&self) -> Seq<char> {
        match self {
            EmoteId::SevenTv(id) => id.url_of(),
            EmoteId::Bttv(id) => id.url_of(),
        }
    }

    /// The canonical on-disk file name.
    pub open spec fn file_name_of(&self) -> Seq<char> {
        match self {
            EmoteId::SevenTv(id) => id.file_name_of(),
            EmoteId::Bttv(id) => id.file_name_of(),
        }
    }

    /// The provider URL the id downloads from.
    pub fn to_url(&self) -> (r: String)
        ensures
            r@ == self.url_of(),
    {
        match self {
            EmoteId::SevenTv(id) => id.to_url(),
            EmoteId::Bttv(id) => id.to_url(),
        }
    }

    /// The canonical on-disk file name.
    pub fn to_file_name(&self) -> (r: String)
        ensures
            r@ == self.file_name_of(),
    {
        match self {
            EmoteId::SevenTv(id) => id.to_file_name(),
            EmoteId::Bttv(id) => id.to_file_name(),
        }
    }

    /// The id's lowercase hexadecimal form.
    pub fn hex_string(&self) -> (r: String)
        ensures
            r@ == hex_of(self.id_bytes()),
    {
        match self {
            EmoteId::SevenTv(id) => id.hex_string(),
            EmoteId::Bttv(id) => id.hex_string(),
        }
    }
}

} // verus!
