//! The failures that the library reports.

use crate::data::enums::DSPItem;
use crate::text::{chars_of, decimal, push_all, push_decimal, string_of};
use vstd::prelude::*;

verus! {

/// Why an operation of this library failed. No failure is retried.
#[derive(Debug, Clone, PartialEq, Eq)]
pub enum Error {
    /// The text holds no quote character, so no checksum can be told apart.
    MissingHashDelimiter,
    /// The checksum text is not 32 hexadecimal digits.
    BadHashFormat,
    /// The checksum in the text is not the checksum of the text.
    ChecksumMismatch,
    /// The text does not start with the blueprint prefix.
    BadPrefix,
    /// The text does not hold the expected number of fields.
    BadFieldCount,
    /// A numeric field is not a decimal number of its type.
    BadNumber,
    /// One of the two fields that must hold zero holds something else.
    NonZeroSentinel,
    /// The payload is not valid base64.
    BadBase64,
    /// The payload cannot be decompressed.
    Decompression,
    /// The payload is too long to be written as text on this machine.
    PayloadTooLarge,
    /// The bytes that a text with percent escapes stands for are no text.
    BadEscape,
    /// The binary payload declares a version other than 1.
    UnsupportedVersion,
    /// The binary payload ends before a record that it announces.
    TruncatedInput,
    /// A building declares more parameter words than any building has.
    OversizedParameterBlock,
    /// A station's parameter block does not fit its declared length.
    StationLengthMismatch,
    /// A writer was asked to pad to an offset that it has passed already.
    PastOffset,
    /// A number that the catalog does not hold.
    UnknownIdentifier,
    /// A name that a catalog does not hold: the name, and what the things of
    /// the catalog are called.
    UnknownName(String, &'static str),
    /// A piece of a list of replacements that is not two names with a colon
    /// between them, with the piece.
    BadReplacement(String),
    /// A building that this library knows no model for.
    MissingModel,
    /// A replacement of one building by another that is not of its class,
    /// with the item numbers of the two.
    InvalidReplacement(u16, u16),
    /// Any other failure, with its message.
    E(String),
}

/// What an item is called in a message: its name, or its number where the
/// catalog does not hold it.
pub open spec fn item_text(id: u16) -> Seq<char> {
    match DSPItem::of_id(id) {
        Some(item) => item.name_spec(),
        None => decimal(id as nat),
    }
}

/// Appends what an item is called in a message.
fn push_item(out: &mut Vec<char>, id: u16)
    ensures
        final(out)@ == old(out)@ + item_text(id),
{
    match DSPItem::try_from(id) {
        Ok(item) => {
            let name = chars_of(item.name());
            push_all(out, name.as_slice());
        },
        Err(_) => {
            push_decimal(out, id as u64);
        },
    }
}

impl Error {
    /// The message of the failure.
    pub open spec fn message_spec(self) -> Seq<char> {
        match self {
            Error::MissingHashDelimiter => "Did not find hash delimiter"@,
            Error::BadHashFormat => "Unexpected hash, expected 32 hexadecimal digits"@,
            Error::ChecksumMismatch => "Blueprint hash does not match calculated hash"@,
            Error::BadPrefix => "Unexpected prefix"@,
            Error::BadFieldCount => "Expected 12 CSV elements"@,
            Error::BadNumber => "Failed to parse a number"@,
            Error::NonZeroSentinel => "A fixed field is not 0"@,
            Error::BadBase64 => "Failed to base64 decode blueprint"@,
            Error::Decompression => "Failed to decompress blueprint"@,
            Error::PayloadTooLarge => "Blueprint is too large"@,
            Error::BadEscape => "Failed to decode a percent-encoded text"@,
            Error::UnsupportedVersion => "Expected blueprint version 1"@,
            Error::TruncatedInput => "Blueprint data ends too early"@,
            Error::OversizedParameterBlock => "A building has too many parameters"@,
            Error::StationLengthMismatch => "Unexpected station data length"@,
            Error::PastOffset => "Cannot pad to an offset that was passed"@,
            Error::UnknownIdentifier => "Unknown number"@,
            Error::UnknownName(name, kind) => "'"@ + name@ + "' is not a known "@ + kind@
                + ". Run 'dspbp items' or 'dspbp recipes' for a list of item/recipe names."@,
            Error::BadReplacement(piece) => "Invalid input in replacement list: \""@ + piece@
                + "\". Expected two names separated by a colon, ':'."@,
            Error::MissingModel => "Building has no BP model"@,
            Error::InvalidReplacement(i, o) => "Cannot replace buildings: "@ + item_text(i)
                + " -> "@ + item_text(o),
            Error::E(message) => message@,
        }
    }

    /// The message of the failure.
    pub fn message(&self) -> (r: String)
        ensures
            r@ == self.message_spec(),
    {
        let fixed: &str = match self {
            Error::MissingHashDelimiter => "Did not find hash delimiter",
            Error::BadHashFormat => "Unexpected hash, expected 32 hexadecimal digits",
            Error::ChecksumMismatch => "Blueprint hash does not match calculated hash",
            Error::BadPrefix => "Unexpected prefix",
            Error::BadFieldCount => "Expected 12 CSV elements",
            Error::BadNumber => "Failed to parse a number",
            Error::NonZeroSentinel => "A fixed field is not 0",
            Error::BadBase64 => "Failed to base64 decode blueprint",
            Error::Decompression => "Failed to decompress blueprint",
            Error::PayloadTooLarge => "Blueprint is too large",
            Error::BadEscape => "Failed to decode a percent-encoded text",
            Error::UnsupportedVersion => "Expected blueprint version 1",
            Error::TruncatedInput => "Blueprint data ends too early",
            Error::OversizedParameterBlock => "A building has too many parameters",
            Error::StationLengthMismatch => "Unexpected station data length",
            Error::PastOffset => "Cannot pad to an offset that was passed",
            Error::UnknownIdentifier => "Unknown number",
            Error::MissingModel => "Building has no BP model",
            Error::UnknownName(name, kind) => {
                let mut out = chars_of("'");
                let name = chars_of(name.as_str());
                push_all(&mut out, name.as_slice());
                let mid = chars_of("' is not a known ");
                push_all(&mut out, mid.as_slice());
                let kind = chars_of(kind);
                push_all(&mut out, kind.as_slice());
                let end = chars_of(
                    ". Run 'dspbp items' or 'dspbp recipes' for a list of item/recipe names.",
                );
                push_all(&mut out, end.as_slice());
                return string_of(out.as_slice());
            },
            Error::BadReplacement(piece) => {
                let mut out = chars_of("Invalid input in replacement list: \"");
                let piece = chars_of(piece.as_str());
                push_all(&mut out, piece.as_slice());
                let end = chars_of("\". Expected two names separated by a colon, ':'.");
                push_all(&mut out, end.as_slice());
                return string_of(out.as_slice());
            },
            Error::InvalidReplacement(i, o) => {
                let mut out = chars_of("Cannot replace buildings: ");
                push_item(&mut out, *i);
                let mid = chars_of(" -> ");
                push_all(&mut out, mid.as_slice());
                push_item(&mut out, *o);
                return string_of(out.as_slice());
            },
            Error::E(message) => {
                return message.clone();
            },
        };
        let out = chars_of(fixed);
        string_of(out.as_slice())
    }
}

/// Wraps a message into an error.
pub fn some_error(s: &str) -> (e: Error)
    ensures
        e matches Error::E(m) && m@ == s@,
        e.message_spec() == s@,
{
    Error::E(s.to_owned())
}

} // verus!
