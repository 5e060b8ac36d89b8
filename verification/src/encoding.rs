//! Choosing a text decoder from an optional encoding label, and decoding with
//! it. The label registry and the decoders themselves are those of the
//! `encoding_rs` crate.

use encoding_rs::Encoding;
use vstd::prelude::*;

verus! {

/// Declares `encoding_rs::Encoding`, a character encoding of the registry.
/// Nothing inside a value of it is read here: it is looked up, named and
/// decoded with.
#[verifier::external_type_specification]
#[verifier::external_body]
pub struct ExEncoding(encoding_rs::Encoding);

/// The canonical name of an encoding, as `Encoding::name` reports it.
pub uninterp spec fn encoding_name(encoding: &Encoding) -> Seq<char>;

/// The canonical name of the encoding that the label registry holds for
/// `label`, as `Encoding::for_label` finds it; `None` for an unknown label.
pub uninterp spec fn registry_entry(label: Seq<char>) -> Option<Seq<char>>;

/// The text that the encoding called `encoding` decodes `bytes` to, as
/// `Encoding::decode` produces it.
pub uninterp spec fn decoded_text(encoding: Seq<char>, bytes: Seq<u8>) -> Seq<char>;

/// Longest input that a decoder can size its output buffer for. A decoder
/// asks for up to three bytes of output per byte of input and a few more,
/// rounds that up to a power of two, and may double the buffer once while it
/// decodes; a sixteenth of the address range leaves room for all of it.
pub open spec fn max_decodable_len() -> int {
    (usize::MAX / 16) as int
}

/// Whether an input of `len` bytes is short enough to decode.
pub fn is_decodable_len(len: usize) -> (ok: bool)
    ensures
        ok == (len <= max_decodable_len()),
{
    len <= usize::MAX / 16
}

/// Calls `Encoding::for_label` on the bytes of `label`. The contract names
/// the outcome: the encoding handed back is the one that the registry holds
/// for the label, and none is handed back exactly when it holds none.
#[verifier::external_body]
fn lookup_label(label: &str) -> (found: Option<&'static Encoding>)
    ensures
        match found {
            Some(encoding) => registry_entry(label@) == Some(encoding_name(encoding)),
            None => registry_entry(label@) is None,
        },
{
    Encoding::for_label(label.as_bytes())
}

/// Reads the static `encoding_rs::UTF_8`, whose name is "UTF-8".
#[verifier::external_body]
fn utf8_encoding() -> (encoding: &'static Encoding)
    ensures
        encoding_name(encoding) == "UTF-8"@,
{
    encoding_rs::UTF_8
}

/// Calls `Encoding::name`.
#[verifier::external_body]
fn name_of(encoding: &'static Encoding) -> (name: &'static str)
    ensures
        name@ == encoding_name(encoding),
{
    encoding.name()
}

/// Calls `Encoding::decode` and keeps the decoded text. The call sniffs a
/// byte-order mark and replaces malformed sequences, so the text depends on
/// the encoding and the bytes alone. It panics where the size of its output
/// buffer cannot be computed, which the bound on the input rules out.
#[verifier::external_body]
fn decode_bytes(encoding: &'static Encoding, bytes: &[u8]) -> (text: String)
    requires
        bytes@.len() <= max_decodable_len(),
    ensures
        text@ == decoded_text(encoding_name(encoding), bytes@),
{
    encoding.decode(bytes).0.into_owned()
}

/// A concrete text decoder.
#[derive(Clone, Copy, Debug)]
pub struct Decoder {
    encoding: &'static Encoding,
}

/// The name of the decoder that an optional label resolves to: the
/// registry's entry for a known label, UTF-8 otherwise.
pub open spec fn resolved_name(label: Option<Seq<char>>) -> Seq<char> {
    match label {
        Some(text) => match registry_entry(text) {
            Some(name) => name,
            None => "UTF-8"@,
        },
        None => "UTF-8"@,
    }
}

impl Decoder {
    /// The canonical name of the encoding that this decoder reads.
    pub closed spec fn name(&self) -> Seq<char> {
        encoding_name(self.encoding)
    }

    /// The UTF-8 decoder.
    pub fn utf8() -> (decoder: Decoder)
        ensures
            decoder.name() == "UTF-8"@,
    {
        Decoder { encoding: utf8_encoding() }
    }

    /// The decoder that the registry holds for `label`, if it holds one.
    pub fn for_label(label: &str) -> (found: Option<Decoder>)
        ensures
            match found {
                Some(decoder) => registry_entry(label@) == Some(decoder.name()),
                None => registry_entry(label@) is None,
            },
    {
        match lookup_label(label) {
            Some(encoding) => Some(Decoder { encoding }),
            None => None,
        }
    }

    /// The decoder for an optional label: the registry's for a known label,
    /// UTF-8 for an unknown or absent one.
    pub fn resolve(label: Option<&str>) -> (decoder: Decoder)
        ensures
            decoder.name() == resolved_name(
                match label {
                    Some(text) => Some(text@),
                    None => None,
                },
            ),
    {
        match label {
            Some(text) => match Decoder::for_label(text) {
                Some(decoder) => decoder,
                None => Decoder::utf8(),
            },
            None => Decoder::utf8(),
        }
    }

    /// The canonical name as a string.
    pub fn canonical_name(&self) -> (name: String)
        ensures
            name@ == self.name(),
    {
        name_of(self.encoding).to_owned()
    }

    /// Decodes `bytes` to text.
    pub fn decode(&self, bytes: &[u8]) -> (text: String)
        requires
            bytes@.len() <= max_decodable_len(),
        ensures
            text@ == decoded_text(self.name(), bytes@),
    {
        decode_bytes(self.encoding, bytes)
    }
}

} // verus!
