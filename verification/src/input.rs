//! Sorting the byte inputs of a call into one accepted shape, and preparing
//! that shape for the parser.

use crate::encoding::{decoded_text, max_decodable_len, resolved_name, Decoder};
use crate::error::BoundaryError;
use vstd::prelude::*;

verus! {

/// The shape of the byte inputs of a call.
#[derive(Clone, Debug, PartialEq, Eq)]
pub enum InputShape {
    /// One combined file.
    Combined(Vec<u8>),
    /// A configuration file and a data file.
    Split(Vec<u8>, Vec<u8>),
    /// Neither of the two.
    Invalid,
}

/// The shape that the inputs have: a combined file wherever one is present,
/// else a split pair where both of its files are present.
pub open spec fn shape_of(
    combined: Option<Vec<u8>>,
    config: Option<Vec<u8>>,
    data: Option<Vec<u8>>,
) -> InputShape {
    match combined {
        Some(bytes) => InputShape::Combined(bytes),
        None => match (config, data) {
            (Some(config_bytes), Some(data_bytes)) => InputShape::Split(config_bytes, data_bytes),
            _ => InputShape::Invalid,
        },
    }
}

/// Sorts the inputs into their shape.
pub fn classify_input(
    combined: Option<Vec<u8>>,
    config: Option<Vec<u8>>,
    data: Option<Vec<u8>>,
) -> (shape: InputShape)
    ensures
        shape == shape_of(combined, config, data),
{
    match combined {
        Some(bytes) => InputShape::Combined(bytes),
        None => match (config, data) {
            (Some(config_bytes), Some(data_bytes)) => InputShape::Split(config_bytes, data_bytes),
            _ => InputShape::Invalid,
        },
    }
}

/// What the parser is given to read.
#[derive(Clone, Debug, PartialEq, Eq)]
pub enum ParserInput {
    /// The bytes of a combined file, untouched.
    Combined(Vec<u8>),
    /// The configuration decoded to text, and the bytes of the data file,
    /// untouched.
    Split { config_text: String, data: Vec<u8> },
}

/// The text of an optional label.
pub open spec fn label_text(label: Option<String>) -> Option<Seq<char>> {
    match label {
        Some(text) => Some(text@),
        None => None,
    }
}

/// What the parser is given for inputs of a shape, or the error for inputs of
/// none: a combined file goes through as it is and the label is not looked
/// at; of a split pair the configuration is decoded with the decoder that the
/// label resolves to.
pub open spec fn normalized(shape: InputShape, label: Option<Seq<char>>, result: Result<
    ParserInput,
    BoundaryError,
>) -> bool {
    match shape {
        InputShape::Combined(bytes) => result == Ok::<ParserInput, BoundaryError>(
            ParserInput::Combined(bytes),
        ),
        InputShape::Split(config_bytes, data_bytes) => {
            &&& result matches Ok(ParserInput::Split { config_text, data })
            &&& config_text@ == decoded_text(resolved_name(label), config_bytes@)
            &&& data == data_bytes
        },
        InputShape::Invalid => result == Err::<ParserInput, BoundaryError>(
            BoundaryError::InvalidInputShape,
        ),
    }
}

/// Prepares inputs of a known shape for the parser.
pub fn prepare_input(shape: InputShape, encoding_label: Option<String>) -> (result: Result<
    ParserInput,
    BoundaryError,
>)
    requires
        shape matches InputShape::Split(config_bytes, _) ==> config_bytes@.len()
            <= max_decodable_len(),
    ensures
        normalized(shape, label_text(encoding_label), result),
{
    match shape {
        InputShape::Combined(bytes) => Ok(ParserInput::Combined(bytes)),
        InputShape::Split(config_bytes, data_bytes) => {
            let decoder = match &encoding_label {
                Some(label) => Decoder::resolve(Some(label.as_str())),
                None => Decoder::resolve(None),
            };
            let config_text = decoder.decode(config_bytes.as_slice());
            Ok(ParserInput::Split { config_text, data: data_bytes })
        },
        InputShape::Invalid => Err(BoundaryError::InvalidInputShape),
    }
}

/// Sorts the inputs of a call into their shape and prepares them for the
/// parser.
pub fn normalize_input(
    combined: Option<Vec<u8>>,
    config: Option<Vec<u8>>,
    data: Option<Vec<u8>>,
    encoding_label: Option<String>,
) -> (result: Result<ParserInput, BoundaryError>)
    requires
        shape_of(combined, config, data) matches InputShape::Split(config_bytes, _)
            ==> config_bytes@.len() <= max_decodable_len(),
    ensures
        normalized(shape_of(combined, config, data), label_text(encoding_label), result),
{
    prepare_input(classify_input(combined, config, data), encoding_label)
}

} // verus!
