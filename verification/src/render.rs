//! From a document to text.
//!
//! The renderer decides indentation, quoting and style; here its text is
//! only carried to the caller, as bytes or as a string.

use crate::error::Error;
use crate::tree::{emit, rendered, string_from_utf8, tree_of};
use vstd::prelude::*;
use vstd::string::StrSliceExecFns;
use vstd::utf8::{
    decode_utf8, encode_utf8, encode_utf8_decode_utf8, encode_utf8_valid_utf8, valid_utf8,
};
use yaml_rust::EmitError;
use yaml_rust::Yaml;

verus! {

/// Carries the renderer's outcome to a byte sink: text is appended as its
/// UTF-8 bytes, and a failure is reported without a byte written.
pub fn write_rendered(writer: &mut Vec<u8>, outcome: Result<String, EmitError>) -> (r: Result<(), Error>)
    ensures
        (match outcome {
            Ok(text) => r is Ok && final(writer)@ == old(writer)@ + encode_utf8(text@),
            Err(_) => r == Err::<(), Error>(Error::Emit) && final(writer)@ == old(writer)@,
        }),
{
    match outcome {
        Ok(text) => {
            let mut bytes = text.as_str().as_bytes_vec();
            writer.append(&mut bytes);
            Ok(())
        },
        Err(_) => Err(Error::Emit),
    }
}

/// Reads bytes as text: the string that they encode, or `FromUtf8` where
/// they are not valid UTF-8.
pub fn text_from_utf8(bytes: Vec<u8>) -> (r: Result<String, Error>)
    ensures
        (match r {
            Ok(text) => valid_utf8(bytes@) && text@ == decode_utf8(bytes@),
            Err(e) => !valid_utf8(bytes@) && e == Error::FromUtf8,
        }),
{
    match string_from_utf8(bytes) {
        Ok(text) => Ok(text),
        Err(_) => Err(Error::FromUtf8),
    }
}

/// Renders a document and appends the text, as UTF-8 bytes, to `writer`.
/// Where the renderer fails, nothing is appended.
pub fn to_writer(writer: &mut Vec<u8>, doc: &Yaml) -> (r: Result<(), Error>)
    ensures
        (match rendered(tree_of(*doc)) {
            Some(text) => r is Ok && final(writer)@ == old(writer)@ + encode_utf8(text),
            None => r == Err::<(), Error>(Error::Emit) && final(writer)@ == old(writer)@,
        }),
{
    write_rendered(writer, emit(doc))
}

/// Renders a document into a new byte vector.
pub fn to_vec(doc: &Yaml) -> (r: Result<Vec<u8>, Error>)
    ensures
        (match rendered(tree_of(*doc)) {
            Some(text) => r matches Ok(bytes) && bytes@ == encode_utf8(text),
            None => r matches Err(e) && e == Error::Emit,
        }),
{
    let mut vec = Vec::with_capacity(128);
    match to_writer(&mut vec, doc) {
        Ok(()) => Ok(vec),
        Err(e) => Err(e),
    }
}

/// Renders a document into a string. The rendered bytes are checked to be
/// valid UTF-8, which they always are.
pub fn to_string(doc: &Yaml) -> (r: Result<String, Error>)
    ensures
        (match rendered(tree_of(*doc)) {
            Some(text) => r matches Ok(s) && s@ == text,
            None => r matches Err(e) && e == Error::Emit,
        }),
{
    match to_vec(doc) {
        Ok(bytes) => {
            proof {
                let text = rendered(tree_of(*doc))->Some_0;
                encode_utf8_valid_utf8(text);
                encode_utf8_decode_utf8(text);
            }
            text_from_utf8(bytes)
        },
        Err(e) => Err(e),
    }
}

} // verus!
