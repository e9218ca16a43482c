//! Export of a document: its exact size is measured by a first pass that
//! keeps nothing, then the text is written once into a buffer of that size.

use crate::encode::ToJson;
use crate::gltf::GLTF;
use crate::json::{json_of, pretty_text};
use crate::sink::{count_pretty, reserve_exact, shrink_to_fit, store_pretty, DryRunWriter};
use vstd::prelude::*;

verus! {

/// How an export ended.
#[derive(Clone, Copy, PartialEq, Eq, Structural, Debug)]
pub enum ErrorCode {
    /// The export went through.
    Success,
    /// Another export was in flight.
    Mutex,
    /// The text could not be made.
    Generation,
}

impl ErrorCode {
    /// The number that stands for the code where only integers can pass.
    pub open spec fn number(&self) -> i32 {
        match self {
            ErrorCode::Success => 0,
            ErrorCode::Mutex => 1,
            ErrorCode::Generation => 2,
        }
    }

    /// The number that stands for the code where only integers can pass.
    #[verifier::when_used_as_spec(number)]
    pub fn code(&self) -> (r: i32)
        ensures
            r == self.number(),
    {
        match self {
            ErrorCode::Success => 0,
            ErrorCode::Mutex => 1,
            ErrorCode::Generation => 2,
        }
    }
}

/// The first pass: the length of the value's text, counted without keeping
/// a byte of it. There is no count only for a text too long for `usize`.
fn count(value: &serde_json::Value) -> (r: Option<usize>)
    ensures
        match r {
            Some(n) => n == pretty_text(json_of(*value)).len(),
            None => pretty_text(json_of(*value)).len() > usize::MAX,
        },
{
    let mut counter = DryRunWriter::new();
    match count_pretty(&mut counter, value) {
        Ok(()) => Some(counter.bytes_written),
        Err(_) => None,
    }
}

/// The second pass: the value's text, written into a vector for which room
/// for exactly `space_required` bytes was asked.
fn store(value: &serde_json::Value, space_required: usize) -> (r: Option<Vec<u8>>)
    ensures
        r matches Some(text) ==> text@ == pretty_text(json_of(*value)),
{
    let mut text: Vec<u8> = Vec::new();
    if !reserve_exact(&mut text, space_required) {
        return None;
    }
    match store_pretty(&mut text, value) {
        Ok(()) => {
            shrink_to_fit(&mut text);
            Some(text)
        },
        Err(_) => None,
    }
}

/// The length of the document's text, counted by a pass that keeps nothing.
/// There is no length only for a text too long for `usize`.
pub fn measure(gltf: &GLTF) -> (r: Option<usize>)
    ensures
        match r {
            Some(n) => n == gltf.text().len(),
            None => gltf.text().len() > usize::MAX,
        },
{
    let value = gltf.to_value();
    count(&value)
}

/// Compares what the second pass wrote with what the first pass counted.
pub fn confirm(measured: usize, written: &Vec<u8>) -> (code: ErrorCode)
    ensures
        code == if written@.len() == measured {
            ErrorCode::Success
        } else {
            ErrorCode::Generation
        },
{
    if written.len() == measured {
        ErrorCode::Success
    } else {
        ErrorCode::Generation
    }
}

/// How an export ends, from what its two passes gave: well where both gave
/// something and the text is as long as was counted, with `Generation`
/// otherwise.
pub open spec fn outcome(measured: Option<usize>, written: Option<Seq<u8>>) -> ErrorCode {
    if measured is Some && written is Some && written.unwrap().len() == measured.unwrap() {
        ErrorCode::Success
    } else {
        ErrorCode::Generation
    }
}

/// Ends an export with what its two passes gave: where it ends well the text
/// takes the place of what `buffer` held, otherwise `buffer` stays as it was.
pub fn settle(buffer: &mut Vec<u8>, measured: Option<usize>, written: Option<Vec<u8>>) -> (code:
    ErrorCode)
    ensures
        code == outcome(
            measured,
            match written {
                Some(text) => Some(text@),
                None => None,
            },
        ),
        final(buffer)@ == if code == ErrorCode::Success {
            written.unwrap()@
        } else {
            old(buffer)@
        },
{
    match (measured, written) {
        (Some(space_required), Some(text)) => {
            let code = confirm(space_required, &text);
            if code == ErrorCode::Success {
                *buffer = text;
            }
            code
        },
        _ => ErrorCode::Generation,
    }
}

/// Writes the text of the document into `buffer`, in place of what it held.
///
/// The text is first measured, then written into a vector for which exactly
/// that much room was asked. Where a pass fails the buffer is left as it was
/// and `Generation` comes back.
pub fn write_gltf(buffer: &mut Vec<u8>, gltf: GLTF) -> (code: ErrorCode)
    ensures
        match code {
            ErrorCode::Success => final(buffer)@ == gltf.text(),
            ErrorCode::Generation => final(buffer)@ == old(buffer)@,
            ErrorCode::Mutex => false,
        },
{
    let value = gltf.to_value();
    let measured = count(&value);
    let written = match measured {
        Some(space_required) => store(&value, space_required),
        None => None,
    };
    settle(buffer, measured, written)
}

} // verus!
