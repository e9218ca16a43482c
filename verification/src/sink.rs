//! Where the text of a document goes: a counter that keeps nothing, or a
//! byte vector. `serde_json` writes into either.

use crate::json::{json_of, pretty_text};
use vstd::prelude::*;

verus! {

/// `std::io::Error`, with which a writer fails. It is never looked into.
#[verifier::external_type_specification]
#[verifier::external_body]
pub struct ExIoError(std::io::Error);

/// A writer that keeps no byte and counts how many it was given.
pub struct DryRunWriter {
    pub bytes_written: usize,
}

impl DryRunWriter {
    /// A writer that has been given nothing yet.
    pub fn new() -> (r: Self)
        ensures
            r.bytes_written == 0,
    {
        Self { bytes_written: 0 }
    }
}

/// `std::io::Error::from` on `std::io::ErrorKind::Other`: the error with
/// which a writer turns down what it cannot take.
#[verifier::external_body]
fn refusal() -> std::io::Error {
    std::io::Error::from(std::io::ErrorKind::Other)
}

impl std::io::Write for DryRunWriter {
    /// Counts the bytes of `buf`, all of them or, where the count would
    /// leave the range of `usize`, none.
    fn write(&mut self, buf: &[u8]) -> (r: Result<usize, std::io::Error>)
        ensures
            match r {
                Ok(n) => n == buf@.len() && final(self).bytes_written == old(self).bytes_written
                    + buf@.len(),
                Err(_) => final(self).bytes_written == old(self).bytes_written && old(
                    self,
                ).bytes_written + buf@.len() > usize::MAX,
            },
    {
        match self.bytes_written.checked_add(buf.len()) {
            Some(total) => {
                self.bytes_written = total;
                Ok(buf.len())
            },
            None => Err(refusal()),
        }
    }

    /// Nothing is held back, so there is nothing to do.
    fn flush(&mut self) -> (r: Result<(), std::io::Error>)
        ensures
            r is Ok,
            final(self).bytes_written == old(self).bytes_written,
    {
        Ok(())
    }
}

/// `serde_json::ser::to_writer_pretty` into the counter. A `Value` has
/// strings for keys and no error of its own to raise, so the call fails only
/// where the writer does, and the counter turns a write down only where the
/// count would leave the range of `usize`. So it ends well exactly where the
/// count has room for the whole text, and then the counter has grown by the
/// text's length.
#[verifier::external_body]
pub(crate) fn count_pretty(counter: &mut DryRunWriter, value: &serde_json::Value) -> (r: Result<
    (),
    serde_json::Error,
>)
    ensures
        r is Ok <==> old(counter).bytes_written + pretty_text(json_of(*value)).len() <= usize::MAX,
        r is Ok ==> final(counter).bytes_written == old(counter).bytes_written + pretty_text(
            json_of(*value),
        ).len(),
{
    serde_json::ser::to_writer_pretty(counter, value)
}

/// `serde_json::ser::to_writer_pretty` into a byte vector: where it ends
/// well, the value's text stands behind what the vector held.
#[verifier::external_body]
pub(crate) fn store_pretty(buffer: &mut Vec<u8>, value: &serde_json::Value) -> (r: Result<
    (),
    serde_json::Error,
>)
    ensures
        r is Ok ==> final(buffer)@ == old(buffer)@ + pretty_text(json_of(*value)),
{
    serde_json::ser::to_writer_pretty(buffer, value)
}

/// `Vec::try_reserve_exact`: room for `additional` more bytes is asked for
/// and may be turned down; what the vector holds stays.
#[verifier::external_body]
pub(crate) fn reserve_exact(buffer: &mut Vec<u8>, additional: usize) -> (r: bool)
    ensures
        final(buffer)@ == old(buffer)@,
{
    buffer.try_reserve_exact(additional).is_ok()
}

/// `Vec::shrink_to_fit`: room that is not used is given back; what the
/// vector holds stays.
#[verifier::external_body]
pub(crate) fn shrink_to_fit(buffer: &mut Vec<u8>)
    ensures
        final(buffer)@ == old(buffer)@,
{
    buffer.shrink_to_fit()
}

} // verus!
