//! What holds of an export as a whole.

use crate::channel::ChannelState;
use crate::encode::ToJson;
use crate::export::ErrorCode;
use crate::gltf::GLTF;
use crate::json::{json_of, pretty_text};
use vstd::prelude::*;

verus! {

/// The length that the first pass counts for a document, the length of the
/// text that an export of it leaves in the channel, and the size that the
/// channel then reports are one number.
pub proof fn law_exact_size(gltf: GLTF, measured: usize, before: ChannelState, after: ChannelState)
    requires
        measured == gltf.text().len(),
        before.export(Some(gltf.text())) == (ErrorCode::Success, after),
    ensures
        after.bytes == gltf.text(),
        after.bytes.len() == measured,
{
}

/// Measuring changes nothing: two values built from one document hold the
/// same, so the pass that counts and the pass that writes see the same text,
/// byte for byte.
pub proof fn law_passes_agree(gltf: GLTF, first: serde_json::Value, second: serde_json::Value)
    requires
        json_of(first) == gltf.json(),
        json_of(second) == gltf.json(),
    ensures
        pretty_text(json_of(first)) == pretty_text(json_of(second)),
        pretty_text(json_of(first)) == gltf.text(),
{
}

/// Of two exports that begin without the first having ended, the first gets
/// the channel and the second is turned down with `Mutex` and leaves the
/// channel as it is; when the first then ends well, the channel holds its
/// text and nothing else.
pub proof fn law_one_export_at_a_time(channel: ChannelState, text: Seq<u8>, other: Option<Seq<u8>>)
    requires
        !channel.in_flight,
    ensures
        channel.begin().0 == ErrorCode::Success,
        channel.begin().1.begin() == (ErrorCode::Mutex, channel.begin().1),
        channel.begin().1.export(other) == (ErrorCode::Mutex, channel.begin().1),
        channel.begin().1.finish(Some(text)) == (
            ErrorCode::Success,
            ChannelState { bytes: text, in_flight: false },
        ),
{
}

/// An export that fails leaves in the channel the text that was there, and
/// every export that got the channel gives it back.
pub proof fn law_failure_keeps_the_text(channel: ChannelState, text: Option<Seq<u8>>)
    requires
        !channel.in_flight,
    ensures
        !channel.export(text).1.in_flight,
        channel.export(None).0 == ErrorCode::Generation,
        channel.export(None).1 == channel,
{
}

} // verus!
