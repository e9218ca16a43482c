//! The export channel: one slot that holds the text of the latest export
//! that went through, and a guard against a second export while one is in
//! flight.

use crate::export::{write_gltf, ErrorCode};
use crate::gltf::GLTF;
use vstd::prelude::*;

verus! {

/// What a channel holds, as mathematics.
pub struct ChannelState {
    /// The text of the latest export that went through; empty before the
    /// first.
    pub bytes: Seq<u8>,
    /// Whether an export has begun and not ended.
    pub in_flight: bool,
}

impl ChannelState {
    /// The channel before any export.
    pub open spec fn initial() -> ChannelState {
        ChannelState { bytes: Seq::empty(), in_flight: false }
    }

    /// An export asks for the channel: it gets it unless one is in flight,
    /// and then the channel stays as it is.
    pub open spec fn begin(self) -> (ErrorCode, ChannelState) {
        if self.in_flight {
            (ErrorCode::Mutex, self)
        } else {
            (ErrorCode::Success, ChannelState { bytes: self.bytes, in_flight: true })
        }
    }

    /// The export that holds the channel ends and gives it back, with the
    /// text it made or, where it made none, with what the channel held.
    /// Without an export in flight nothing changes.
    pub open spec fn finish(self, text: Option<Seq<u8>>) -> (ErrorCode, ChannelState) {
        if !self.in_flight {
            (ErrorCode::Mutex, self)
        } else {
            match text {
                Some(bytes) => (ErrorCode::Success, ChannelState { bytes, in_flight: false }),
                None => (
                    ErrorCode::Generation,
                    ChannelState { bytes: self.bytes, in_flight: false },
                ),
            }
        }
    }

    /// A whole export: begin, then finish where the channel was got.
    pub open spec fn export(self, text: Option<Seq<u8>>) -> (ErrorCode, ChannelState) {
        if self.in_flight {
            (ErrorCode::Mutex, self)
        } else {
            self.begin().1.finish(text)
        }
    }
}

/// The channel through which the text of an export is handed out.
pub struct ExportChannel {
    buffer: Vec<u8>,
    size: usize,
    in_flight: bool,
}

impl View for ExportChannel {
    type V = ChannelState;

    closed spec fn view(&self) -> ChannelState {
        ChannelState { bytes: self.buffer@, in_flight: self.in_flight }
    }
}

impl ExportChannel {
    #[verifier::type_invariant]
    spec fn well_formed(self) -> bool {
        self.size == self.buffer@.len()
    }

    /// A channel that holds no text, with no export in flight.
    pub fn new() -> (r: Self)
        ensures
            r@ == ChannelState::initial(),
    {
        Self { buffer: Vec::new(), size: 0, in_flight: false }
    }

    /// Asks for the channel on behalf of an export.
    pub fn begin(&mut self) -> (code: ErrorCode)
        ensures
            (code, final(self)@) == old(self)@.begin(),
    {
        proof {
            use_type_invariant(&*self);
        }
        if self.in_flight {
            ErrorCode::Mutex
        } else {
            self.in_flight = true;
            ErrorCode::Success
        }
    }

    /// Ends the export that holds the channel: the document's text is made
    /// and put in the slot, and the channel is given back whether or not
    /// that went well.
    pub fn finish(&mut self, gltf: GLTF) -> (code: ErrorCode)
        ensures
            (code, final(self)@) == old(self)@.finish(
                if code == ErrorCode::Success {
                    Some(gltf.text())
                } else {
                    None
                },
            ),
    {
        proof {
            use_type_invariant(&*self);
        }
        if !self.in_flight {
            return ErrorCode::Mutex;
        }
        let mut text: Vec<u8> = Vec::new();
        let code = write_gltf(&mut text, gltf);
        if code == ErrorCode::Success {
            *self = ExportChannel { size: text.len(), buffer: text, in_flight: false };
        } else {
            self.in_flight = false;
        }
        code
    }

    /// Exports a document through the channel.
    pub fn export(&mut self, gltf: GLTF) -> (code: ErrorCode)
        ensures
            (code, final(self)@) == old(self)@.export(
                if code == ErrorCode::Success {
                    Some(gltf.text())
                } else {
                    None
                },
            ),
    {
        let code = self.begin();
        if code == ErrorCode::Success {
            self.finish(gltf)
        } else {
            code
        }
    }

    /// The length of the text in the slot.
    pub fn size(&self) -> (r: usize)
        ensures
            r == self@.bytes.len(),
    {
        proof {
            use_type_invariant(self);
        }
        self.size
    }

    /// The text in the slot.
    pub fn bytes(&self) -> (r: &Vec<u8>)
        ensures
            r@ == self@.bytes,
    {
        &self.buffer
    }
}

} // verus!
