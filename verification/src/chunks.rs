//! Reassembly of transport payloads that arrive split into chunks.
//!
//! The link buffers fragments for at most one in-flight message.  An
//! initial chunk carries the declared total size and always starts a
//! fresh assembly, abandoning any previous partial buffer; subsequent
//! chunks append, and the payload is handed on exactly when the
//! accumulated length equals the declared total.  A payload delivered
//! whole bypasses the buffer.

use vstd::prelude::*;

verus! {

/// The topics the link routes, as plain values; the transport layer
/// maps topic strings to these before handing a delivery in.
#[derive(Clone, Copy, Debug, PartialEq, Eq, Structural)]
pub enum Topic {
    /// The credential-mutation topic.
    User,
    /// A remote door-open override, with no payload.
    DoorOpen,
    /// Anything else; logged and ignored downstream.
    Other,
}

/// How the transport flagged one delivery.
#[derive(Clone, Copy, Debug, PartialEq, Eq, Structural)]
pub enum Detail {
    /// The whole payload is in this delivery.
    Complete,
    /// First fragment of a larger payload of `total` bytes.
    Initial { total: usize },
    /// A further fragment of the payload announced by the last
    /// initial chunk.
    Subsequent,
}

/// One partial message being reassembled.
pub struct Assembly {
    pub topic: Topic,
    pub expected: usize,
    pub buf: Vec<u8>,
}

/// The reassembly state owned by the network loop.
pub struct ChunkAssembler {
    pub pending: Option<Assembly>,
}

/// What one delivery does to the reassembly state and what payload,
/// if any, it completes: `(state, emitted)`.
pub open spec fn spec_step(
    st: Option<(Topic, int, Seq<u8>)>,
    topic: Topic,
    detail: Detail,
    data: Seq<u8>,
) -> (Option<(Topic, int, Seq<u8>)>, Option<(Topic, Seq<u8>)>) {
    match detail {
        Detail::Complete => (st, Some((topic, data))),
        Detail::Initial { total } => (Some((topic, total as int, data)), None),
        Detail::Subsequent => match st {
            None => (None, None),
            Some((t, expected, buf)) => {
                let grown = buf + data;
                if grown.len() == expected {
                    (None, Some((t, grown)))
                } else {
                    (Some((t, expected, grown)), None)
                }
            },
        },
    }
}

/// A completed delivery, abstracted to plain values.
pub open spec fn emit_view(r: Option<(Topic, Vec<u8>)>) -> Option<(Topic, Seq<u8>)> {
    match r {
        Some(p) => Some((p.0, p.1@)),
        None => None,
    }
}

impl ChunkAssembler {
    /// The in-flight assembly, abstracted to plain values.
    pub open spec fn model(self) -> Option<(Topic, int, Seq<u8>)> {
        match self.pending {
            Some(a) => Some((a.topic, a.expected as int, a.buf@)),
            None => None,
        }
    }

    /// An assembler with nothing in flight.
    pub fn new() -> (c: ChunkAssembler)
        ensures
            c.model() is None,
    {
        ChunkAssembler { pending: None }
    }

    /// Feeds one delivery; returns a completed payload with its
    /// topic, or nothing while a message is still partial.  A
    /// subsequent chunk with no assembly in flight is dropped.
    pub fn on_message(&mut self, topic: Topic, detail: Detail, data: Vec<u8>) -> (r: Option<
        (Topic, Vec<u8>),
    >)
        ensures
            (final(self).model(), emit_view(r)) == spec_step(old(self).model(), topic, detail, data@),
    {
        match detail {
            Detail::Complete => Some((topic, data)),
            Detail::Initial { total } => {
                self.pending = Some(Assembly { topic, expected: total, buf: data });
                None
            },
            Detail::Subsequent => {
                let pending = self.pending.take();
                match pending {
                    None => None,
                    Some(mut part) => {
                        let mut data = data;
                        part.buf.append(&mut data);
                        if part.buf.len() == part.expected {
                            Some((part.topic, part.buf))
                        } else {
                            self.pending = Some(part);
                            None
                        }
                    },
                }
            },
        }
    }
}

/// Splitting a payload into an initial chunk and two further chunks
/// with the declared total equal to their combined length hands on
/// exactly the original bytes, on the original topic, at the last
/// chunk and not before -- so decoding it yields the same message as
/// a payload delivered whole, which is handed on unchanged.
pub proof fn lemma_chunked_reassembly(
    st: Option<(Topic, int, Seq<u8>)>,
    topic: Topic,
    c1: Seq<u8>,
    c2: Seq<u8>,
    c3: Seq<u8>,
)
    requires
        c3.len() > 0,
        c1.len() + c2.len() + c3.len() <= usize::MAX,
    ensures
        ({
            let payload = c1 + c2 + c3;
            let total = payload.len() as usize;
            let (st1, e1) = spec_step(st, topic, Detail::Initial { total }, c1);
            let (st2, e2) = spec_step(st1, topic, Detail::Subsequent, c2);
            let (st3, e3) = spec_step(st2, topic, Detail::Subsequent, c3);
            &&& e1 is None
            &&& e2 is None
            &&& e3 == Some((topic, payload))
            &&& st3 is None
            &&& spec_step(st, topic, Detail::Complete, payload).1 == Some((topic, payload))
        }),
{
    let payload = c1 + c2 + c3;
    assert((c1 + c2) + c3 =~= payload);
}

} // verus!
