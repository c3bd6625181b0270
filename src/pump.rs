use vstd::prelude::*;
use vstd::slice::{slice_subrange, slice_to_vec};

use crate::error::RelayError;
use crate::message::WsMessage;
use crate::READ_CHUNK_LEN;

verus! {

/// What the WebSocket-to-TCP pump does with the next item of the WebSocket stream.
#[derive(Debug, PartialEq, Eq)]
pub enum InboundStep {
    /// Write these bytes, whole, to the TCP write half.
    Forward(Vec<u8>),
    /// Nothing to write; wait for the next message.
    Skip,
    /// Stop the pump with this result.
    Finish(Result<(), RelayError>),
}

/// What the TCP-to-WebSocket pump does after a read from the TCP read half.
#[derive(Debug, PartialEq, Eq)]
pub enum OutboundStep {
    /// Send this message on the WebSocket write half, then read again.
    Send(WsMessage),
    /// Stop the pump with this result.
    Finish(Result<(), RelayError>),
}

/// `s` is the step taken for the received message `m`.
pub open spec fn inbound_step_for(m: WsMessage, s: InboundStep) -> bool {
    match s {
        InboundStep::Forward(v) => m.carries_data() && v@ == m.data(),
        InboundStep::Skip => !m.carries_data(),
        InboundStep::Finish(_) => false,
    }
}

/// `s` is the step taken for a non-empty read that produced `chunk`.
pub open spec fn outbound_step_for(chunk: Seq<u8>, s: OutboundStep) -> bool {
    match s {
        OutboundStep::Send(WsMessage::Binary(v)) => v@ == chunk,
        _ => false,
    }
}

/// Decides the WebSocket-to-TCP pump's next move from what the read half yielded:
/// `None` is the end of the stream.
pub fn ws_to_tcp_step(incoming: Option<Result<WsMessage, RelayError>>) -> (r: InboundStep)
    ensures
        match incoming {
            None => r == InboundStep::Finish(Ok(())),
            Some(Err(e)) => r == InboundStep::Finish(Err(e)),
            Some(Ok(m)) => inbound_step_for(m, r),
        },
{
    match incoming {
        None => InboundStep::Finish(Ok(())),
        Some(Err(e)) => InboundStep::Finish(Err(e)),
        Some(Ok(m)) => {
            if m.is_data() {
                InboundStep::Forward(m.into_data())
            } else {
                InboundStep::Skip
            }
        },
    }
}

/// Decides the TCP-to-WebSocket pump's next move after a read into `buffer`, the
/// pump's read buffer: `Ok(n)` is the number of bytes read, and zero is the orderly
/// close of the peer.
pub fn tcp_to_ws_step(read: Result<usize, RelayError>, buffer: &[u8]) -> (r: OutboundStep)
    requires
        buffer@.len() == READ_CHUNK_LEN,
        read matches Ok(n) ==> n <= buffer@.len(),
    ensures
        r matches OutboundStep::Send(m) ==> 0 < m.payload().len() <= READ_CHUNK_LEN,
        match read {
            Ok(n) => if n == 0 {
                r == OutboundStep::Finish(Ok(()))
            } else {
                outbound_step_for(buffer@.take(n as int), r)
            },
            Err(e) => r == OutboundStep::Finish(Err(e)),
        },
{
    match read {
        Ok(n) => {
            if n == 0 {
                OutboundStep::Finish(Ok(()))
            } else {
                let chunk = slice_to_vec(slice_subrange(buffer, 0, n));
                proof {
                    assert(buffer@.subrange(0, n as int) =~= buffer@.take(n as int));
                }
                OutboundStep::Send(WsMessage::Binary(chunk))
            }
        },
        Err(e) => OutboundStep::Finish(Err(e)),
    }
}

/// The bytes written to the TCP side over a run of inbound steps.
pub open spec fn forwarded_bytes(steps: Seq<InboundStep>) -> Seq<u8>
    decreases steps.len(),
{
    if steps.len() == 0 {
        Seq::empty()
    } else {
        let rest = forwarded_bytes(steps.drop_last());
        match steps.last() {
            InboundStep::Forward(v) => rest + v@,
            _ => rest,
        }
    }
}

/// The data bytes of a run of WebSocket messages, in order.
pub open spec fn data_stream(msgs: Seq<WsMessage>) -> Seq<u8>
    decreases msgs.len(),
{
    if msgs.len() == 0 {
        Seq::empty()
    } else {
        data_stream(msgs.drop_last()) + msgs.last().data()
    }
}

/// The payloads of a run of outbound steps, concatenated in sending order.
pub open spec fn sent_bytes(steps: Seq<OutboundStep>) -> Seq<u8>
    decreases steps.len(),
{
    if steps.len() == 0 {
        Seq::empty()
    } else {
        let rest = sent_bytes(steps.drop_last());
        match steps.last() {
            OutboundStep::Send(m) => rest + m.payload(),
            _ => rest,
        }
    }
}

/// A run of chunks concatenated in order.
pub open spec fn concat_chunks(chunks: Seq<Seq<u8>>) -> Seq<u8>
    decreases chunks.len(),
{
    if chunks.len() == 0 {
        Seq::empty()
    } else {
        concat_chunks(chunks.drop_last()) + chunks.last()
    }
}

/// A run of non-empty reads, each at most one read buffer long: the chunks of
/// which `tcp_to_ws_step` makes frames.
pub open spec fn valid_reads(chunks: Seq<Seq<u8>>) -> bool {
    forall|i: int| 0 <= i < chunks.len() ==> 0 < #[trigger] chunks[i].len() <= READ_CHUNK_LEN
}

/// Whatever sequence of text and binary messages the client sends, the TCP side
/// receives the concatenation of their payloads in order, with nothing added,
/// dropped or reordered; control messages contribute nothing.
pub proof fn lemma_inbound_bytes_preserved(msgs: Seq<WsMessage>, steps: Seq<InboundStep>)
    requires
        steps.len() == msgs.len(),
        forall|i: int| 0 <= i < msgs.len() ==> inbound_step_for(msgs[i], #[trigger] steps[i]),
    ensures
        forwarded_bytes(steps) == data_stream(msgs),
    decreases msgs.len(),
{
    if msgs.len() > 0 {
        let n = msgs.len() - 1;
        assert forall|i: int| 0 <= i < n implies inbound_step_for(
            msgs.drop_last()[i],
            #[trigger] steps.drop_last()[i],
        ) by {
            assert(inbound_step_for(msgs[i], steps[i]));
        }
        lemma_inbound_bytes_preserved(msgs.drop_last(), steps.drop_last());
        assert(inbound_step_for(msgs[n], steps[n]));
        if !msgs.last().carries_data() {
            assert(msgs.last().data() =~= Seq::<u8>::empty());
            assert(data_stream(msgs) =~= data_stream(msgs.drop_last()));
        }
    }
}

/// Whatever chunks the upstream reads return, the client receives one binary frame
/// per read, no frame longer than a read buffer, and the frames' payloads
/// concatenated in order are exactly the bytes read.
pub proof fn lemma_outbound_bytes_preserved(chunks: Seq<Seq<u8>>, steps: Seq<OutboundStep>)
    requires
        valid_reads(chunks),
        steps.len() == chunks.len(),
        forall|i: int| 0 <= i < chunks.len() ==> outbound_step_for(chunks[i], #[trigger] steps[i]),
    ensures
        sent_bytes(steps) == concat_chunks(chunks),
        forall|i: int|
            0 <= i < steps.len() ==> (#[trigger] steps[i] matches OutboundStep::Send(m) && m is Binary
                && m.payload().len() <= READ_CHUNK_LEN),
    decreases chunks.len(),
{
    assert forall|i: int| 0 <= i < steps.len() implies (#[trigger] steps[i] matches OutboundStep::Send(
        m,
    ) && m is Binary && m.payload().len() <= READ_CHUNK_LEN) by {
        assert(outbound_step_for(chunks[i], steps[i]));
        assert(0 < chunks[i].len() <= READ_CHUNK_LEN);
    }
    if chunks.len() > 0 {
        let n = chunks.len() - 1;
        assert forall|i: int| 0 <= i < n implies outbound_step_for(
            chunks.drop_last()[i],
            #[trigger] steps.drop_last()[i],
        ) by {
            assert(outbound_step_for(chunks[i], steps[i]));
        }
        assert forall|i: int| 0 <= i < n implies 0 < #[trigger] chunks.drop_last()[i].len()
            <= READ_CHUNK_LEN by {
            assert(0 < chunks[i].len() <= READ_CHUNK_LEN);
        }
        lemma_outbound_bytes_preserved(chunks.drop_last(), steps.drop_last());
        assert(outbound_step_for(chunks[n], steps[n]));
    }
}

proof fn lemma_concat_len_bound(chunks: Seq<Seq<u8>>)
    requires
        valid_reads(chunks),
    ensures
        concat_chunks(chunks).len() <= chunks.len() * READ_CHUNK_LEN,
    decreases chunks.len(),
{
    if chunks.len() > 0 {
        let n = chunks.len() - 1;
        assert forall|i: int| 0 <= i < n implies 0 < #[trigger] chunks.drop_last()[i].len()
            <= READ_CHUNK_LEN by {
            assert(0 < chunks[i].len() <= READ_CHUNK_LEN);
        }
        lemma_concat_len_bound(chunks.drop_last());
        assert(0 < chunks[n].len() <= READ_CHUNK_LEN);
        assert((n + 1) * READ_CHUNK_LEN == n * READ_CHUNK_LEN + READ_CHUNK_LEN) by (nonlinear_arith);
    }
}

/// Two read buffers' worth of bytes written upstream at once reach the client in
/// at least two binary frames, whose payloads concatenated are those bytes,
/// however the transport split them into reads.
pub proof fn lemma_double_chunk_spans_frames(
    data: Seq<u8>,
    chunks: Seq<Seq<u8>>,
    steps: Seq<OutboundStep>,
)
    requires
        data.len() == 2 * READ_CHUNK_LEN,
        valid_reads(chunks),
        concat_chunks(chunks) == data,
        steps.len() == chunks.len(),
        forall|i: int| 0 <= i < chunks.len() ==> outbound_step_for(chunks[i], #[trigger] steps[i]),
    ensures
        steps.len() >= 2,
        sent_bytes(steps) == data,
        forall|i: int|
            0 <= i < steps.len() ==> (#[trigger] steps[i] matches OutboundStep::Send(m) && m is Binary),
{
    lemma_concat_len_bound(chunks);
    lemma_outbound_bytes_preserved(chunks, steps);
    if chunks.len() < 2 {
        assert(chunks.len() * READ_CHUNK_LEN <= READ_CHUNK_LEN) by (nonlinear_arith)
            requires chunks.len() < 2;
    }
}

} // verus!
