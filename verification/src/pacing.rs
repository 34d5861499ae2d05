//! Packets that are spread over several frames are put together again.
//!
//! A frame holds only so many triples. Where the packets that wait do not
//! fit into one frame, the writer goes on with them in the frames that
//! follow, and the parser keeps the bytes of the packet that is cut by the
//! end of a frame until the rest arrives. Frame by frame, the packets that
//! the parser has ready and those that the writer still has to send add up
//! to the same packets in the same order.
//!
//! As in [`stream`](crate::stream), this is shown for a writer without
//! CEA-608 data, for frames of at most 31 triples and for packets that hold
//! services and canonical codes.

use crate::packet::{dtvcc_triples, PacketView};
use crate::parser::{
    complete_packet, first_triple, leading_cea608, lemma_dtvcc_markers, ParserError, ParserView,
    TripleKind,
};
use crate::roundtrip::lemma_packet_read_back;
use crate::stream::{
    all_packets, all_sendable, cc_data_of_all, lemma_cc_data_of_all_len, lemma_feed_concat,
    lemma_feed_continuation, lemma_feed_packet, lemma_feed_padding, lemma_no_valid_in_padding,
    lemma_packet_size, relay,
};
use crate::writer::{cc_counts, dtvcc_padding, least, lemma_dtvcc_triples_len, WriterView};
use crate::Framerate;
use vstd::prelude::*;

verus! {

/// The triples of the first bytes of a payload are the first triples of the
/// payload.
pub proof fn lemma_triples_of_prefix(payload: Seq<u8>, start: bool, pairs: int)
    requires
        0 <= 2 * pairs <= payload.len(),
    ensures
        dtvcc_triples(payload.take(2 * pairs), start) == dtvcc_triples(payload, start).take(
            3 * pairs,
        ),
    decreases pairs,
{
    lemma_dtvcc_triples_len(payload, start);
    if pairs == 0 {
        assert(payload.take(0) =~= Seq::<u8>::empty());
        assert(dtvcc_triples(payload, start).take(0) =~= Seq::<u8>::empty());
    } else {
        let head = payload.take(2 * pairs);
        lemma_triples_of_prefix(payload.skip(2), false, pairs - 1);
        lemma_dtvcc_triples_len(payload.skip(2), false);
        assert(head.skip(2) =~= payload.skip(2).take(2 * (pairs - 1)));
        assert(head[0] == payload[0] && head[1] == payload[1]);
        assert(dtvcc_triples(head, start) =~= dtvcc_triples(payload, start).take(3 * pairs));
    }
}

/// The first triples of a packet end the packet before it and leave the
/// parser with the first bytes of this packet, two for each triple.
pub proof fn lemma_feed_packet_prefix(parser: ParserView, packet: PacketView, triples: int)
    requires
        packet.wf(),
        packet.services.len() > 0,
        1 <= triples <= packet.cc_count(),
    ensures
        parser.feed(packet.cc_data().take(3 * triples)) == (ParserView {
            pending: packet.bytes().take(2 * triples),
            packets: parser.packets + complete_packet(parser.pending),
            have_initial_ccp_header: true,
            ccp_bytes_needed: (packet.bytes().len() - 2 * triples) as nat,
            ..parser
        }),
{
    lemma_packet_size(packet);
    lemma_dtvcc_markers();
    let bytes = packet.bytes();
    let head = bytes.take(2 * triples);
    lemma_triples_of_prefix(bytes, true, triples);
    let fed = dtvcc_triples(head, true);
    assert(fed[0] == 0xFFu8 && fed[1] == bytes[0] && fed[2] == bytes[1]);
    let next = parser.feed_triple(0xFFu8, bytes[0], bytes[1]);
    assert(fed.skip(3) =~= dtvcc_triples(head.skip(2), false));
    assert(next.pending =~= seq![bytes[0], bytes[1]]);
    lemma_feed_continuation(next, head.skip(2));
    assert(next.pending + head.skip(2) =~= head);
}

/// The parser after the first `sent` triples of the packets of `queue`,
/// which are at least one and no more than the packets have: the packets
/// that these triples go beyond are ready, and the parser holds the bytes
/// that have come of the packet that the last of them belongs to.
pub open spec fn parser_at(parser: ParserView, queue: Seq<PacketView>, sent: int) -> ParserView
    decreases queue.len(),
{
    if queue.len() == 0 {
        parser
    } else {
        let started = ParserView {
            packets: parser.packets + complete_packet(parser.pending),
            have_initial_ccp_header: true,
            ..parser
        };
        if sent <= queue[0].cc_count() {
            ParserView {
                pending: queue[0].bytes().take(2 * sent),
                ccp_bytes_needed: (queue[0].bytes().len() - 2 * sent) as nat,
                ..started
            }
        } else {
            parser_at(
                ParserView { pending: queue[0].bytes(), ccp_bytes_needed: 0, ..started },
                queue.skip(1),
                sent - queue[0].cc_count(),
            )
        }
    }
}

/// The packets of `queue` but the first are sendable as the whole queue is.
pub proof fn lemma_sendable_tail(queue: Seq<PacketView>)
    requires
        all_sendable(queue),
        queue.len() > 0,
    ensures
        all_sendable(queue.skip(1)),
        queue[0].wf(),
        queue[0].services.len() > 0,
        PacketView::all_canonical(queue[0].services),
        queue[0].cc_count() >= 1,
        cc_counts(queue) == queue[0].cc_count() + cc_counts(queue.skip(1)),
        cc_data_of_all(queue) == queue[0].cc_data() + cc_data_of_all(queue.skip(1)),
        queue[0].cc_data().len() == 3 * queue[0].cc_count(),
        queue[0].bytes().len() == 2 * queue[0].cc_count(),
{
    let tail = queue.skip(1);
    assert forall|i: int| 0 <= i < tail.len() implies (#[trigger] tail[i]).wf()
        && tail[i].services.len() > 0 && PacketView::all_canonical(tail[i].services) by {
        assert(tail[i] == queue[i + 1]);
    }
    assert(queue[0].wf());
    lemma_packet_size(queue[0]);
}

/// Feeding the first triples of the packets of a queue leaves the parser as
/// [`parser_at`] says.
pub proof fn lemma_feed_queue_prefix(parser: ParserView, queue: Seq<PacketView>, sent: int)
    requires
        all_sendable(queue),
        1 <= sent <= cc_counts(queue),
    ensures
        parser.feed(cc_data_of_all(queue).take(3 * sent)) == parser_at(parser, queue, sent),
    decreases queue.len(),
{
    lemma_sendable_tail(queue);
    let first = queue[0];
    let tail = queue.skip(1);
    lemma_cc_data_of_all_len(tail);
    if sent <= first.cc_count() {
        lemma_feed_packet_prefix(parser, first, sent);
        assert(cc_data_of_all(queue).take(3 * sent) =~= first.cc_data().take(3 * sent));
    } else {
        let more = sent - first.cc_count();
        lemma_feed_packet(parser, first);
        lemma_feed_concat(parser, first.cc_data(), cc_data_of_all(tail).take(3 * more));
        lemma_feed_queue_prefix(parser.feed(first.cc_data()), tail, more);
        assert(cc_data_of_all(queue).take(3 * sent) =~= first.cc_data() + cc_data_of_all(
            tail,
        ).take(3 * more));
    }
}

/// Every triple of DTVCC data is marked as valid DTVCC data.
pub proof fn lemma_triple_is_dtvcc(payload: Seq<u8>, start: bool, index: int)
    requires
        0 <= index,
        2 * index < payload.len(),
    ensures
        3 * index < dtvcc_triples(payload, start).len(),
        TripleKind::ValidDtvcc.holds(dtvcc_triples(payload, start)[3 * index]),
        !TripleKind::ValidCea608.holds(dtvcc_triples(payload, start)[3 * index]),
    decreases index,
{
    lemma_dtvcc_markers();
    lemma_dtvcc_triples_len(payload, start);
    if index > 0 {
        lemma_triple_is_dtvcc(payload.skip(2), false, index - 1);
        assert(dtvcc_triples(payload, start)[3 * index] == dtvcc_triples(payload.skip(2), false)[3
            * (index - 1)]);
    }
}

/// What is left to write of the packets of `queue` once their first `sent`
/// triples are written: the rest of the triples of the packet that the last
/// of these belongs to, and the packets after it.
pub open spec fn queue_at(queue: Seq<PacketView>, sent: int) -> (Seq<u8>, Seq<PacketView>)
    decreases queue.len(),
{
    if queue.len() == 0 {
        (Seq::empty(), Seq::empty())
    } else if sent <= queue[0].cc_count() {
        (queue[0].cc_data().skip(3 * sent), queue.skip(1))
    } else {
        queue_at(queue.skip(1), sent - queue[0].cc_count())
    }
}

/// Whether a writer that has written the first `sent` triples of the first
/// packet of `queue` goes on from there as it should: it writes the triples
/// that follow, as many as the frame has room for, and is left with the rest.
/// Among what it writes, and in `rest` after it, there is no valid CEA-608
/// triple.
pub open spec fn goes_on(
    writer: WriterView,
    queue: Seq<PacketView>,
    sent: int,
    budget: nat,
    rest: Seq<u8>,
) -> bool {
    let count = least(budget as int, cc_counts(queue) - sent);
    let (last, written) = writer.emit_dtvcc(budget);
    &&& 0 <= count
    &&& written == cc_data_of_all(queue).subrange(3 * sent, 3 * (sent + count))
    &&& last == (WriterView {
        pending: queue_at(queue, sent + count).0,
        packets: queue_at(queue, sent + count).1,
        ..writer
    })
    &&& first_triple(written + rest, TripleKind::ValidCea608) is None
    &&& count > 0 ==> TripleKind::ValidDtvcc.holds(written[0])
}

/// Whether a writer has written the first `sent` triples of the first packet
/// of `queue`, and has the other packets of `queue` in its queue.
pub open spec fn has_sent(writer: WriterView, queue: Seq<PacketView>, sent: int) -> bool {
    &&& all_sendable(queue)
    &&& queue.len() > 0
    &&& 0 <= sent <= queue[0].cc_count()
    &&& writer.pending == queue[0].cc_data().skip(3 * sent)
    &&& writer.packets == queue.skip(1)
}

/// A writer whose frame is full, or that has nothing left to write, writes
/// nothing more.
proof fn lemma_goes_on_nowhere(
    writer: WriterView,
    queue: Seq<PacketView>,
    sent: int,
    budget: nat,
    rest: Seq<u8>,
)
    requires
        has_sent(writer, queue, sent),
        first_triple(rest, TripleKind::ValidCea608) is None,
        budget == 0 || (writer.pending.len() == 0 && writer.packets.len() == 0),
    ensures
        goes_on(writer, queue, sent, budget, rest),
{
    lemma_sendable_tail(queue);
    let tail = queue.skip(1);
    let all = cc_data_of_all(queue);
    let (last, written) = writer.emit_dtvcc(budget);
    if budget != 0 {
        assert(tail =~= Seq::<PacketView>::empty());
        assert(cc_counts(tail) == 0);
    }
    assert(written =~= all.subrange(3 * sent, 3 * sent));
    assert(written + rest =~= rest);
    assert(last == writer);
}

/// A writer that has finished a packet goes on as it does from the start of
/// the next packet.
proof fn lemma_goes_on_to_next_packet(
    writer: WriterView,
    queue: Seq<PacketView>,
    sent: int,
    budget: nat,
    rest: Seq<u8>,
)
    requires
        has_sent(writer, queue, sent),
        budget > 0,
        writer.pending.len() == 0,
        writer.packets.len() > 0,
        goes_on(
            WriterView {
                pending: writer.packets[0].cc_data(),
                packets: writer.packets.skip(1),
                ..writer
            },
            queue.skip(1),
            0,
            budget,
            rest,
        ),
    ensures
        goes_on(writer, queue, sent, budget, rest),
{
    lemma_sendable_tail(queue);
    let first = queue[0];
    let tail = queue.skip(1);
    lemma_sendable_tail(tail);
    lemma_cc_data_of_all_len(tail);
    let all = cc_data_of_all(queue);
    let count = least(budget as int, cc_counts(queue) - sent);
    assert(sent == first.cc_count());
    assert(count >= 1);
    assert(cc_data_of_all(tail).subrange(0, 3 * count) =~= all.subrange(
        3 * sent,
        3 * (sent + count),
    ));
}

/// A writer in the middle of a packet writes the next triple of the packet
/// and goes on as it does from there.
proof fn lemma_goes_on_by_a_triple(
    writer: WriterView,
    queue: Seq<PacketView>,
    sent: int,
    budget: nat,
    rest: Seq<u8>,
)
    requires
        has_sent(writer, queue, sent),
        budget > 0,
        writer.pending.len() > 0,
        goes_on(
            WriterView { pending: writer.pending.skip(3), ..writer },
            queue,
            sent + 1,
            (budget - 1) as nat,
            rest,
        ),
    ensures
        goes_on(writer, queue, sent, budget, rest),
{
    lemma_sendable_tail(queue);
    let first = queue[0];
    let tail = queue.skip(1);
    lemma_cc_data_of_all_len(tail);
    let all = cc_data_of_all(queue);
    let count = least(budget as int, cc_counts(queue) - sent);
    let (last, written) = writer.emit_dtvcc(budget);
    let next = WriterView { pending: writer.pending.skip(3), ..writer };
    let (_, later) = next.emit_dtvcc((budget - 1) as nat);
    let triple = writer.pending.take(3);
    assert(sent < first.cc_count());
    assert(count >= 1);
    assert(written == triple + later);
    assert(triple =~= all.subrange(3 * sent, 3 * sent + 3));
    assert(triple + all.subrange(3 * (sent + 1), 3 * (sent + count)) =~= all.subrange(
        3 * sent,
        3 * (sent + count),
    ));
    lemma_triple_is_dtvcc(first.bytes(), true, sent);
    assert(written[0] == first.cc_data()[3 * sent]);
    assert((written + rest)[0] == written[0]);
    assert((written + rest).skip(3) =~= later + rest);
}

/// A writer that has written the first `sent` triples of the first packet of
/// `queue` goes on from there: it writes the triples that follow, as many as
/// the frame has room for, and is left with the rest.
pub proof fn lemma_emit_from(
    writer: WriterView,
    queue: Seq<PacketView>,
    sent: int,
    budget: nat,
    rest: Seq<u8>,
)
    requires
        has_sent(writer, queue, sent),
        first_triple(rest, TripleKind::ValidCea608) is None,
    ensures
        goes_on(writer, queue, sent, budget, rest),
    decreases budget, queue.len(),
{
    lemma_sendable_tail(queue);
    if budget == 0 || (writer.pending.len() == 0 && writer.packets.len() == 0) {
        lemma_goes_on_nowhere(writer, queue, sent, budget, rest);
    } else if writer.pending.len() == 0 {
        let tail = queue.skip(1);
        lemma_sendable_tail(tail);
        let next = WriterView {
            pending: writer.packets[0].cc_data(),
            packets: writer.packets.skip(1),
            ..writer
        };
        assert(next.pending =~= tail[0].cc_data().skip(0));
        lemma_emit_from(next, tail, 0, budget, rest);
        lemma_goes_on_to_next_packet(writer, queue, sent, budget, rest);
    } else {
        let next = WriterView { pending: writer.pending.skip(3), ..writer };
        assert(next.pending =~= queue[0].cc_data().skip(3 * (sent + 1)));
        lemma_emit_from(next, queue, sent + 1, (budget - 1) as nat, rest);
        lemma_goes_on_by_a_triple(writer, queue, sent, budget, rest);
    }
}

/// A writer that is between packets starts on the packets of its queue: it
/// writes their first triples, as many as the frame has room for, and is left
/// with the rest.
pub proof fn lemma_emit_from_idle(
    writer: WriterView,
    queue: Seq<PacketView>,
    budget: nat,
    rest: Seq<u8>,
)
    requires
        all_sendable(queue),
        writer.pending.len() == 0,
        writer.packets == queue,
        first_triple(rest, TripleKind::ValidCea608) is None,
    ensures
        ({
            let count = least(budget as int, cc_counts(queue) as int);
            let (last, written) = writer.emit_dtvcc(budget);
            &&& 0 <= count
            &&& written == cc_data_of_all(queue).take(3 * count)
            &&& count == 0 ==> last == writer
            &&& count > 0 ==> last == (WriterView {
                pending: queue_at(queue, count).0,
                packets: queue_at(queue, count).1,
                ..writer
            })
            &&& first_triple(written + rest, TripleKind::ValidCea608) is None
            &&& count > 0 ==> TripleKind::ValidDtvcc.holds(written[0])
        }),
{
    let (last, written) = writer.emit_dtvcc(budget);
    if budget == 0 || queue.len() == 0 {
        assert(written =~= cc_data_of_all(queue).take(0));
        assert(written + rest =~= rest);
    } else {
        lemma_sendable_tail(queue);
        let next = WriterView {
            pending: writer.packets[0].cc_data(),
            packets: writer.packets.skip(1),
            ..writer
        };
        assert(next.pending =~= queue[0].cc_data().skip(0));
        lemma_emit_from(next, queue, 0, budget, rest);
        let count = least(budget as int, cc_counts(queue) as int);
        assert(cc_data_of_all(queue).subrange(0, 3 * count) =~= cc_data_of_all(queue).take(
            3 * count,
        ));
    }
}

/// The packets of `queue` all of whose triples are among the first `sent`.
pub open spec fn done_at(queue: Seq<PacketView>, sent: int) -> Seq<PacketView>
    decreases queue.len(),
{
    if queue.len() == 0 || sent < queue[0].cc_count() {
        Seq::empty()
    } else {
        seq![queue[0]] + done_at(queue.skip(1), sent - queue[0].cc_count())
    }
}

/// The packets of `queue` that are not done once the first `sent` triples
/// are written, and the number of triples of the first of them that are.
pub open spec fn left_at(queue: Seq<PacketView>, sent: int) -> (Seq<PacketView>, int)
    decreases queue.len(),
{
    if queue.len() == 0 {
        (Seq::empty(), 0)
    } else if sent < queue[0].cc_count() {
        (queue, sent)
    } else {
        left_at(queue.skip(1), sent - queue[0].cc_count())
    }
}

/// Whether a writer and a parser are in step on the packets of `queue`,
/// which are those that the writer still has to send or to finish.
///
/// Either the writer is between packets, has `queue` as its queue, and the
/// parser is between packets too. Or the writer has sent `sent` triples of
/// the first packet of `queue`, and the parser holds the bytes that these
/// triples carry and lacks the others of that packet.
pub open spec fn in_step(
    writer: WriterView,
    parser: ParserView,
    queue: Seq<PacketView>,
    sent: int,
) -> bool {
    &&& all_sendable(queue)
    &&& if writer.pending.len() == 0 {
        &&& writer.packets == queue
        &&& sent == 0
        &&& parser.idle()
    } else {
        &&& queue.len() > 0
        &&& 1 <= sent < queue[0].cc_count()
        &&& writer.pending == queue[0].cc_data().skip(3 * sent)
        &&& writer.packets == queue.skip(1)
        &&& parser.pending == queue[0].bytes().take(2 * sent)
        &&& parser.ccp_bytes_needed == queue[0].bytes().len() - 2 * sent
    }
}

/// Once all the triples of a queue are written, nothing is left to write.
pub proof fn lemma_queue_at_end(queue: Seq<PacketView>)
    requires
        all_sendable(queue),
    ensures
        queue_at(queue, cc_counts(queue) as int).0.len() == 0,
        queue_at(queue, cc_counts(queue) as int).1.len() == 0,
    decreases queue.len(),
{
    if queue.len() > 0 {
        lemma_sendable_tail(queue);
        let tail = queue.skip(1);
        if tail.len() == 0 {
            assert(cc_counts(tail) == 0);
        } else {
            lemma_sendable_tail(tail);
            lemma_queue_at_end(tail);
        }
    }
}

/// After the first `sent` triples of a queue, and at the end of the frame,
/// the writer and the parser are in step on the packets that are not done,
/// and the parser has those ready that are.
pub proof fn lemma_in_step_at(
    writer: WriterView,
    parser: ParserView,
    queue: Seq<PacketView>,
    sent: int,
)
    requires
        all_sendable(queue),
        1 <= sent <= cc_counts(queue),
    ensures
        all_sendable(left_at(queue, sent).0),
        in_step(
            WriterView {
                pending: queue_at(queue, sent).0,
                packets: queue_at(queue, sent).1,
                ..writer
            },
            parser_at(parser, queue, sent).finish(),
            left_at(queue, sent).0,
            left_at(queue, sent).1,
        ),
        parser_at(parser, queue, sent).finish().packets == parser.packets + complete_packet(
            parser.pending,
        ) + done_at(queue, sent),
        done_at(queue, sent) + left_at(queue, sent).0 == queue,
        cc_counts(left_at(queue, sent).0) - left_at(queue, sent).1 == cc_counts(queue) - sent,
    decreases queue.len(),
{
    lemma_sendable_tail(queue);
    let first = queue[0];
    let tail = queue.skip(1);
    let count = first.cc_count() as int;
    let before = parser.packets + complete_packet(parser.pending);
    if sent < count {
        assert(before + done_at(queue, sent) =~= before);
        assert(done_at(queue, sent) + queue =~= queue);
    } else if sent == count {
        lemma_packet_read_back(first);
        assert(first.bytes().take(2 * sent) =~= first.bytes());
        assert(first.cc_data().skip(3 * sent).len() == 0);
        if tail.len() > 0 {
            lemma_sendable_tail(tail);
        }
        assert(left_at(queue, sent).0 == tail);
        assert(left_at(queue, sent).1 == 0);
        assert(done_at(tail, 0) =~= Seq::<PacketView>::empty());
        assert(done_at(queue, sent) =~= seq![first]);
        assert(seq![first] + tail =~= queue);
        assert(parser_at(parser, queue, sent).finish().pending =~= Seq::<u8>::empty());
    } else {
        lemma_packet_read_back(first);
        let next = ParserView {
            pending: first.bytes(),
            ccp_bytes_needed: 0,
            packets: before,
            have_initial_ccp_header: true,
            ..parser
        };
        lemma_in_step_at(writer, next, tail, sent - count);
        assert(complete_packet(first.bytes()) == seq![first]);
        assert(before + seq![first] + done_at(tail, sent - count) =~= before + done_at(
            queue,
            sent,
        ));
        assert(done_at(queue, sent) + left_at(queue, sent).0 =~= seq![first] + (done_at(
            tail,
            sent - count,
        ) + left_at(tail, sent - count).0));
        assert(seq![first] + tail =~= queue);
    }
}

impl WriterView {
    /// Whether the writer sends DTVCC packets only, in frames whose triples
    /// their header can announce: no CEA-608 byte pairs wait and none are
    /// padded, and a frame holds no more than 31 triples.
    pub open spec fn streams(self, framerate: Framerate) -> bool {
        &&& framerate.has_budget()
        &&& framerate.cc_count_budget() <= 31
        &&& !self.output_cea608_padding
        &&& self.cea608_1.len() == 0
        &&& self.cea608_2.len() == 0
    }
}

/// The frame of `count` triples that goes on with the packets of `queue`
/// after their first `sent` triples: the header, the next `more` triples of
/// the packets, and padding for what is left.
pub open spec fn paced_frame(count: int, queue: Seq<PacketView>, sent: int, more: int) -> Seq<u8> {
    seq![0x80u8 | 0x40u8 | (count as usize & 0x1F) as u8, 0xFFu8] + cc_data_of_all(queue).subrange(
        3 * sent,
        3 * (sent + more),
    ) + dtvcc_padding((count - more) as nat)
}

/// The frame that a writer writes when it is in step with a parser: it goes
/// on with the packets that it has to send, for as many triples as the frame
/// has room for.
#[verifier::rlimit(40)]
pub proof fn lemma_write_paced(
    writer: WriterView,
    framerate: Framerate,
    parser: ParserView,
    queue: Seq<PacketView>,
    sent: int,
)
    requires
        writer.streams(framerate),
        in_step(writer, parser, queue, sent),
    ensures
        ({
            let count = writer.cc_count_budget(framerate);
            let more = least(count, cc_counts(queue) - sent);
            let (last, frame) = writer.write(framerate);
            let triples = cc_data_of_all(queue).subrange(3 * sent, 3 * (sent + more));
            &&& 0 <= more <= count <= 31
            &&& frame == paced_frame(count, queue, sent, more)
            &&& triples.len() == 3 * more
            &&& more == 0 ==> last == writer
            &&& more > 0 ==> last == (WriterView {
                pending: queue_at(queue, sent + more).0,
                packets: queue_at(queue, sent + more).1,
                ..writer
            })
            &&& first_triple(
                triples + dtvcc_padding((count - more) as nat),
                TripleKind::ValidCea608,
            ) is None
            &&& more > 0 ==> TripleKind::ValidDtvcc.holds(triples[0])
            &&& more == 0 && count > 0 ==> queue.len() == 0
        }),
{
    crate::lemma_budgets_ordered(framerate.denom() as int, framerate.numer() as int);
    lemma_cc_data_of_all_len(queue);
    let count = writer.cc_count_budget(framerate);
    let due = cc_counts(queue) - sent;
    let more = least(count, due);
    assert(writer.cea608_pair_budget(framerate) == 0);
    if queue.len() > 0 {
        lemma_sendable_tail(queue);
    }
    assert(writer.pending.len() / 3 + cc_counts(writer.packets) == due);
    assert(writer.emit_cea608(0, count as nat) == (writer, Seq::<u8>::empty()));
    let padding = dtvcc_padding((count - more) as nat);
    lemma_no_valid_in_padding((count - more) as nat);
    if writer.pending.len() == 0 {
        lemma_emit_from_idle(writer, queue, count as nat, padding);
        assert(cc_data_of_all(queue).take(3 * more) =~= cc_data_of_all(queue).subrange(
            0,
            3 * more,
        ));
    } else {
        lemma_emit_from(writer, queue, sent, count as nat, padding);
    }
    let (last, dtvcc) = writer.emit_dtvcc(count as nat);
    if more == due {
        lemma_queue_at_end(queue);
    }
    if !writer.output_padding || more < due {
        assert(count == more);
        assert(padding =~= Seq::<u8>::empty());
    }
    assert(writer.write(framerate).1 =~= paced_frame(count, queue, sent, more));
}

/// What a parser that is in step with the writer makes of the writer's
/// frame: it accepts the frame and goes on with the packet that it holds.
#[verifier::rlimit(40)]
pub proof fn lemma_push_paced(
    writer: WriterView,
    parser: ParserView,
    queue: Seq<PacketView>,
    sent: int,
    count: int,
    more: int,
)
    requires
        in_step(writer, parser, queue, sent),
        0 <= more <= count <= 31,
        more <= cc_counts(queue) - sent,
        more == 0 && count > 0 ==> queue.len() == 0,
        first_triple(
            cc_data_of_all(queue).subrange(3 * sent, 3 * (sent + more)) + dtvcc_padding(
                (count - more) as nat,
            ),
            TripleKind::ValidCea608,
        ) is None,
        more > 0 ==> TripleKind::ValidDtvcc.holds(
            cc_data_of_all(queue).subrange(3 * sent, 3 * (sent + more))[0],
        ),
    ensures
        ({
            let frame = paced_frame(count, queue, sent, more);
            let (last, result) = parser.push(frame);
            &&& result == Ok::<(), ParserError>(())
            &&& more == 0 ==> last.pending == parser.pending && last.packets == parser.packets
                && last.ccp_bytes_needed == parser.ccp_bytes_needed
            &&& more > 0 ==> last == parser_at(
                ParserView {
                    pending: Seq::empty(),
                    ..parser.with_cea608(leading_cea608(frame.skip(2)))
                },
                queue,
                sent + more,
            ).finish()
        }),
{
    lemma_cc_data_of_all_len(queue);
    lemma_dtvcc_markers();
    let frame = paced_frame(count, queue, sent, more);
    let dtvcc = cc_data_of_all(queue).subrange(3 * sent, 3 * (sent + more));
    let spare = (count - more) as nat;
    let padding = dtvcc_padding(spare);
    lemma_feed_padding(parser, spare);
    lemma_no_valid_in_padding(spare);
    let n = count as usize;
    let first = 0x80u8 | 0x40u8 | (n & 0x1F) as u8;
    assert(first & 0x40 > 0 && first & 0x1F == n) by (bit_vector)
        requires
            first == 0x80u8 | 0x40u8 | (n & 0x1F) as u8,
            n <= 31,
    ;
    assert(frame[0] == first);
    assert(frame.len() == 2 + 3 * count);
    if count > 0 {
        let triples = frame.skip(2);
        assert(triples =~= dtvcc + padding);
        assert(triples.skip(0) =~= triples);
        if more == 0 {
            assert(triples =~= padding);
            assert(triples[0] == 0xFAu8);
            assert(first_triple(triples, TripleKind::Dtvcc) == Some(0nat));
        } else {
            assert(triples[0] == dtvcc[0]);
            assert(first_triple(triples, TripleKind::Dtvcc) == Some(0nat));
            assert(first_triple(triples, TripleKind::ValidDtvcc) == Some(0nat));
            let start = ParserView {
                pending: Seq::empty(),
                ..parser.with_cea608(leading_cea608(triples))
            };
            let total = sent + more;
            let replay = dtvcc_triples(parser.pending, true);
            if writer.pending.len() == 0 {
                assert(parser.pending =~= Seq::<u8>::empty());
                assert(replay =~= cc_data_of_all(queue).take(0));
            } else {
                lemma_sendable_tail(queue);
                lemma_triples_of_prefix(queue[0].bytes(), true, sent);
                assert(queue[0].cc_data().take(3 * sent) =~= cc_data_of_all(queue).take(
                    3 * sent,
                ));
            }
            assert(replay + triples.skip(0) =~= cc_data_of_all(queue).take(3 * total) + padding);
            lemma_feed_concat(start, cc_data_of_all(queue).take(3 * total), padding);
            lemma_feed_queue_prefix(start, queue, total);
            lemma_feed_padding(parser_at(start, queue, total), spare);
        }
    }
}

/// One frame keeps a writer and a parser in step.
///
/// A writer and a parser are in step on the packets of `queue`. The writer
/// writes a frame, and the frame is pushed into the parser. Then the parser
/// accepts the frame, and the two are in step again, on the packets that are
/// returned with the number of triples that are sent of the first of them.
/// The packets that the parser has ready and those still to be sent are the
/// same as before, in the same order. Of the triples that were due, as many
/// are sent as the frame has room for.
pub proof fn lemma_frame_in_step(
    writer: WriterView,
    framerate: Framerate,
    parser: ParserView,
    queue: Seq<PacketView>,
    sent: int,
) -> (next: (Seq<PacketView>, int))
    requires
        writer.streams(framerate),
        in_step(writer, parser, queue, sent),
    ensures
        writer.write(framerate).0.streams(framerate),
        parser.push(writer.write(framerate).1).1 == Ok::<(), ParserError>(()),
        in_step(
            writer.write(framerate).0,
            parser.push(writer.write(framerate).1).0,
            next.0,
            next.1,
        ),
        parser.push(writer.write(framerate).1).0.packets + next.0 == parser.packets + queue,
        cc_counts(next.0) - next.1 == cc_counts(queue) - sent - least(
            writer.cc_count_budget(framerate),
            cc_counts(queue) - sent,
        ),
{
    let count = writer.cc_count_budget(framerate);
    let more = least(count, cc_counts(queue) - sent);
    lemma_write_paced(writer, framerate, parser, queue, sent);
    lemma_push_paced(writer, parser, queue, sent, count, more);
    let frame = writer.write(framerate).1;
    if more == 0 {
        (queue, sent)
    } else {
        let start = ParserView {
            pending: Seq::empty(),
            ..parser.with_cea608(leading_cea608(frame.skip(2)))
        };
        lemma_in_step_at(writer, start, queue, sent + more);
        assert(complete_packet(start.pending) =~= Seq::<PacketView>::empty());
        let done = done_at(queue, sent + more);
        let next = left_at(queue, sent + more);
        assert(parser.packets + complete_packet(start.pending) + done + next.0 =~= parser.packets
            + (done + next.0));
        next
    }
}

/// A writer and a parser stay in step over any number of frames, whatever
/// packets are queued before each frame.
///
/// A writer and a parser are in step on the packets of `queue`. For each
/// frame, the packets of a batch are queued in the writer, the writer writes
/// a frame, and the frame is pushed into the parser. Then the parser accepts
/// every frame, and in the end the two are in step on the packets that are
/// returned. The packets that the parser has ready and those still to be
/// sent are, in this order, those that the parser had ready, those that
/// were still to be sent, and those of the batches. So once the writer has
/// nothing left to write, the parser has all of them ready.
pub proof fn lemma_relay_in_step(
    writer: WriterView,
    parser: ParserView,
    framerate: Framerate,
    batches: Seq<Seq<PacketView>>,
    queue: Seq<PacketView>,
    sent: int,
) -> (next: (Seq<PacketView>, int))
    requires
        writer.streams(framerate),
        in_step(writer, parser, queue, sent),
        forall|i: int| 0 <= i < batches.len() ==> all_sendable(#[trigger] batches[i]),
    ensures
        relay(writer, parser, framerate, batches).2,
        in_step(
            relay(writer, parser, framerate, batches).0,
            relay(writer, parser, framerate, batches).1,
            next.0,
            next.1,
        ),
        relay(writer, parser, framerate, batches).1.packets + next.0 == parser.packets + queue
            + all_packets(batches),
        relay(writer, parser, framerate, batches).0.pending.len() == 0 && relay(
            writer,
            parser,
            framerate,
            batches,
        ).0.packets.len() == 0 ==> relay(writer, parser, framerate, batches).1.packets
            == parser.packets + queue + all_packets(batches),
    decreases batches.len(),
{
    if batches.len() == 0 {
        assert(parser.packets + queue + all_packets(batches) =~= parser.packets + queue);
        if writer.pending.len() == 0 && writer.packets.len() == 0 {
            assert(queue =~= Seq::<PacketView>::empty());
            assert(parser.packets + queue =~= parser.packets);
        }
        (queue, sent)
    } else {
        let batch = batches[0];
        let tail = batches.skip(1);
        let loaded = WriterView { packets: writer.packets + batch, ..writer };
        let longer = queue + batch;
        assert(all_sendable(batch));
        assert(all_sendable(longer)) by {
            assert forall|i: int| 0 <= i < longer.len() implies (#[trigger] longer[i]).wf()
                && longer[i].services.len() > 0 && PacketView::all_canonical(
                longer[i].services,
            ) by {
                if i < queue.len() {
                    assert(longer[i] == queue[i]);
                } else {
                    assert(longer[i] == batch[i - queue.len()]);
                }
            }
        }
        if writer.pending.len() > 0 {
            assert(longer[0] == queue[0]);
            assert(loaded.packets =~= longer.skip(1));
        }
        let step = lemma_frame_in_step(loaded, framerate, parser, longer, sent);
        let (written, frame) = loaded.write(framerate);
        let (read, result) = parser.push(frame);
        assert forall|i: int| 0 <= i < tail.len() implies all_sendable(#[trigger] tail[i]) by {
            assert(tail[i] == batches[i + 1]);
        }
        let next = lemma_relay_in_step(written, read, framerate, tail, step.0, step.1);
        assert(read.packets + step.0 + all_packets(tail) =~= parser.packets + queue + (batch
            + all_packets(tail)));
        assert(parser.packets + queue + all_packets(batches) =~= parser.packets + queue + (batch
            + all_packets(tail)));
        let last = relay(writer, parser, framerate, batches);
        if last.0.pending.len() == 0 && last.0.packets.len() == 0 {
            assert(next.0 =~= Seq::<PacketView>::empty());
            assert(last.1.packets + next.0 =~= last.1.packets);
        }
        next
    }
}

} // verus!
