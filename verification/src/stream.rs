//! What a writer writes, a parser reads back.
//!
//! The frames of a [`CCDataWriter`](crate::CCDataWriter) are fed to a
//! [`CCDataParser`](crate::CCDataParser) one by one. Where the packets that
//! wait fit into the next frame, the parser has them ready after that frame,
//! in the order in which they were queued.
//!
//! This is shown for a writer that holds no CEA-608 byte pairs and writes no
//! CEA-608 padding, for frames of at most 31 triples, which is what the
//! header of a frame can announce, and for packets that hold services and
//! whose codes are canonical.

use crate::packet::{dtvcc_triples, PacketView};
use crate::parser::{
    complete_packet, first_triple, leading_cea608, lemma_dtvcc_markers, ParserError, ParserView,
    TripleKind,
};
use crate::roundtrip::{lemma_packet_read_back, lemma_services_bytes_len};
use crate::writer::{cc_counts, dtvcc_padding, lemma_dtvcc_triples_len, WriterView};
use crate::Framerate;
use vstd::prelude::*;

verus! {

/// The `cc_data` triples of packets, one packet after the other.
pub open spec fn cc_data_of_all(packets: Seq<PacketView>) -> Seq<u8>
    decreases packets.len(),
{
    if packets.len() == 0 {
        Seq::empty()
    } else {
        packets[0].cc_data() + cc_data_of_all(packets.skip(1))
    }
}

/// Whether every one of `packets` keeps to the rules of a packet, holds a
/// service, and has canonical codes only.
pub open spec fn all_sendable(packets: Seq<PacketView>) -> bool {
    forall|i: int|
        0 <= i < packets.len() ==> (#[trigger] packets[i]).wf() && packets[i].services.len() > 0
            && PacketView::all_canonical(packets[i].services)
}

/// A packet that holds a service takes up an even number of bytes, which its
/// header byte announces, and one triple for each two of them.
pub proof fn lemma_packet_size(packet: PacketView)
    requires
        packet.wf(),
        packet.services.len() > 0,
    ensures
        packet.cc_count() >= 1,
        packet.bytes().len() == 2 * packet.cc_count(),
        packet.bytes()[0] == packet.hdr_byte(),
        PacketView::parse_hdr_byte(packet.hdr_byte()).1 + 1 == packet.bytes().len(),
        packet.cc_data().len() == 3 * packet.cc_count(),
{
    lemma_services_bytes_len(packet.services);
    let first = packet.services[0];
    assert(first.wf() && first.codes.len() > 0);
    assert(PacketView::services_len(packet.services) >= first.len());
    let s = packet.seq_no;
    let c = packet.cc_count() as u8;
    assert({
        let h = (s & 0x03) << 6 | (c & 0x3F);
        &&& c < 64 ==> h & 0x3F == c
        &&& c == 64 ==> h & 0x3F == 0
    }) by (bit_vector)
        requires
            c <= 64,
    ;
    lemma_dtvcc_triples_len(packet.bytes(), true);
}

/// The triples of packets that hold services are three bytes for each pair
/// of bytes of the packets.
pub proof fn lemma_cc_data_of_all_len(packets: Seq<PacketView>)
    requires
        all_sendable(packets),
    ensures
        cc_data_of_all(packets).len() == 3 * cc_counts(packets),
    decreases packets.len(),
{
    if packets.len() > 0 {
        let tail = packets.skip(1);
        assert forall|i: int| 0 <= i < tail.len() implies (#[trigger] tail[i]).wf()
            && tail[i].services.len() > 0 && PacketView::all_canonical(tail[i].services) by {
            assert(tail[i] == packets[i + 1]);
        }
        lemma_cc_data_of_all_len(tail);
        assert(packets[0].wf());
        lemma_packet_size(packets[0]);
    }
}

/// Where the frame has room for all that waits, the writer writes all of
/// it: what is left of the packet being written, then the packets of the
/// queue, in order.
pub proof fn lemma_emit_all(writer: WriterView, budget: nat)
    requires
        writer.wf(),
        all_sendable(writer.packets),
        writer.pending.len() / 3 + cc_counts(writer.packets) <= budget,
    ensures
        writer.emit_dtvcc(budget).1 == writer.pending + cc_data_of_all(writer.packets),
        writer.emit_dtvcc(budget).0 == (WriterView {
            pending: Seq::empty(),
            packets: Seq::empty(),
            ..writer
        }),
    decreases budget, writer.packets.len(),
{
    if writer.pending.len() == 0 {
        if writer.packets.len() == 0 {
            assert(writer.pending =~= Seq::empty());
            assert(writer.packets =~= Seq::empty());
            assert(writer.pending + cc_data_of_all(writer.packets) =~= Seq::<u8>::empty());
        } else {
            let first = writer.packets[0];
            let tail = writer.packets.skip(1);
            assert(first.wf() && first.services.len() > 0);
            lemma_packet_size(first);
            assert forall|i: int| 0 <= i < tail.len() implies (#[trigger] tail[i]).wf()
                && tail[i].services.len() > 0 && PacketView::all_canonical(tail[i].services) by {
                assert(tail[i] == writer.packets[i + 1]);
            }
            let next = WriterView { pending: first.cc_data(), packets: tail, ..writer };
            lemma_emit_all(next, budget);
            assert(writer.pending + cc_data_of_all(writer.packets) =~= first.cc_data()
                + cc_data_of_all(tail));
        }
    } else {
        let next = WriterView { pending: writer.pending.skip(3), ..writer };
        lemma_emit_all(next, (budget - 1) as nat);
        assert(writer.pending.take(3) + (next.pending + cc_data_of_all(writer.packets))
            =~= writer.pending + cc_data_of_all(writer.packets));
    }
}

/// Feeding triples one run after the other is feeding them all.
pub proof fn lemma_feed_concat(parser: ParserView, first: Seq<u8>, second: Seq<u8>)
    requires
        first.len() % 3 == 0,
    ensures
        parser.feed(first + second) == parser.feed(first).feed(second),
    decreases first.len(),
{
    if first.len() == 0 {
        assert(first + second =~= second);
    } else {
        let all = first + second;
        let next = parser.feed_triple(first[0], first[1], first[2]);
        assert(all[0] == first[0] && all[1] == first[1] && all[2] == first[2]);
        assert(all.skip(3) =~= first.skip(3) + second);
        lemma_feed_concat(next, first.skip(3), second);
    }
}

/// Padding triples change nothing in the parser.
pub proof fn lemma_feed_padding(parser: ParserView, count: nat)
    ensures
        parser.feed(dtvcc_padding(count)) == parser,
        dtvcc_padding(count).len() == 3 * count,
    decreases count,
{
    if count > 0 {
        let padding = dtvcc_padding(count);
        let control = 0xFAu8;
        lemma_dtvcc_markers();
        lemma_feed_padding(parser, (count - 1) as nat);
        assert(padding.skip(3) =~= dtvcc_padding((count - 1) as nat));
        assert(padding[0] == control);
    }
}

/// Continuation triples add their bytes to the packet that is being put
/// together, where the packet lacks at least these bytes.
pub proof fn lemma_feed_continuation(parser: ParserView, payload: Seq<u8>)
    requires
        parser.have_initial_ccp_header,
        payload.len() % 2 == 0,
        parser.ccp_bytes_needed >= payload.len(),
    ensures
        parser.feed(dtvcc_triples(payload, false)) == (ParserView {
            pending: parser.pending + payload,
            ccp_bytes_needed: (parser.ccp_bytes_needed - payload.len()) as nat,
            ..parser
        }),
    decreases payload.len(),
{
    if payload.len() == 0 {
        assert(parser.pending + payload =~= parser.pending);
    } else {
        let triples = dtvcc_triples(payload, false);
        let control = 0xFEu8;
        lemma_dtvcc_markers();
        assert(triples[0] == control && triples[1] == payload[0] && triples[2] == payload[1]);
        let next = parser.feed_triple(control, payload[0], payload[1]);
        assert(triples.skip(3) =~= dtvcc_triples(payload.skip(2), false));
        lemma_feed_continuation(next, payload.skip(2));
        assert(parser.pending.push(payload[0]).push(payload[1]) + payload.skip(2)
            =~= parser.pending + payload);
    }
}

/// The triples of a packet end the packet before it and leave the parser
/// with all the bytes of this packet, and lacking none.
pub proof fn lemma_feed_packet(parser: ParserView, packet: PacketView)
    requires
        packet.wf(),
        packet.services.len() > 0,
    ensures
        parser.feed(packet.cc_data()) == (ParserView {
            pending: packet.bytes(),
            packets: parser.packets + complete_packet(parser.pending),
            have_initial_ccp_header: true,
            ccp_bytes_needed: 0,
            ..parser
        }),
{
    lemma_packet_size(packet);
    let bytes = packet.bytes();
    let triples = packet.cc_data();
    let control = 0xFFu8;
    lemma_dtvcc_markers();
    assert(triples[0] == control && triples[1] == bytes[0] && triples[2] == bytes[1]);
    let next = parser.feed_triple(control, bytes[0], bytes[1]);
    assert(triples.skip(3) =~= dtvcc_triples(bytes.skip(2), false));
    assert(next.pending =~= seq![bytes[0], bytes[1]]);
    lemma_feed_continuation(next, bytes.skip(2));
    assert(next.pending + bytes.skip(2) =~= bytes);
}

/// The triples of packets leave the parser with the last packet in its
/// hands and all the packets before it ready.
pub proof fn lemma_feed_packets(parser: ParserView, packets: Seq<PacketView>)
    requires
        all_sendable(packets),
        packets.len() > 0,
    ensures
        parser.feed(cc_data_of_all(packets)) == (ParserView {
            pending: packets.last().bytes(),
            packets: parser.packets + complete_packet(parser.pending) + packets.drop_last(),
            have_initial_ccp_header: true,
            ccp_bytes_needed: 0,
            ..parser
        }),
    decreases packets.len(),
{
    let first = packets[0];
    let tail = packets.skip(1);
    assert(first.wf() && first.services.len() > 0 && PacketView::all_canonical(first.services));
    lemma_packet_size(first);
    lemma_feed_packet(parser, first);
    lemma_feed_concat(parser, first.cc_data(), cc_data_of_all(tail));
    let next = parser.feed(first.cc_data());
    if tail.len() == 0 {
        assert(cc_data_of_all(tail) =~= Seq::<u8>::empty());
        assert(first.cc_data() + cc_data_of_all(tail) =~= first.cc_data());
        assert(packets.drop_last() =~= Seq::<PacketView>::empty());
        assert(parser.packets + complete_packet(parser.pending) + packets.drop_last()
            =~= parser.packets + complete_packet(parser.pending));
    } else {
        assert forall|i: int| 0 <= i < tail.len() implies (#[trigger] tail[i]).wf()
            && tail[i].services.len() > 0 && PacketView::all_canonical(tail[i].services) by {
            assert(tail[i] == packets[i + 1]);
        }
        lemma_feed_packets(next, tail);
        lemma_packet_read_back(first);
        assert(complete_packet(first.bytes()) == seq![first]);
        assert(tail.last() == packets.last());
        assert(next.packets + seq![first] + tail.drop_last() =~= parser.packets + complete_packet(
            parser.pending,
        ) + packets.drop_last());
    }
}

/// Among the triples of DTVCC data there is no valid CEA-608 triple.
pub proof fn lemma_no_cea608_in_triples(payload: Seq<u8>, start: bool, rest: Seq<u8>)
    requires
        first_triple(rest, TripleKind::ValidCea608) is None,
    ensures
        first_triple(dtvcc_triples(payload, start) + rest, TripleKind::ValidCea608) is None,
    decreases payload.len(),
{
    let triples = dtvcc_triples(payload, start);
    let all = triples + rest;
    if payload.len() == 0 {
        assert(all =~= rest);
    } else {
        let control = if start {
            0xFFu8
        } else {
            0xFEu8
        };
        lemma_dtvcc_markers();
        assert(all[0] == control);
        if payload.len() == 1 {
            assert(all.skip(3) =~= rest);
        } else {
            lemma_no_cea608_in_triples(payload.skip(2), false, rest);
            assert(all.skip(3) =~= dtvcc_triples(payload.skip(2), false) + rest);
        }
    }
}

/// Among padding triples there is no valid triple of any kind.
pub proof fn lemma_no_valid_in_padding(count: nat)
    ensures
        first_triple(dtvcc_padding(count), TripleKind::ValidCea608) is None,
        first_triple(dtvcc_padding(count), TripleKind::ValidDtvcc) is None,
    decreases count,
{
    if count > 0 {
        let padding = dtvcc_padding(count);
        let control = 0xFAu8;
        lemma_dtvcc_markers();
        assert(padding[0] == control);
        lemma_no_valid_in_padding((count - 1) as nat);
        assert(padding.skip(3) =~= dtvcc_padding((count - 1) as nat));
    }
}

/// Among the triples of packets, with whatever padding follows, there is no
/// valid CEA-608 triple.
pub proof fn lemma_no_cea608_in_packets(packets: Seq<PacketView>, count: nat)
    ensures
        first_triple(cc_data_of_all(packets) + dtvcc_padding(count), TripleKind::ValidCea608)
            is None,
    decreases packets.len(),
{
    if packets.len() == 0 {
        lemma_no_valid_in_padding(count);
        assert(cc_data_of_all(packets) + dtvcc_padding(count) =~= dtvcc_padding(count));
    } else {
        let rest = cc_data_of_all(packets.skip(1)) + dtvcc_padding(count);
        lemma_no_cea608_in_packets(packets.skip(1), count);
        if packets[0].services.len() == 0 {
            assert(cc_data_of_all(packets) + dtvcc_padding(count) =~= rest);
        } else {
            lemma_no_cea608_in_triples(packets[0].bytes(), true, rest);
            assert(cc_data_of_all(packets) + dtvcc_padding(count) =~= dtvcc_triples(
                packets[0].bytes(),
                true,
            ) + rest);
        }
    }
}

impl ParserView {
    /// Whether the parser is between packets: it holds no bytes of a packet
    /// and waits for none.
    pub open spec fn idle(self) -> bool {
        self.pending.len() == 0 && self.ccp_bytes_needed == 0
    }
}

impl WriterView {
    /// Whether the writer holds DTVCC packets only, all of which fit into
    /// the next frame and can be read back: no CEA-608 byte pairs wait and
    /// none are padded, nothing is left of an earlier packet, and a frame
    /// holds no more than the 31 triples that its header can announce.
    pub open spec fn sends_whole_packets(self, framerate: Framerate) -> bool {
        &&& self.wf()
        &&& framerate.has_budget()
        &&& !self.output_cea608_padding
        &&& self.cea608_1.len() == 0
        &&& self.cea608_2.len() == 0
        &&& self.pending.len() == 0
        &&& all_sendable(self.packets)
        &&& cc_counts(self.packets) <= framerate.cc_count_budget() <= 31
    }
}

/// The frame that holds all of `packets` and has `count` triples: the
/// header, the triples of the packets, and padding for what is left.
pub open spec fn whole_frame(count: nat, packets: Seq<PacketView>) -> Seq<u8> {
    seq![0x80u8 | 0x40u8 | (count as usize & 0x1F) as u8, 0xFFu8] + cc_data_of_all(packets)
        + dtvcc_padding((count - cc_counts(packets)) as nat)
}

/// A writer whose packets all fit into the next frame writes all of them
/// into it, and is left with nothing to write.
pub proof fn lemma_write_whole_packets(writer: WriterView, framerate: Framerate)
    requires
        writer.sends_whole_packets(framerate),
    ensures
        cc_counts(writer.packets) <= writer.cc_count_budget(framerate) <= 31,
        writer.write(framerate).0 == (WriterView {
            pending: Seq::empty(),
            packets: Seq::empty(),
            ..writer
        }),
        writer.write(framerate).1 == whole_frame(
            writer.cc_count_budget(framerate) as nat,
            writer.packets,
        ),
{
    crate::lemma_budgets_ordered(framerate.denom() as int, framerate.numer() as int);
    let packets = writer.packets;
    let sent = cc_counts(packets);
    let budget = writer.cc_count_budget(framerate) as nat;
    assert(writer.cea608_pair_budget(framerate) == 0);
    assert(writer.emit_cea608(0, budget) == (writer, Seq::<u8>::empty()));
    assert(writer.pending =~= Seq::empty());
    lemma_emit_all(writer, budget);
    lemma_cc_data_of_all_len(packets);
    let dtvcc = cc_data_of_all(packets);
    assert(writer.pending + dtvcc =~= dtvcc);
    let spare = (budget - sent) as nat;
    if !writer.output_padding {
        assert(spare == 0);
        assert(dtvcc_padding(spare) =~= Seq::<u8>::empty());
    }
    assert(writer.write(framerate).1 =~= whole_frame(budget, packets));
}

/// A parser between packets accepts a frame that holds whole packets, and
/// then has these packets ready after those that it had ready before.
pub proof fn lemma_push_whole_frame(parser: ParserView, count: nat, packets: Seq<PacketView>)
    requires
        parser.idle(),
        all_sendable(packets),
        cc_counts(packets) <= count <= 31,
    ensures
        parser.push(whole_frame(count, packets)).1 == Ok::<(), ParserError>(()),
        parser.push(whole_frame(count, packets)).0.packets == parser.packets + packets,
        parser.push(whole_frame(count, packets)).0.idle(),
{
    let sent = cc_counts(packets);
    let spare = (count - sent) as nat;
    let dtvcc = cc_data_of_all(packets);
    let padding = dtvcc_padding(spare);
    let frame = whole_frame(count, packets);
    lemma_cc_data_of_all_len(packets);
    lemma_feed_padding(parser, spare);
    let n = count as usize;
    let first = 0x80u8 | 0x40u8 | (n & 0x1F) as u8;
    assert(first & 0x40 > 0 && first & 0x1F == n) by (bit_vector)
        requires
            first == 0x80u8 | 0x40u8 | (n & 0x1F) as u8,
            n <= 31,
    ;
    assert(frame[0] == first);
    assert(frame.len() == 2 + 3 * count);
    if count > 0 {
        let triples = frame.skip(2);
        assert(triples =~= dtvcc + padding);
        lemma_no_cea608_in_packets(packets, spare);
        lemma_push_dtvcc_only(parser, frame, packets, spare);
    } else {
        assert(packets.len() == 0) by {
            if packets.len() > 0 {
                assert(packets[0].wf() && packets[0].services.len() > 0);
                lemma_packet_size(packets[0]);
            }
        }
        assert(parser.packets + packets =~= parser.packets);
    }
}

/// What the parser makes of a frame whose triples are those of whole packets
/// and padding.
#[verifier::rlimit(30)]
proof fn lemma_push_dtvcc_only(
    parser: ParserView,
    frame: Seq<u8>,
    packets: Seq<PacketView>,
    spare: nat,
)
    requires
        parser.idle(),
        all_sendable(packets),
        ParserView::processes(frame),
        ParserView::cc_count(frame) * 3 + 2 == frame.len(),
        frame.skip(2) == cc_data_of_all(packets) + dtvcc_padding(spare),
        first_triple(frame.skip(2), TripleKind::ValidCea608) is None,
    ensures
        parser.push(frame).1 == Ok::<(), ParserError>(()),
        parser.push(frame).0.packets == parser.packets + packets,
        parser.push(frame).0.idle(),
{
    let triples = frame.skip(2);
    let dtvcc = cc_data_of_all(packets);
    let padding = dtvcc_padding(spare);
    lemma_cc_data_of_all_len(packets);
    lemma_feed_padding(parser, spare);
    let lead = triples[0];
    assert(triples.skip(0) =~= triples);
    if packets.len() == 0 {
        assert(dtvcc =~= Seq::<u8>::empty());
        assert(triples =~= padding);
        assert(spare > 0);
        assert(lead == 0xFAu8);
        lemma_dtvcc_markers();
        lemma_no_valid_in_padding(spare);
        assert(first_triple(triples, TripleKind::Dtvcc) == Some(0nat));
        assert(parser.packets + packets =~= parser.packets);
    } else {
        assert(packets[0].wf() && packets[0].services.len() > 0);
        lemma_packet_size(packets[0]);
        assert(lead == 0xFFu8);
        lemma_dtvcc_markers();
        assert(first_triple(triples, TripleKind::Dtvcc) == Some(0nat));
        assert(first_triple(triples, TripleKind::ValidDtvcc) == Some(0nat));
        let seen = parser.with_cea608(leading_cea608(triples));
        let start = ParserView { pending: Seq::empty(), ..seen };
        assert(parser.pending =~= Seq::empty());
        assert(dtvcc_triples(parser.pending, true) + triples.skip(0) =~= dtvcc + padding);
        lemma_feed_concat(start, dtvcc, padding);
        lemma_feed_packets(start, packets);
        let fed = start.feed(dtvcc);
        lemma_feed_padding(fed, spare);
        assert(start.feed(dtvcc + padding) == fed);
        lemma_last_packet_read_back(packets);
        lemma_nothing_to_complete();
        assert(start.packets + complete_packet(start.pending) + packets.drop_last()
            + complete_packet(packets.last().bytes()) =~= parser.packets + packets);
        assert(parser.push(frame).0 == fed.finish());
    }
}

/// The last of the packets is read back from its bytes.
proof fn lemma_last_packet_read_back(packets: Seq<PacketView>)
    requires
        all_sendable(packets),
        packets.len() > 0,
    ensures
        complete_packet(packets.last().bytes()) == seq![packets.last()],
{
    let last = packets.last();
    assert(last.wf() && PacketView::all_canonical(last.services));
    lemma_packet_read_back(last);
}

/// No bytes hold no packet.
proof fn lemma_nothing_to_complete()
    ensures
        complete_packet(Seq::empty()) == Seq::<PacketView>::empty(),
{
}

/// The frame of a writer whose packets all fit into it hands these packets
/// to the parser.
///
/// Where a writer holds nothing but packets that fit into the next frame,
/// and a parser is between packets, the parser accepts the frame that the
/// writer writes and then has the writer's packets ready, in their order and
/// after those that it had ready before. The writer is left with nothing to
/// write, and the parser is between packets again, so that the same holds of
/// the next frame.
pub proof fn lemma_frame_read_back(writer: WriterView, framerate: Framerate, parser: ParserView)
    requires
        writer.sends_whole_packets(framerate),
        parser.idle(),
    ensures
        writer.write(framerate).0.packets.len() == 0,
        writer.write(framerate).0.pending.len() == 0,
        parser.push(writer.write(framerate).1).1 == Ok::<(), ParserError>(()),
        parser.push(writer.write(framerate).1).0.packets == parser.packets + writer.packets,
        parser.push(writer.write(framerate).1).0.idle(),
{
    lemma_write_whole_packets(writer, framerate);
    lemma_push_whole_frame(parser, writer.cc_count_budget(framerate) as nat, writer.packets);
}

/// All the packets of `batches`, in order.
pub open spec fn all_packets(batches: Seq<Seq<PacketView>>) -> Seq<PacketView>
    decreases batches.len(),
{
    if batches.len() == 0 {
        Seq::empty()
    } else {
        batches[0] + all_packets(batches.skip(1))
    }
}

/// A writer and a parser after `batches`: for each batch in turn, its
/// packets are queued in the writer, the writer writes a frame, and the frame
/// is pushed into the parser. The last value says whether the parser has
/// accepted every frame.
pub open spec fn relay(
    writer: WriterView,
    parser: ParserView,
    framerate: Framerate,
    batches: Seq<Seq<PacketView>>,
) -> (WriterView, ParserView, bool)
    decreases batches.len(),
{
    if batches.len() == 0 {
        (writer, parser, true)
    } else {
        let loaded = WriterView { packets: writer.packets + batches[0], ..writer };
        let (written, frame) = loaded.write(framerate);
        let (read, result) = parser.push(frame);
        let (last_writer, last_parser, accepted) = relay(
            written,
            read,
            framerate,
            batches.skip(1),
        );
        (last_writer, last_parser, result is Ok && accepted)
    }
}

/// Packets that are written one frame at a time are read back in order.
///
/// A writer starts with nothing to write and a parser between packets. For
/// each frame, packets are queued that fit into the frame. Then the parser
/// accepts every frame, and in the end it has all the packets ready, in the
/// order in which they were queued, after those that it had ready before.
pub proof fn lemma_relay(
    writer: WriterView,
    parser: ParserView,
    framerate: Framerate,
    batches: Seq<Seq<PacketView>>,
)
    requires
        (WriterView { packets: Seq::empty(), ..writer }).sends_whole_packets(framerate),
        writer.packets.len() == 0,
        parser.idle(),
        forall|i: int|
            0 <= i < batches.len() ==> all_sendable(#[trigger] batches[i]) && cc_counts(batches[i])
                <= framerate.cc_count_budget(),
    ensures
        relay(writer, parser, framerate, batches).2,
        relay(writer, parser, framerate, batches).1.packets == parser.packets + all_packets(
            batches,
        ),
        relay(writer, parser, framerate, batches).1.idle(),
        relay(writer, parser, framerate, batches).0.packets.len() == 0,
    decreases batches.len(),
{
    if batches.len() == 0 {
        assert(parser.packets + all_packets(batches) =~= parser.packets);
    } else {
        let batch = batches[0];
        let tail = batches.skip(1);
        assert(writer.packets =~= Seq::empty());
        assert(writer.packets + batch =~= batch);
        let loaded = WriterView { packets: writer.packets + batch, ..writer };
        assert(all_sendable(batch) && cc_counts(batch) <= framerate.cc_count_budget());
        assert(loaded.wf());
        lemma_write_whole_packets(loaded, framerate);
        lemma_frame_read_back(loaded, framerate, parser);
        let (written, frame) = loaded.write(framerate);
        let (read, result) = parser.push(frame);
        assert(WriterView { packets: Seq::empty(), ..written } == written);
        assert forall|i: int| 0 <= i < tail.len() implies all_sendable(#[trigger] tail[i])
            && cc_counts(tail[i]) <= framerate.cc_count_budget() by {
            assert(tail[i] == batches[i + 1]);
        }
        lemma_relay(written, read, framerate, tail);
        assert(parser.packets + batch + all_packets(tail) =~= parser.packets + all_packets(
            batches,
        ));
    }
}

} // verus!
