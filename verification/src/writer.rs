//! The writer of `cc_data` frames.
//!
//! The writer keeps queues of DTVCC packets and of CEA-608 byte pairs for
//! both fields. Each call of [`CCDataWriter::write`] writes one frame. The
//! frame rate says how many CEA-608 byte pairs and how many triples in all a
//! frame may hold. The CEA-608 triples come first, the two fields taking
//! turns over frames; then DTVCC packets fill what is left, and what does
//! not fit of a packet goes into the frames that follow.

use crate::packet::{dtvcc_triples, DTVCCPacket, PacketView};
use crate::parser::packet_views;
use crate::scale::{duration_from_micros, duration_micros, mul_div_ceil, mul_div_ceil_u64};
use crate::{Cea608, Framerate};
use std::collections::VecDeque;
use std::time::Duration;
use vstd::prelude::*;

verus! {

/// Why something could not be added to what will be written.
#[derive(Debug, Clone, Copy, PartialEq, Eq, Structural)]
pub enum WriterError {
    /// Adding the data would overflow by this many bytes.
    WouldOverflow(usize),
    /// Nothing can be added here.
    ReadOnly,
    /// A service without codes cannot be added to a packet.
    EmptyService,
}

/// The number of `cc_data` triples that packets take up.
pub open spec fn cc_counts(packets: Seq<PacketView>) -> nat
    decreases packets.len(),
{
    if packets.len() == 0 {
        0
    } else {
        packets[0].cc_count() + cc_counts(packets.skip(1))
    }
}

/// The number of bytes that packets take up.
pub open spec fn packets_len(packets: Seq<PacketView>) -> nat
    decreases packets.len(),
{
    if packets.len() == 0 {
        0
    } else {
        packets[0].len() + packets_len(packets.skip(1))
    }
}

/// `count` padding triples for the DTVCC stream: invalid continuations.
pub open spec fn dtvcc_padding(count: nat) -> Seq<u8>
    decreases count,
{
    if count == 0 {
        Seq::empty()
    } else {
        seq![0xFAu8, 0x00u8, 0x00u8] + dtvcc_padding((count - 1) as nat)
    }
}

/// The smaller of two numbers.
pub open spec fn least(a: int, b: int) -> int {
    if a <= b {
        a
    } else {
        b
    }
}

/// The larger of two numbers.
pub open spec fn greatest(a: int, b: int) -> int {
    if a >= b {
        a
    } else {
        b
    }
}

/// A [`CCDataWriter`] as a mathematical value.
pub struct WriterView {
    /// Whether CEA-608 padding is written where a field has nothing to send.
    pub output_cea608_padding: bool,
    /// Whether DTVCC padding is written where there is no packet to send.
    pub output_padding: bool,
    /// The packets that wait to be written, the oldest first.
    pub packets: Seq<PacketView>,
    /// The triples of the packet that is being written that are still to be
    /// written.
    pub pending: Seq<u8>,
    /// The byte pairs of field 1 that wait to be written, the oldest first.
    pub cea608_1: Seq<(u8, u8)>,
    /// The byte pairs of field 2 that wait to be written, the oldest first.
    pub cea608_2: Seq<(u8, u8)>,
    /// Whether the last CEA-608 turn was that of field 1.
    pub last_cea608_was_field1: bool,
}

impl WriterView {
    /// What every writer holds to: its packets keep to the rules of a packet,
    /// and what is left of the packet being written is whole triples.
    pub open spec fn wf(self) -> bool {
        &&& forall|i: int| 0 <= i < self.packets.len() ==> (#[trigger] self.packets[i]).wf()
        &&& self.pending.len() % 3 == 0
    }

    /// The number of CEA-608 turns of the next frame: what a frame holds at
    /// this frame rate, and without padding no more than are needed. A byte
    /// pair of field 2 needs two turns, since field 1 goes first.
    pub open spec fn cea608_pair_budget(self, framerate: Framerate) -> int {
        if self.output_cea608_padding {
            framerate.cea608_pair_budget()
        } else {
            least(
                framerate.cea608_pair_budget(),
                greatest(self.cea608_1.len() as int, self.cea608_2.len() as int * 2),
            )
        }
    }

    /// The number of triples of the next frame: what a frame holds at this
    /// frame rate, and without padding no more than the CEA-608 turns and the
    /// triples of the waiting packets.
    pub open spec fn cc_count_budget(self, framerate: Framerate) -> int {
        if self.output_padding {
            framerate.cc_count_budget()
        } else {
            least(
                framerate.cc_count_budget(),
                self.cea608_pair_budget(framerate) + self.pending.len() / 3 + cc_counts(
                    self.packets,
                ),
            )
        }
    }

    /// The two header bytes of the next frame: the process flag and the low
    /// five bits of the number of triples, then `0xFF`.
    pub open spec fn header(self, framerate: Framerate) -> Seq<u8> {
        seq![0x80u8 | 0x40u8 | (self.cc_count_budget(framerate) as usize & 0x1F) as u8, 0xFFu8]
    }

    /// One CEA-608 turn: the writer after it and the triple written, if any.
    ///
    /// The turns go to field 1 and field 2 alternately. On its turn, field 1
    /// sends its oldest byte pair; if it has none, a valid empty pair where
    /// field 2 has something to send, else an invalid empty pair where
    /// padding is asked for. Field 2 sends its oldest byte pair, or an
    /// invalid empty pair where padding is asked for.
    pub open spec fn cea608_turn(self) -> (WriterView, Seq<u8>) {
        if !self.last_cea608_was_field1 {
            let next = WriterView { last_cea608_was_field1: true, ..self };
            if self.cea608_1.len() > 0 {
                (
                    WriterView { cea608_1: self.cea608_1.skip(1), ..next },
                    seq![0xFCu8, self.cea608_1[0].0, self.cea608_1[0].1],
                )
            } else if self.cea608_2.len() > 0 {
                (next, seq![0xFCu8, 0x80u8, 0x80u8])
            } else if self.output_cea608_padding {
                (next, seq![0xF8u8, 0x80u8, 0x80u8])
            } else {
                (next, Seq::empty())
            }
        } else {
            let next = WriterView { last_cea608_was_field1: false, ..self };
            if self.cea608_2.len() > 0 {
                (
                    WriterView { cea608_2: self.cea608_2.skip(1), ..next },
                    seq![0xFDu8, self.cea608_2[0].0, self.cea608_2[0].1],
                )
            } else if self.output_cea608_padding {
                (next, seq![0xF9u8, 0x80u8, 0x80u8])
            } else {
                (next, Seq::empty())
            }
        }
    }

    /// The CEA-608 part of a frame: up to `pairs` turns, as long as the frame
    /// has room for a triple.
    pub open spec fn emit_cea608(self, pairs: nat, budget: nat) -> (WriterView, Seq<u8>)
        decreases pairs,
    {
        if pairs == 0 || budget == 0 {
            (self, Seq::empty())
        } else {
            let (next, triple) = self.cea608_turn();
            let (last, rest) = next.emit_cea608(
                (pairs - 1) as nat,
                (budget - triple.len() / 3) as nat,
            );
            (last, triple + rest)
        }
    }

    /// The DTVCC part of a frame: up to `budget` triples of the packet being
    /// written and of the packets that wait, in order. A packet leaves the
    /// queue when its first triple is due.
    pub open spec fn emit_dtvcc(self, budget: nat) -> (WriterView, Seq<u8>)
        decreases budget, self.packets.len(),
    {
        if budget == 0 {
            (self, Seq::empty())
        } else if self.pending.len() == 0 {
            if self.packets.len() == 0 {
                (self, Seq::empty())
            } else {
                WriterView {
                    pending: self.packets[0].cc_data(),
                    packets: self.packets.skip(1),
                    ..self
                }.emit_dtvcc(budget)
            }
        } else {
            let (last, rest) = WriterView { pending: self.pending.skip(3), ..self }.emit_dtvcc(
                (budget - 1) as nat,
            );
            (last, self.pending.take(3) + rest)
        }
    }

    /// The writer after the next frame, and the frame: the header, the
    /// CEA-608 part, the DTVCC part, and where nothing is left to send and
    /// padding is asked for, padding up to the number of triples of the
    /// header.
    pub open spec fn write(self, framerate: Framerate) -> (WriterView, Seq<u8>) {
        let pairs = self.cea608_pair_budget(framerate) as nat;
        let budget = self.cc_count_budget(framerate) as nat;
        let (after_cea608, cea608) = self.emit_cea608(pairs, budget);
        let left = (budget - cea608.len() / 3) as nat;
        let (last, dtvcc) = after_cea608.emit_dtvcc(left);
        let padding = if last.packets.len() == 0 && last.pending.len() == 0
            && self.output_padding {
            dtvcc_padding((left - dtvcc.len() / 3) as nat)
        } else {
            Seq::empty()
        };
        (last, self.header(framerate) + cea608 + dtvcc + padding)
    }

    /// The number of bytes of DTVCC data that wait to be written.
    pub open spec fn buffered_packet_bytes(self) -> nat {
        self.pending.len() + packets_len(self.packets)
    }
}

/// Appending a packet adds its triples and its bytes to those of the packets
/// before it.
pub proof fn lemma_packets_push(packets: Seq<PacketView>, packet: PacketView)
    ensures
        cc_counts(packets.push(packet)) == cc_counts(packets) + packet.cc_count(),
        packets_len(packets.push(packet)) == packets_len(packets) + packet.len(),
    decreases packets.len(),
{
    reveal_with_fuel(cc_counts, 2);
    reveal_with_fuel(packets_len, 2);
    if packets.len() == 0 {
        assert(packets.push(packet).skip(1) =~= Seq::<PacketView>::empty());
    } else {
        lemma_packets_push(packets.skip(1), packet);
        assert(packets.push(packet).skip(1) =~= packets.skip(1).push(packet));
        assert(packets.push(packet)[0] == packets[0]);
    }
}

/// The first packets of a sequence take up no more triples and bytes than
/// all of them.
pub proof fn lemma_packets_prefix(packets: Seq<PacketView>, n: int)
    requires
        0 <= n <= packets.len(),
    ensures
        cc_counts(packets.take(n)) <= cc_counts(packets),
        packets_len(packets.take(n)) <= packets_len(packets),
        n == 0 ==> cc_counts(packets.take(n)) == 0 && packets_len(packets.take(n)) == 0,
    decreases packets.len() - n,
{
    if n == packets.len() {
        assert(packets.take(n) =~= packets);
    } else {
        lemma_packets_prefix(packets, n + 1);
        assert(packets.take(n + 1) =~= packets.take(n).push(packets[n]));
        lemma_packets_push(packets.take(n), packets[n]);
    }
    if n == 0 {
        assert(packets.take(0) =~= Seq::<PacketView>::empty());
    }
}

/// Writing CEA-608 triples changes neither the settings nor the DTVCC data
/// that waits.
pub proof fn lemma_emit_cea608_keeps(writer: WriterView, pairs: nat, budget: nat)
    ensures
        writer.emit_cea608(pairs, budget).0.output_padding == writer.output_padding,
        writer.emit_cea608(pairs, budget).0.output_cea608_padding == writer.output_cea608_padding,
        writer.emit_cea608(pairs, budget).0.packets == writer.packets,
        writer.emit_cea608(pairs, budget).0.pending == writer.pending,
    decreases pairs,
{
    if pairs != 0 && budget != 0 {
        let (next, triple) = writer.cea608_turn();
        lemma_emit_cea608_keeps(next, (pairs - 1) as nat, (budget - triple.len() / 3) as nat);
    }
}

/// Writing DTVCC triples changes neither the settings nor the CEA-608 byte
/// pairs that wait.
pub proof fn lemma_emit_dtvcc_keeps(writer: WriterView, budget: nat)
    ensures
        writer.emit_dtvcc(budget).0.output_padding == writer.output_padding,
        writer.emit_dtvcc(budget).0.output_cea608_padding == writer.output_cea608_padding,
        writer.emit_dtvcc(budget).0.cea608_1 == writer.cea608_1,
        writer.emit_dtvcc(budget).0.cea608_2 == writer.cea608_2,
        writer.emit_dtvcc(budget).0.last_cea608_was_field1 == writer.last_cea608_was_field1,
    decreases budget, writer.packets.len(),
{
    if budget != 0 {
        if writer.pending.len() == 0 {
            if writer.packets.len() != 0 {
                lemma_emit_dtvcc_keeps(
                    WriterView {
                        pending: writer.packets[0].cc_data(),
                        packets: writer.packets.skip(1),
                        ..writer
                    },
                    budget,
                );
            }
        } else {
            lemma_emit_dtvcc_keeps(
                WriterView { pending: writer.pending.skip(3), ..writer },
                (budget - 1) as nat,
            );
        }
    }
}

/// Bytes put into triples are whole triples.
pub proof fn lemma_dtvcc_triples_len(payload: Seq<u8>, start: bool)
    ensures
        dtvcc_triples(payload, start).len() % 3 == 0,
        dtvcc_triples(payload, start).len() == 3 * ((payload.len() + 1) / 2),
    decreases payload.len(),
{
    if payload.len() >= 2 {
        lemma_dtvcc_triples_len(payload.skip(2), false);
    }
}

/// The sum of two numbers, or `cap` if that is less.
fn capped_sum(a: usize, b: usize, cap: usize) -> (r: usize)
    ensures
        r == least(cap as int, a + b),
{
    if a >= cap {
        cap
    } else if b >= cap - a {
        cap
    } else {
        a + b
    }
}

/// Writes `cc_data` frames from [`DTVCCPacket`]s and CEA-608 byte pairs.
#[derive(Debug)]
pub struct CCDataWriter {
    output_cea608_padding: bool,
    output_padding: bool,
    packets: VecDeque<DTVCCPacket>,
    pending_packet_data: Vec<u8>,
    cea608_1: VecDeque<(u8, u8)>,
    cea608_2: VecDeque<(u8, u8)>,
    last_cea608_was_field1: bool,
}

impl View for CCDataWriter {
    type V = WriterView;

    closed spec fn view(&self) -> WriterView {
        WriterView {
            output_cea608_padding: self.output_cea608_padding,
            output_padding: self.output_padding,
            packets: packet_views(self.packets@),
            pending: self.pending_packet_data@,
            cea608_1: self.cea608_1@,
            cea608_2: self.cea608_2@,
            last_cea608_was_field1: self.last_cea608_was_field1,
        }
    }
}

impl Default for CCDataWriter {
    fn default() -> (r: CCDataWriter)
        ensures
            r@ == CCDataWriter::initial(),
            r@.wf(),
    {
        let r = CCDataWriter {
            output_cea608_padding: false,
            output_padding: false,
            packets: VecDeque::new(),
            pending_packet_data: Vec::new(),
            cea608_1: VecDeque::new(),
            cea608_2: VecDeque::new(),
            last_cea608_was_field1: false,
        };
        assert(packet_views(r.packets@) =~= Seq::empty());
        r
    }
}

impl CCDataWriter {
    /// A writer that has nothing to write and writes no padding.
    pub open spec fn initial() -> WriterView {
        WriterView {
            output_cea608_padding: false,
            output_padding: false,
            packets: Seq::empty(),
            pending: Seq::empty(),
            cea608_1: Seq::empty(),
            cea608_2: Seq::empty(),
            last_cea608_was_field1: false,
        }
    }

    /// Whether to write padding CEA-608 triples where a field has nothing to
    /// send.
    pub fn set_output_cea608_padding(&mut self, output_cea608_padding: bool)
        ensures
            final(self)@ == (WriterView { output_cea608_padding, ..old(self)@ }),
    {
        self.output_cea608_padding = output_cea608_padding;
    }

    /// Whether padding CEA-608 triples are written.
    pub fn output_cea608_padding(&self) -> (r: bool)
        ensures
            r == self@.output_cea608_padding,
    {
        self.output_cea608_padding
    }

    /// Whether to write padding DTVCC triples where there is no packet to
    /// send.
    pub fn set_output_padding(&mut self, output_padding: bool)
        ensures
            final(self)@ == (WriterView { output_padding, ..old(self)@ }),
    {
        self.output_padding = output_padding;
    }

    /// Whether padding DTVCC triples are written.
    pub fn output_padding(&self) -> (r: bool)
        ensures
            r == self@.output_padding,
    {
        self.output_padding
    }

    /// Queue a [`DTVCCPacket`] for writing.
    pub fn push_packet(&mut self, packet: DTVCCPacket)
        requires
            old(self)@.wf(),
            packet@.wf(),
        ensures
            final(self)@ == (WriterView {
                packets: old(self)@.packets.push(packet@),
                ..old(self)@
            }),
            final(self)@.wf(),
    {
        proof {
            assert(packet_views(self.packets@.push(packet)) =~= packet_views(self.packets@).push(
                packet@,
            ));
        }
        self.packets.push_back(packet);
    }

    /// Queue a [`Cea608`] byte pair for writing. The pair `(0x80, 0x80)`,
    /// which says nothing, is not queued.
    pub fn push_cea608(&mut self, cea608: Cea608)
        ensures
            final(self)@ == match cea608 {
                Cea608::Field1(byte0, byte1) => if byte0 != 0x80 || byte1 != 0x80 {
                    WriterView { cea608_1: old(self)@.cea608_1.push((byte0, byte1)), ..old(self)@ }
                } else {
                    old(self)@
                },
                Cea608::Field2(byte0, byte1) => if byte0 != 0x80 || byte1 != 0x80 {
                    WriterView { cea608_2: old(self)@.cea608_2.push((byte0, byte1)), ..old(self)@ }
                } else {
                    old(self)@
                },
            },
            old(self)@.wf() ==> final(self)@.wf(),
    {
        match cea608 {
            Cea608::Field1(byte0, byte1) => {
                if byte0 != 0x80 || byte1 != 0x80 {
                    self.cea608_1.push_back((byte0, byte1));
                }
            },
            Cea608::Field2(byte0, byte1) => {
                if byte0 != 0x80 || byte1 != 0x80 {
                    self.cea608_2.push_back((byte0, byte1));
                }
            },
        }
    }

    /// Drop everything that waits to be written.
    pub fn flush(&mut self)
        ensures
            final(self)@ == (WriterView {
                packets: Seq::empty(),
                pending: Seq::empty(),
                cea608_1: Seq::empty(),
                cea608_2: Seq::empty(),
                ..old(self)@
            }),
            final(self)@.wf(),
    {
        self.packets.clear();
        self.pending_packet_data.clear();
        self.cea608_1.clear();
        self.cea608_2.clear();
        assert(packet_views(self.packets@) =~= Seq::empty());
    }

    /// The number of CEA-608 turns of the next frame.
    fn cea608_pair_budget(&self, framerate: Framerate) -> (r: usize)
        requires
            framerate.has_budget(),
        ensures
            r == self@.cea608_pair_budget(framerate),
            r <= framerate.cc_count_budget(),
    {
        proof {
            crate::lemma_budgets_ordered(framerate.denom() as int, framerate.numer() as int);
        }
        let per_frame = framerate.cea608_pairs_per_frame();
        if self.output_cea608_padding {
            per_frame
        } else {
            let field2 = self.cea608_2.len();
            let doubled: usize = if field2 > usize::MAX / 2 {
                usize::MAX
            } else {
                field2 * 2
            };
            let needed = if self.cea608_1.len() > doubled {
                self.cea608_1.len()
            } else {
                doubled
            };
            if per_frame < needed {
                per_frame
            } else {
                needed
            }
        }
    }

    /// The number of triples of the next frame, of which `pairs` are CEA-608
    /// turns.
    fn cc_count_budget(&self, framerate: Framerate, pairs: usize) -> (r: usize)
        requires
            self@.wf(),
            framerate.has_budget(),
            pairs == self@.cea608_pair_budget(framerate),
            pairs <= framerate.cc_count_budget(),
        ensures
            r == self@.cc_count_budget(framerate),
            r <= framerate.cc_count_budget(),
    {
        let max = framerate.max_cc_count();
        if self.output_padding {
            return max;
        }
        let mut total = capped_sum(pairs, self.pending_packet_data.len() / 3, max);
        let mut i: usize = 0;
        proof {
            lemma_packets_prefix(self@.packets, 0);
        }
        while i < self.packets.len()
            invariant
                i <= self.packets.len(),
                self@.wf(),
                total == least(
                    max as int,
                    pairs + self@.pending.len() / 3 + cc_counts(self@.packets.take(i as int)),
                ),
            decreases self.packets.len() - i,
        {
            proof {
                assert(self@.packets.take(i as int + 1) =~= self@.packets.take(i as int).push(
                    self@.packets[i as int],
                ));
                lemma_packets_push(self@.packets.take(i as int), self@.packets[i as int]);
                assert(self@.packets[i as int].wf());
            }
            total = capped_sum(total, self.packets[i].cc_count(), max);
            i = i + 1;
        }
        assert(self@.packets.take(i as int) =~= self@.packets);
        total
    }

    /// Writes the CEA-608 part of a frame and returns the number of triples
    /// that the frame still has room for.
    fn write_cea608(&mut self, pairs: usize, budget: usize, w: &mut Vec<u8>) -> (left: usize)
        requires
            old(self)@.wf(),
        ensures
            final(self)@ == old(self)@.emit_cea608(pairs as nat, budget as nat).0,
            final(w)@ == old(w)@ + old(self)@.emit_cea608(pairs as nat, budget as nat).1,
            left == budget - old(self)@.emit_cea608(pairs as nat, budget as nat).1.len() / 3,
            final(self)@.wf(),
    {
        let mut pairs_left = pairs;
        let mut left = budget;
        let ghost mut out: Seq<u8> = Seq::empty();
        proof {
            assert(out + self@.emit_cea608(pairs as nat, budget as nat).1 =~= self@.emit_cea608(
                pairs as nat,
                budget as nat,
            ).1);
            assert(w@ + out =~= w@);
        }
        while pairs_left > 0 && left > 0
            invariant
                self@.wf(),
                w@ == old(w)@ + out,
                out.len() % 3 == 0,
                left + out.len() / 3 == budget,
                old(self)@.emit_cea608(pairs as nat, budget as nat).0 == self@.emit_cea608(
                    pairs_left as nat,
                    left as nat,
                ).0,
                old(self)@.emit_cea608(pairs as nat, budget as nat).1 == out + self@.emit_cea608(
                    pairs_left as nat,
                    left as nat,
                ).1,
            decreases pairs_left,
        {
            let ghost before = self@;
            let ghost written = w@;
            let ghost so_far = out;
            let ghost later = before.cea608_turn().0.emit_cea608(
                (pairs_left - 1) as nat,
                (left - before.cea608_turn().1.len() / 3) as nat,
            );
            if !self.last_cea608_was_field1 {
                if let Some((byte0, byte1)) = self.cea608_1.pop_front() {
                    w.push(0xFC);
                    w.push(byte0);
                    w.push(byte1);
                    left = left - 1;
                    proof {
                        assert(self.cea608_1@ =~= before.cea608_1.skip(1));
                    }
                } else if self.cea608_2.len() > 0 {
                    w.push(0xFC);
                    w.push(0x80);
                    w.push(0x80);
                    left = left - 1;
                } else if self.output_cea608_padding {
                    w.push(0xF8);
                    w.push(0x80);
                    w.push(0x80);
                    left = left - 1;
                }
                self.last_cea608_was_field1 = true;
            } else {
                if let Some((byte0, byte1)) = self.cea608_2.pop_front() {
                    w.push(0xFD);
                    w.push(byte0);
                    w.push(byte1);
                    left = left - 1;
                    proof {
                        assert(self.cea608_2@ =~= before.cea608_2.skip(1));
                    }
                } else if self.output_cea608_padding {
                    w.push(0xF9);
                    w.push(0x80);
                    w.push(0x80);
                    left = left - 1;
                }
                self.last_cea608_was_field1 = false;
            }
            pairs_left = pairs_left - 1;
            proof {
                let triple = before.cea608_turn().1;
                assert(self@ == before.cea608_turn().0);
                assert(w@ =~= written + triple);
                out = so_far + triple;
                assert(so_far + (triple + later.1) =~= out + later.1);
                assert(w@ =~= old(w)@ + out);
            }
        }
        proof {
            assert(out + Seq::<u8>::empty() =~= out);
        }
        left
    }

    /// Writes the DTVCC part of a frame and returns the number of triples
    /// that the frame still has room for.
    #[verifier::rlimit(30)]
    fn write_dtvcc(&mut self, budget: usize, w: &mut Vec<u8>) -> (left: usize)
        requires
            old(self)@.wf(),
        ensures
            final(self)@ == old(self)@.emit_dtvcc(budget as nat).0,
            final(w)@ == old(w)@ + old(self)@.emit_dtvcc(budget as nat).1,
            left == budget - old(self)@.emit_dtvcc(budget as nat).1.len() / 3,
            final(self)@.wf(),
    {
        let mut left = budget;
        let mut offset: usize = 0;
        let mut drained = false;
        let ghost mut out: Seq<u8> = Seq::empty();
        let ghost mut current = self@;
        proof {
            assert(self.pending_packet_data@.skip(0) =~= self.pending_packet_data@);
            assert(out + current.emit_dtvcc(budget as nat).1 =~= current.emit_dtvcc(
                budget as nat,
            ).1);
            assert(w@ + out =~= w@);
        }
        while left > 0 && !drained
            invariant
                offset <= self.pending_packet_data.len(),
                current == (WriterView {
                    pending: self.pending_packet_data@.skip(offset as int),
                    ..self@
                }),
                current.wf(),
                w@ == old(w)@ + out,
                out.len() % 3 == 0,
                left + out.len() / 3 == budget,
                drained ==> current.pending.len() == 0 && current.packets.len() == 0,
                old(self)@.emit_dtvcc(budget as nat).0 == current.emit_dtvcc(left as nat).0,
                old(self)@.emit_dtvcc(budget as nat).1 == out + current.emit_dtvcc(left as nat).1,
            decreases left, self.packets.len(), (if drained { 0int } else { 1int }),
        {
            let ghost before = current;
            if offset >= self.pending_packet_data.len() {
                match self.packets.pop_front() {
                    Some(packet) => {
                        proof {
                            assert(before.packets[0].wf());
                            assert(packet_views(self.packets@) =~= before.packets.skip(1));
                            lemma_dtvcc_triples_len(packet@.bytes(), true);
                        }
                        self.pending_packet_data = Vec::new();
                        packet.write_as_cc_data(&mut self.pending_packet_data);
                        offset = 0;
                        proof {
                            assert(self.pending_packet_data@ =~= packet@.cc_data());
                            assert(self.pending_packet_data@.skip(0) =~= packet@.cc_data());
                            current =
                            WriterView {
                                pending: before.packets[0].cc_data(),
                                packets: before.packets.skip(1),
                                ..before
                            };
                        }
                    },
                    None => {
                        drained = true;
                    },
                }
            } else {
                let ghost written = w@;
                let ghost so_far = out;
                w.push(self.pending_packet_data[offset]);
                w.push(self.pending_packet_data[offset + 1]);
                w.push(self.pending_packet_data[offset + 2]);
                proof {
                    let triple = before.pending.take(3);
                    assert(w@ =~= written + triple);
                    assert(before.pending.skip(3) =~= self.pending_packet_data@.skip(
                        offset as int + 3,
                    ));
                    current = WriterView { pending: before.pending.skip(3), ..before };
                    out = so_far + triple;
                    let later = current.emit_dtvcc((left - 1) as nat);
                    assert(so_far + (triple + later.1) =~= out + later.1);
                    assert(w@ =~= old(w)@ + out);
                }
                offset = offset + 3;
                left = left - 1;
            }
        }
        let rest = self.pending_packet_data.split_off(offset);
        self.pending_packet_data = rest;
        proof {
            assert(self@ == current);
            assert(out + Seq::<u8>::empty() =~= out);
        }
        left
    }

    /// Write the next `cc_data` frame: the CEA-608 byte pairs and the DTVCC
    /// packets that are due. The frame rate says how much a frame may hold.
    pub fn write(&mut self, framerate: Framerate, w: &mut Vec<u8>)
        requires
            old(self)@.wf(),
            framerate.has_budget(),
        ensures
            final(self)@ == old(self)@.write(framerate).0,
            final(w)@ == old(w)@ + old(self)@.write(framerate).1,
            final(self)@.wf(),
    {
        let pairs = self.cea608_pair_budget(framerate);
        let budget = self.cc_count_budget(framerate, pairs);
        assert(budget & 0x1F < 32) by (bit_vector);
        proof {
            lemma_emit_cea608_keeps(self@, pairs as nat, budget as nat);
        }
        w.push(0x80 | 0x40 | (budget & 0x1F) as u8);
        w.push(0xFF);
        let ghost header = old(self)@.header(framerate);
        let ghost cea608 = old(self)@.emit_cea608(pairs as nat, budget as nat).1;
        assert(w@ =~= old(w)@ + header);
        let left = self.write_cea608(pairs, budget, w);
        let ghost dtvcc = self@.emit_dtvcc(left as nat).1;
        proof {
            lemma_emit_dtvcc_keeps(self@, left as nat);
        }
        let mut left = self.write_dtvcc(left, w);
        assert(w@ =~= old(w)@ + header + cea608 + dtvcc);
        if self.packets.len() == 0 && self.pending_packet_data.len() == 0 && self.output_padding {
            let ghost base = w@;
            let ghost count = left as nat;
            assert(w@ + dtvcc_padding(count) =~= base + dtvcc_padding(count));
            while left > 0
                invariant
                    w@ + dtvcc_padding(left as nat) == base + dtvcc_padding(count),
                decreases left,
            {
                let ghost written = w@;
                w.push(0xFA);
                w.push(0x00);
                w.push(0x00);
                left = left - 1;
                assert(w@ + dtvcc_padding(left as nat) =~= written + dtvcc_padding(
                    (left + 1) as nat,
                ));
            }
            assert(w@ + dtvcc_padding(0) =~= w@);
            assert(w@ =~= old(w)@ + (header + cea608 + dtvcc + dtvcc_padding(count)));
        } else {
            assert(w@ =~= old(w)@ + (header + cea608 + dtvcc + Seq::<u8>::empty()));
        }
    }

    /// The time that the waiting CEA-608 byte pairs of field 1 take to send.
    /// CEA-608 sends 60000 / 1001 byte pairs of a field per second.
    pub fn buffered_cea608_field1_duration(&self) -> (r: Duration)
        requires
            mul_div_ceil(self@.cea608_1.len() as int, 1_001_000_000, 60_000) <= u64::MAX,
        ensures
            duration_micros(r) == mul_div_ceil(
                self@.cea608_1.len() as int,
                1_001_000_000,
                60_000,
            ),
    {
        duration_from_micros(
            mul_div_ceil_u64(self.cea608_1.len() as u64, 1001 * 1_000_000, 60000).unwrap(),
        )
    }

    /// The time that the waiting CEA-608 byte pairs of field 2 take to send.
    pub fn buffered_cea608_field2_duration(&self) -> (r: Duration)
        requires
            mul_div_ceil(self@.cea608_2.len() as int, 1_001_000_000, 60_000) <= u64::MAX,
        ensures
            duration_micros(r) == mul_div_ceil(
                self@.cea608_2.len() as int,
                1_001_000_000,
                60_000,
            ),
    {
        duration_from_micros(
            mul_div_ceil_u64(self.cea608_2.len() as u64, 1001 * 1_000_000, 60000).unwrap(),
        )
    }

    /// The number of bytes of DTVCC data that wait to be written.
    pub fn buffered_packet_bytes(&self) -> (r: usize)
        requires
            self@.wf(),
            self@.buffered_packet_bytes() <= usize::MAX,
        ensures
            r == self@.buffered_packet_bytes(),
    {
        let mut total: usize = self.pending_packet_data.len();
        let mut i: usize = 0;
        proof {
            lemma_packets_prefix(self@.packets, 0);
        }
        while i < self.packets.len()
            invariant
                i <= self.packets.len(),
                self@.wf(),
                self@.buffered_packet_bytes() <= usize::MAX,
                total == self@.pending.len() + packets_len(self@.packets.take(i as int)),
            decreases self.packets.len() - i,
        {
            proof {
                lemma_packets_prefix(self@.packets, i as int + 1);
                assert(self@.packets.take(i as int + 1) =~= self@.packets.take(i as int).push(
                    self@.packets[i as int],
                ));
                lemma_packets_push(self@.packets.take(i as int), self@.packets[i as int]);
                assert(self@.packets[i as int].wf());
            }
            total = total + self.packets[i].len();
            i = i + 1;
        }
        assert(self@.packets.take(i as int) =~= self@.packets);
        total
    }

    /// The time that the waiting DTVCC data takes to send. CEA-708 sends
    /// 9600000 / 1001 bits per second, two bytes at a time.
    pub fn buffered_packet_duration(&self) -> (r: Duration)
        requires
            self@.wf(),
            self@.buffered_packet_bytes() < usize::MAX,
            mul_div_ceil(
                (self@.buffered_packet_bytes() as int + 1) / 2,
                2_002_000_000,
                1_200_000,
            ) <= u64::MAX,
        ensures
            duration_micros(r) == mul_div_ceil(
                (self@.buffered_packet_bytes() as int + 1) / 2,
                2_002_000_000,
                1_200_000,
            ),
    {
        let words: u64 = (self.buffered_packet_bytes() + 1) as u64 / 2;
        duration_from_micros(
            mul_div_ceil_u64(words, 2 * 1001 * 1_000_000, 9_600_000 / 8).unwrap(),
        )
    }
}

} // verus!
