//! The parser of `cc_data` frames.
//!
//! A frame is two header bytes and then triples of a control byte and two
//! data bytes. The control byte says whether the triple is valid and what it
//! carries: a CEA-608 byte pair of field 1 or 2, the start of a DTVCC packet,
//! or the continuation of one. The CEA-608 triples come first. A DTVCC packet
//! may be spread over several frames; what has arrived of it is kept until
//! the rest comes.

use crate::packet::{dtvcc_triples, write_dtvcc_triples, DTVCCPacket, PacketView};
use crate::tables::CodeError;
use crate::Cea608;
use std::collections::VecDeque;
use vstd::prelude::*;

verus! {

/// Why data could not be parsed.
#[derive(Debug, Clone, Copy, PartialEq, Eq, Structural)]
pub enum ParserError {
    /// The length of the data does not match the length that it advertises.
    LengthMismatch {
        /// The advertised length.
        expected: usize,
        /// The length of the data.
        actual: usize,
    },
    /// CEA-608 compatibility bytes were found after CEA-708 bytes.
    Cea608AfterCea708 {
        /// The position of the offending triple among the bytes of the triples.
        byte_pos: usize,
    },
}

impl ParserError {
    /// The parser error that stands for an error of the code parser.
    pub open spec fn of_code_error(err: CodeError) -> ParserError {
        match err {
            CodeError::LengthMismatch { expected, actual } => ParserError::LengthMismatch {
                expected,
                actual,
            },
        }
    }
}

impl From<CodeError> for ParserError {
    fn from(err: CodeError) -> (r: ParserError) {
        match err {
            CodeError::LengthMismatch { expected, actual } => ParserError::LengthMismatch {
                expected,
                actual,
            },
        }
    }
}

impl vstd::std_specs::convert::FromSpecImpl<CodeError> for ParserError {
    open spec fn obeys_from_spec() -> bool {
        true
    }

    open spec fn from_spec(err: CodeError) -> ParserError {
        ParserError::of_code_error(err)
    }
}

/// Whether the control byte of a triple marks it as valid.
pub open spec fn cc_valid(control: u8) -> bool {
    control & 0x04 == 0x04
}

/// Whether the control byte of a triple says that it carries DTVCC data,
/// the start of a packet or a continuation.
pub open spec fn is_dtvcc(control: u8) -> bool {
    control & 0x02 != 0
}

/// Whether the control byte of a triple says that a DTVCC packet starts in
/// it.
pub open spec fn is_dtvcc_start(control: u8) -> bool {
    control & 0x03 == 0x03
}

/// What the control bytes say that mark the triples of DTVCC data: `0xFF`
/// is the valid start of a packet, `0xFE` a valid continuation, and `0xFA`,
/// the padding, an invalid continuation.
pub proof fn lemma_dtvcc_markers()
    ensures
        cc_valid(0xFF) && is_dtvcc(0xFF) && is_dtvcc_start(0xFF),
        cc_valid(0xFE) && is_dtvcc(0xFE) && !is_dtvcc_start(0xFE),
        !cc_valid(0xFA) && is_dtvcc(0xFA) && !is_dtvcc_start(0xFA),
{
    assert(0xFFu8 & 0x04 == 0x04 && 0xFFu8 & 0x02 != 0 && 0xFFu8 & 0x03 == 0x03 && 0xFEu8 & 0x04
        == 0x04 && 0xFEu8 & 0x02 != 0 && 0xFEu8 & 0x03 != 0x03 && 0xFAu8 & 0x04 != 0x04 && 0xFAu8
        & 0x02 != 0 && 0xFAu8 & 0x03 != 0x03) by (bit_vector);
}

/// What is looked for among the triples of a frame.
#[derive(Debug, Clone, Copy, PartialEq, Eq, Structural)]
pub enum TripleKind {
    /// A triple of DTVCC data, valid or not.
    Dtvcc,
    /// A valid triple of CEA-608 data.
    ValidCea608,
    /// A valid triple of DTVCC data.
    ValidDtvcc,
}

impl TripleKind {
    /// Whether a triple with this control byte is of this kind.
    pub open spec fn spec_holds(self, control: u8) -> bool {
        match self {
            TripleKind::Dtvcc => is_dtvcc(control),
            TripleKind::ValidCea608 => cc_valid(control) && !is_dtvcc(control),
            TripleKind::ValidDtvcc => cc_valid(control) && is_dtvcc(control),
        }
    }

    /// Whether a triple with this control byte is of this kind.
    #[verifier::when_used_as_spec(spec_holds)]
    pub fn holds(self, control: u8) -> (r: bool)
        ensures
            r == self.holds(control),
    {
        let valid = control & 0x04 == 0x04;
        let dtvcc = control & 0x02 != 0;
        match self {
            TripleKind::Dtvcc => dtvcc,
            TripleKind::ValidCea608 => valid && !dtvcc,
            TripleKind::ValidDtvcc => valid && dtvcc,
        }
    }
}

/// The position among the bytes of `triples` of the first triple of a kind.
pub open spec fn first_triple(triples: Seq<u8>, kind: TripleKind) -> Option<nat>
    decreases triples.len(),
{
    if triples.len() < 3 {
        None
    } else if kind.holds(triples[0]) {
        Some(0)
    } else {
        match first_triple(triples.skip(3), kind) {
            Some(pos) => Some(pos + 3),
            None => None,
        }
    }
}

/// The CEA-608 byte pair that a valid CEA-608 triple carries.
pub open spec fn cea608_pair(control: u8, byte0: u8, byte1: u8) -> Cea608 {
    if control & 0x03 == 0 {
        Cea608::Field1(byte0, byte1)
    } else {
        Cea608::Field2(byte0, byte1)
    }
}

/// The CEA-608 byte pairs at the head of a frame: those of the valid triples
/// that come before the first triple of DTVCC data.
pub open spec fn leading_cea608(triples: Seq<u8>) -> Seq<Cea608>
    decreases triples.len(),
{
    if triples.len() < 3 || is_dtvcc(triples[0]) {
        Seq::empty()
    } else if cc_valid(triples[0]) {
        seq![cea608_pair(triples[0], triples[1], triples[2])] + leading_cea608(triples.skip(3))
    } else {
        leading_cea608(triples.skip(3))
    }
}

/// The views of a sequence of packets.
pub open spec fn packet_views(packets: Seq<DTVCCPacket>) -> Seq<PacketView> {
    packets.map_values(|packet: DTVCCPacket| packet@)
}

/// The packet that `buffer` holds, if it holds one that can be read.
pub open spec fn complete_packet(buffer: Seq<u8>) -> Seq<PacketView> {
    match PacketView::parse(buffer) {
        Ok(packet) => seq![packet],
        Err(_) => Seq::empty(),
    }
}

/// A [`CCDataParser`] as a mathematical value.
pub struct ParserView {
    /// The bytes of the packet that is being put together.
    pub pending: Seq<u8>,
    /// The packets that are ready, the oldest first.
    pub packets: Seq<PacketView>,
    /// The CEA-608 byte pairs of the last frame, where they are asked for.
    pub cea608: Option<Seq<Cea608>>,
    /// Whether the start of a packet has been seen.
    pub have_initial_ccp_header: bool,
    /// The number of bytes that the packet being put together still lacks.
    pub ccp_bytes_needed: nat,
}

impl ParserView {
    /// What every parser holds to: its packets keep to the rules of a packet.
    pub open spec fn wf(self) -> bool {
        forall|i: int| 0 <= i < self.packets.len() ==> (#[trigger] self.packets[i]).wf()
    }

    /// Whether a frame is looked into at all: it has room for a triple, its
    /// process flag is set and it announces triples.
    pub open spec fn processes(data: Seq<u8>) -> bool {
        data.len() >= 5 && data[0] & 0x40 > 0 && data[0] & 0x1F != 0
    }

    /// The number of triples that a frame announces.
    pub open spec fn cc_count(data: Seq<u8>) -> nat {
        (data[0] & 0x1F) as nat
    }

    /// The parser with the CEA-608 byte pairs `pairs`, if it keeps any.
    pub open spec fn with_cea608(self, pairs: Seq<Cea608>) -> ParserView {
        ParserView {
            cea608: if self.cea608 is Some {
                Some(pairs)
            } else {
                None
            },
            ..self
        }
    }

    /// The parser after one triple of the DTVCC stream.
    ///
    /// An invalid triple changes nothing. The start of a packet ends the
    /// packet before it, which is kept if it can be read and dropped
    /// otherwise, and its first byte says how many bytes the new packet has.
    /// Once a start has been seen, the two data bytes are added to the packet
    /// as far as it still lacks bytes.
    pub open spec fn feed_triple(self, control: u8, byte0: u8, byte1: u8) -> ParserView {
        if !cc_valid(control) {
            self
        } else {
            let started = if is_dtvcc_start(control) {
                ParserView {
                    pending: Seq::empty(),
                    packets: self.packets + complete_packet(self.pending),
                    have_initial_ccp_header: true,
                    ccp_bytes_needed: (PacketView::parse_hdr_byte(byte0).1 + 1) as nat,
                    ..self
                }
            } else {
                self
            };
            if !started.have_initial_ccp_header || started.ccp_bytes_needed == 0 {
                started
            } else if started.ccp_bytes_needed == 1 {
                ParserView { pending: started.pending.push(byte0), ccp_bytes_needed: 0, ..started }
            } else {
                ParserView {
                    pending: started.pending.push(byte0).push(byte1),
                    ccp_bytes_needed: (started.ccp_bytes_needed - 2) as nat,
                    ..started
                }
            }
        }
    }

    /// The parser after the triples of `stream`, one after the other.
    pub open spec fn feed(self, stream: Seq<u8>) -> ParserView
        decreases stream.len(),
    {
        if stream.len() < 3 {
            self
        } else {
            self.feed_triple(stream[0], stream[1], stream[2]).feed(stream.skip(3))
        }
    }

    /// The parser at the end of a frame: a packet that lacks no more bytes is
    /// finished, kept if it can be read and dropped otherwise.
    pub open spec fn finish(self) -> ParserView {
        if self.ccp_bytes_needed == 0 {
            ParserView {
                pending: Seq::empty(),
                packets: self.packets + complete_packet(self.pending),
                ..self
            }
        } else {
            self
        }
    }

    /// The parser after the frame `data`, and whether the frame was accepted.
    ///
    /// A frame that is not looked into changes nothing but the CEA-608 byte
    /// pairs, which are those of the last frame. A frame whose length is not
    /// what its header announces is refused, and so is a frame with a valid
    /// CEA-608 triple after a triple of DTVCC data. From the first valid
    /// DTVCC triple on, the frame continues the DTVCC stream: the bytes kept
    /// of an unfinished packet are taken up again as if they had come in
    /// triples of their own just before.
    pub open spec fn push(self, data: Seq<u8>) -> (ParserView, Result<(), ParserError>) {
        if !ParserView::processes(data) {
            (self.with_cea608(Seq::empty()), Ok(()))
        } else if ParserView::cc_count(data) * 3 + 2 != data.len() {
            (
                self.with_cea608(Seq::empty()),
                Err(
                    ParserError::LengthMismatch {
                        expected: (ParserView::cc_count(data) * 3 + 1) as usize,
                        actual: data.len() as usize,
                    },
                ),
            )
        } else {
            let triples = data.skip(2);
            let seen = self.with_cea608(leading_cea608(triples));
            match first_triple(triples, TripleKind::Dtvcc) {
                None => (seen, Ok(())),
                Some(dtvcc) => match first_triple(triples.skip(dtvcc as int), TripleKind::ValidCea608) {
                    Some(pos) => (
                        seen,
                        Err(ParserError::Cea608AfterCea708 { byte_pos: (dtvcc + pos) as usize }),
                    ),
                    None => match first_triple(triples.skip(dtvcc as int), TripleKind::ValidDtvcc) {
                        None => (seen, Ok(())),
                        Some(pos) => (
                            ParserView { pending: Seq::empty(), ..seen }.feed(
                                dtvcc_triples(self.pending, true) + triples.skip((dtvcc + pos) as int),
                            ).finish(),
                            Ok(()),
                        ),
                    },
                },
            }
        }
    }
}

/// Where some triple is of a kind, the first triple of that kind is found at
/// or before it.
pub proof fn lemma_first_triple_found(triples: Seq<u8>, kind: TripleKind, k: int)
    requires
        0 <= k,
        3 * k + 3 <= triples.len(),
        kind.holds(triples[3 * k]),
    ensures
        first_triple(triples, kind) matches Some(pos) && pos <= 3 * k && pos % 3 == 0,
    decreases k,
{
    if !kind.holds(triples[0]) {
        assert(k > 0);
        assert(triples.skip(3)[3 * (k - 1)] == triples[3 * k]);
        lemma_first_triple_found(triples.skip(3), kind, k - 1);
    }
}

/// A frame with a valid CEA-608 triple after a triple of DTVCC data is
/// refused, whatever the parser has seen before: where the triple `i` of a
/// well-formed frame is of DTVCC data and a later triple `j` is a valid
/// CEA-608 triple, pushing the frame fails with `Cea608AfterCea708`.
pub proof fn lemma_cea608_after_dtvcc_refused(parser: ParserView, data: Seq<u8>, i: int, j: int)
    requires
        ParserView::processes(data),
        ParserView::cc_count(data) * 3 + 2 == data.len(),
        0 <= i < j < ParserView::cc_count(data),
        is_dtvcc(data[2 + 3 * i]),
        cc_valid(data[2 + 3 * j]) && !is_dtvcc(data[2 + 3 * j]),
    ensures
        parser.push(data).1 is Err,
        parser.push(data).1->Err_0 is Cea608AfterCea708,
{
    let triples = data.skip(2);
    assert(triples[3 * i] == data[2 + 3 * i]);
    lemma_first_triple_found(triples, TripleKind::Dtvcc, i);
    let dtvcc = first_triple(triples, TripleKind::Dtvcc).unwrap();
    let region = triples.skip(dtvcc as int);
    let k = j - dtvcc / 3;
    assert(region[3 * k] == data[2 + 3 * j]);
    lemma_first_triple_found(region, TripleKind::ValidCea608, k);
}

/// The position among the bytes of `triples` of the first triple of a kind.
fn find_triple(triples: &[u8], kind: TripleKind) -> (r: Option<usize>)
    ensures
        r matches Some(pos) ==> first_triple(triples@, kind) == Some(pos as nat) && pos + 3
            <= triples.len() && kind.holds(triples@[pos as int]),
        r is None ==> first_triple(triples@, kind) is None,
{
    let mut i: usize = 0;
    assert(triples@.skip(0) =~= triples@);
    while triples.len() - i >= 3
        invariant
            i <= triples.len(),
            first_triple(triples@, kind) == match first_triple(triples@.skip(i as int), kind) {
                Some(pos) => Some((pos + i) as nat),
                None => None,
            },
        decreases triples.len() - i,
    {
        if kind.holds(triples[i]) {
            return Some(i);
        }
        assert(triples@.skip(i as int).skip(3) =~= triples@.skip(i as int + 3));
        i = i + 3;
    }
    None
}

/// The CEA-608 byte pairs at the head of a frame.
fn collect_leading_cea608(triples: &[u8]) -> (r: Vec<Cea608>)
    ensures
        r@ == leading_cea608(triples@),
{
    let mut pairs: Vec<Cea608> = Vec::new();
    let mut i: usize = 0;
    assert(triples@.skip(0) =~= triples@);
    assert(pairs@ + leading_cea608(triples@) =~= leading_cea608(triples@));
    while triples.len() - i >= 3 && triples[i] & 0x02 == 0
        invariant
            i <= triples.len(),
            leading_cea608(triples@) == pairs@ + leading_cea608(triples@.skip(i as int)),
        decreases triples.len() - i,
    {
        let ghost before = pairs@;
        let ghost rest = triples@.skip(i as int);
        assert(rest.skip(3) =~= triples@.skip(i as int + 3));
        if triples[i] & 0x04 == 0x04 {
            let pair = if triples[i] & 0x03 == 0 {
                Cea608::Field1(triples[i + 1], triples[i + 2])
            } else {
                Cea608::Field2(triples[i + 1], triples[i + 2])
            };
            pairs.push(pair);
            assert(before + (seq![pair] + leading_cea608(rest.skip(3))) =~= pairs@
                + leading_cea608(rest.skip(3)));
        }
        i = i + 3;
    }
    assert(pairs@ + Seq::<Cea608>::empty() =~= pairs@);
    pairs
}

/// Parses a stream of `cc_data` frames into [`DTVCCPacket`]s and CEA-608 byte
/// pairs.
#[derive(Debug)]
pub struct CCDataParser {
    pending_data: Vec<u8>,
    packets: VecDeque<DTVCCPacket>,
    cea608: Option<Vec<Cea608>>,
    have_initial_ccp_header: bool,
    ccp_bytes_needed: usize,
}

impl View for CCDataParser {
    type V = ParserView;

    closed spec fn view(&self) -> ParserView {
        ParserView {
            pending: self.pending_data@,
            packets: packet_views(self.packets@),
            cea608: match self.cea608 {
                Some(pairs) => Some(pairs@),
                None => None,
            },
            have_initial_ccp_header: self.have_initial_ccp_header,
            ccp_bytes_needed: self.ccp_bytes_needed as nat,
        }
    }
}

impl Default for CCDataParser {
    fn default() -> (r: CCDataParser)
        ensures
            r@ == CCDataParser::initial(),
            r@.wf(),
    {
        CCDataParser::new()
    }
}

impl CCDataParser {
    /// A parser that has seen nothing and keeps no CEA-608 byte pairs.
    pub open spec fn initial() -> ParserView {
        ParserView {
            pending: Seq::empty(),
            packets: Seq::empty(),
            cea608: None,
            have_initial_ccp_header: false,
            ccp_bytes_needed: 0,
        }
    }

    /// Create a new [`CCDataParser`].
    pub fn new() -> (r: CCDataParser)
        ensures
            r@ == CCDataParser::initial(),
            r@.wf(),
    {
        let r = CCDataParser {
            pending_data: Vec::new(),
            packets: VecDeque::new(),
            cea608: None,
            have_initial_ccp_header: false,
            ccp_bytes_needed: 0,
        };
        assert(packet_views(r.packets@) =~= Seq::empty());
        r
    }

    /// Keep the CEA-608 byte pairs of each frame, for [`CCDataParser::cea608`].
    pub fn handle_cea608(&mut self)
        ensures
            final(self)@ == (ParserView { cea608: Some(Seq::empty()), ..old(self)@ }),
    {
        self.cea608 = Some(Vec::new());
    }

    /// Push a complete `cc_data` frame into the parser.
    ///
    /// Fails with `LengthMismatch` if the length of the frame is not what the
    /// number of triples in its header asks for, and with `Cea608AfterCea708`
    /// if a valid CEA-608 triple comes after a triple of DTVCC data. A packet
    /// that cannot be read is dropped without an error.
    pub fn push(&mut self, data: &[u8]) -> (r: Result<(), ParserError>)
        requires
            old(self)@.wf(),
        ensures
            (final(self)@, r) == old(self)@.push(data@),
            final(self)@.wf(),
            ParserView::processes(data@) && ParserView::cc_count(data@) * 3 + 2 != data@.len()
                ==> r is Err && r->Err_0 is LengthMismatch,
    {
        if self.cea608.is_some() {
            self.cea608 = Some(Vec::new());
        }
        if data.len() < 5 {
            return Ok(());
        }
        if data[0] & 0x40 == 0 {
            return Ok(());
        }
        let cc_count: u8 = data[0] & 0x1F;
        if cc_count == 0 {
            return Ok(());
        }
        let first: u8 = data[0];
        assert(first & 0x1F < 32) by (bit_vector);
        if (cc_count as usize) * 3 + 2 != data.len() {
            return Err(
                ParserError::LengthMismatch {
                    expected: (cc_count as usize) * 3 + 1,
                    actual: data.len(),
                },
            );
        }
        let triples = &data[2..data.len()];
        assert(triples@ == data@.skip(2));
        if self.cea608.is_some() {
            self.cea608 = Some(collect_leading_cea608(triples));
        }
        let dtvcc = match find_triple(triples, TripleKind::Dtvcc) {
            Some(pos) => pos,
            None => {
                return Ok(());
            },
        };
        let from_dtvcc = &triples[dtvcc..triples.len()];
        assert(from_dtvcc@ == triples@.skip(dtvcc as int));
        if let Some(pos) = find_triple(from_dtvcc, TripleKind::ValidCea608) {
            return Err(ParserError::Cea608AfterCea708 { byte_pos: dtvcc + pos });
        }
        let ccp = match find_triple(from_dtvcc, TripleKind::ValidDtvcc) {
            Some(pos) => dtvcc + pos,
            None => {
                return Ok(());
            },
        };
        let mut stream: Vec<u8> = Vec::new();
        write_dtvcc_triples(self.pending_data.as_slice(), &mut stream);
        stream.extend_from_slice(&triples[ccp..triples.len()]);
        assert(stream@ =~= dtvcc_triples(old(self)@.pending, true) + triples@.skip(ccp as int));
        self.pending_data = Vec::new();
        let ghost start = self@;
        assert(start == ParserView {
            pending: Seq::empty(),
            ..old(self)@.with_cea608(leading_cea608(triples@))
        });
        let mut i: usize = 0;
        assert(stream@.skip(0) =~= stream@);
        while stream.len() - i >= 3
            invariant
                i <= stream.len(),
                self@.wf(),
                start.feed(stream@) == self@.feed(stream@.skip(i as int)),
            decreases stream.len() - i,
        {
            let control: u8 = stream[i];
            let byte0: u8 = stream[i + 1];
            let byte1: u8 = stream[i + 2];
            let ghost before = self@;
            proof {
                assert(stream@.skip(i as int).skip(3) =~= stream@.skip(i as int + 3));
            }
            i = i + 3;
            if control & 0x04 != 0x04 {
                continue ;
            }
            if control & 0x03 == 0x03 {
                self.have_initial_ccp_header = true;
                assert(self@.packets == before.packets);
                self.finish_packet();
                let ghost finished = self@;
                let (_seq_no, packet_len) = DTVCCPacket::parse_hdr_byte(byte0);
                self.ccp_bytes_needed = packet_len + 1;
                assert(self@.packets == finished.packets);
            }
            let ghost ready = self@.packets;
            if self.have_initial_ccp_header {
                if self.ccp_bytes_needed > 0 {
                    self.pending_data.push(byte0);
                    self.ccp_bytes_needed = self.ccp_bytes_needed - 1;
                }
                if self.ccp_bytes_needed > 0 {
                    self.pending_data.push(byte1);
                    self.ccp_bytes_needed = self.ccp_bytes_needed - 1;
                }
            }
            assert(self@.packets == ready);
            assert(self@ == before.feed_triple(control, byte0, byte1));
        }
        if self.ccp_bytes_needed == 0 {
            self.finish_packet();
        }
        Ok(())
    }

    /// Ends the packet that is being put together: it is kept if it can be
    /// read and dropped otherwise.
    fn finish_packet(&mut self)
        requires
            old(self)@.wf(),
        ensures
            final(self)@ == (ParserView {
                pending: Seq::empty(),
                packets: old(self)@.packets + complete_packet(old(self)@.pending),
                ..old(self)@
            }),
            final(self)@.wf(),
    {
        match DTVCCPacket::parse(self.pending_data.as_slice()) {
            Ok(packet) => {
                proof {
                    assert(packet_views(self.packets@.push(packet)) =~= packet_views(
                        self.packets@,
                    ) + seq![packet@]);
                }
                self.packets.push_back(packet);
            },
            Err(_) => {
                assert(packet_views(self.packets@) + Seq::<PacketView>::empty() =~= packet_views(
                    self.packets@,
                ));
            },
        }
        self.pending_data = Vec::new();
    }

    /// Forget everything: the parser is as new, and keeps no CEA-608 byte
    /// pairs.
    pub fn flush(&mut self)
        ensures
            final(self)@ == CCDataParser::initial(),
            final(self)@.wf(),
    {
        *self = CCDataParser::new();
    }

    /// Take the oldest packet that is ready, or `None` if none is.
    pub fn pop_packet(&mut self) -> (r: Option<DTVCCPacket>)
        requires
            old(self)@.wf(),
        ensures
            final(self)@.wf(),
            old(self)@.packets.len() == 0 ==> r is None && final(self)@ == old(self)@,
            old(self)@.packets.len() > 0 ==> r is Some && r.unwrap()@ == old(self)@.packets[0]
                && r.unwrap()@.wf() && final(self)@ == (ParserView {
                packets: old(self)@.packets.skip(1),
                ..old(self)@
            }),
    {
        let r = self.packets.pop_front();
        proof {
            if r is Some {
                assert(packet_views(self.packets@) =~= old(self)@.packets.skip(1));
                assert(old(self)@.packets[0].wf());
            }
        }
        r
    }

    /// The CEA-608 byte pairs of the frame that was pushed last, or `None`
    /// if they are not kept.
    pub fn cea608(&self) -> (r: Option<&[Cea608]>)
        ensures
            r is Some <==> self@.cea608 is Some,
            r matches Some(pairs) ==> self@.cea608 == Some(pairs@),
    {
        match &self.cea608 {
            Some(pairs) => Some(pairs.as_slice()),
            None => None,
        }
    }
}

} // verus!
