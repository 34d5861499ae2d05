//! DTVCC packets: a sequence number and the service blocks sent under it.
//!
//! A packet is a header byte, the service blocks one after the other, and a
//! padding byte where that makes the number of bytes even. The header byte
//! holds the sequence number in its top two bits and half the number of bytes
//! below; 64 halves, the largest packet, are written as 0.

use crate::parser::ParserError;
use crate::service::{lemma_service_parse_wf, Service, ServiceView};
use crate::writer::WriterError;
use vstd::prelude::*;

verus! {

/// The views of a sequence of services.
pub open spec fn service_views(services: Seq<Service>) -> Seq<ServiceView> {
    services.map_values(|service: Service| service@)
}

/// What reading gives when `first` was read before `rest`.
pub open spec fn after_service(
    first: ServiceView,
    rest: Result<Seq<ServiceView>, ParserError>,
) -> Result<Seq<ServiceView>, ParserError> {
    match rest {
        Ok(services) => Ok(seq![first] + services),
        Err(e) => Err(e),
    }
}

/// What reading gives when `prefix` was read before `rest`.
pub open spec fn after_services(
    prefix: Seq<ServiceView>,
    rest: Result<Seq<ServiceView>, ParserError>,
) -> Result<Seq<ServiceView>, ParserError> {
    match rest {
        Ok(services) => Ok(prefix + services),
        Err(e) => Err(e),
    }
}

/// The bytes `payload` as `cc_data` triples: two bytes to a triple, the first
/// triple marked `0xFF` as the start of a packet where `start` holds, every
/// other one marked `0xFE` as a continuation; a last single byte is padded
/// with `0x00`.
pub open spec fn dtvcc_triples(payload: Seq<u8>, start: bool) -> Seq<u8>
    decreases payload.len(),
{
    let marker = if start {
        0xFFu8
    } else {
        0xFEu8
    };
    if payload.len() == 0 {
        Seq::empty()
    } else if payload.len() == 1 {
        seq![marker, payload[0], 0x00u8]
    } else {
        seq![marker, payload[0], payload[1]] + dtvcc_triples(payload.skip(2), false)
    }
}

/// Appends `payload` as `cc_data` triples, the first of them marked as the
/// start of a packet.
pub fn write_dtvcc_triples(payload: &[u8], w: &mut Vec<u8>)
    ensures
        final(w)@ == old(w)@ + dtvcc_triples(payload@, true),
{
    let mut i: usize = 0;
    assert(payload@.skip(0) =~= payload@);
    assert(w@ + dtvcc_triples(payload@, true) =~= old(w)@ + dtvcc_triples(payload@, true));
    while i < payload.len()
        invariant
            i <= payload.len(),
            w@ + dtvcc_triples(payload@.skip(i as int), i == 0) == old(w)@ + dtvcc_triples(
                payload@,
                true,
            ),
        decreases payload.len() - i,
    {
        let ghost before = w@;
        let ghost rest = payload@.skip(i as int);
        let marker: u8 = if i == 0 {
            0xFF
        } else {
            0xFE
        };
        w.push(marker);
        w.push(payload[i]);
        if payload.len() - i == 1 {
            w.push(0x00);
            proof {
                assert(w@ =~= before + dtvcc_triples(rest, i == 0));
                assert(payload@.skip(i as int + 1) =~= Seq::<u8>::empty());
                assert(w@ + dtvcc_triples(payload@.skip(i as int + 1), false) =~= before
                    + dtvcc_triples(rest, i == 0));
            }
            i = i + 1;
        } else {
            w.push(payload[i + 1]);
            proof {
                assert(rest.skip(2) =~= payload@.skip(i as int + 2));
                assert(w@ + dtvcc_triples(payload@.skip(i as int + 2), false) =~= before
                    + dtvcc_triples(rest, i == 0));
            }
            i = i + 2;
        }
    }
    assert(payload@.skip(i as int) =~= Seq::<u8>::empty());
    assert(w@ + Seq::<u8>::empty() =~= w@);
}

/// A [`DTVCCPacket`] as a mathematical value.
pub struct PacketView {
    /// The sequence number, 0 to 3.
    pub seq_no: u8,
    /// The service blocks of the packet.
    pub services: Seq<ServiceView>,
}

impl PacketView {
    /// The number of bytes that services take up.
    pub open spec fn services_len(services: Seq<ServiceView>) -> nat
        decreases services.len(),
    {
        if services.len() == 0 {
            0
        } else {
            services[0].len() + PacketView::services_len(services.skip(1))
        }
    }

    /// The bytes of services, one block after the other.
    pub open spec fn services_bytes(services: Seq<ServiceView>) -> Seq<u8>
        decreases services.len(),
    {
        if services.len() == 0 {
            Seq::empty()
        } else {
            services[0].bytes() + PacketView::services_bytes(services.skip(1))
        }
    }

    /// What every packet holds to: the sequence number is below 4, every
    /// service is a proper one that holds codes, and together they take up no
    /// more than 127 bytes.
    pub open spec fn wf(self) -> bool {
        &&& self.seq_no < 4
        &&& PacketView::all_proper(self.services)
        &&& PacketView::services_len(self.services) <= 127
    }

    /// Whether every one of `services` keeps to the rules of a service and
    /// holds codes.
    pub open spec fn all_proper(services: Seq<ServiceView>) -> bool {
        forall|i: int|
            0 <= i < services.len() ==> (#[trigger] services[i]).wf() && services[i].codes.len()
                > 0
    }

    /// The number of bytes that this packet takes up, its header included
    /// and its padding not. A packet without services counts as empty.
    pub open spec fn len(self) -> nat {
        if PacketView::services_len(self.services) > 0 {
            1 + PacketView::services_len(self.services)
        } else {
            0
        }
    }

    /// The number of byte pairs that this packet takes up, which is also the
    /// number of `cc_data` triples that carry it.
    pub open spec fn cc_count(self) -> nat {
        (self.len() + 1) / 2
    }

    /// The header byte: the sequence number in the top two bits, the low six
    /// bits of the number of byte pairs below.
    pub open spec fn hdr_byte(self) -> u8 {
        (self.seq_no & 0x03) << 6 | (self.cc_count() as u8 & 0x3F)
    }

    /// The bytes that are written for this packet.
    pub open spec fn bytes(self) -> Seq<u8> {
        seq![self.hdr_byte()] + PacketView::services_bytes(self.services) + if self.len() % 2 == 1 {
            seq![0x00u8]
        } else {
            Seq::empty()
        }
    }

    /// This packet as `cc_data` triples. A packet without services has none.
    pub open spec fn cc_data(self) -> Seq<u8> {
        if self.services.len() == 0 {
            Seq::empty()
        } else {
            dtvcc_triples(self.bytes(), true)
        }
    }

    /// The sequence number that a header byte holds, and the number of bytes
    /// that it says will follow: one less than twice its low six bits, and
    /// 127 where those are 0.
    pub open spec fn parse_hdr_byte(byte: u8) -> (u8, usize) {
        (
            (byte & 0xC0) >> 6,
            if byte & 0x3F == 0 {
                127usize
            } else {
                ((byte & 0x3F) * 2 - 1) as usize
            },
        )
    }

    /// Reads `data` as service blocks, one after the other. A block that
    /// takes up no bytes, such as the padding byte, is passed over as one
    /// byte.
    pub open spec fn parse_services(data: Seq<u8>) -> Result<Seq<ServiceView>, ParserError>
        decreases data.len(),
        via Self::parse_services_shortens
    {
        if data.len() == 0 {
            Ok(Seq::empty())
        } else {
            match ServiceView::parse(data) {
                Err(e) => Err(e),
                Ok(service) => if service.len() == 0 {
                    PacketView::parse_services(data.skip(1))
                } else {
                    after_service(
                        service,
                        PacketView::parse_services(data.skip(service.len() as int)),
                    )
                },
            }
        }
    }

    #[via_fn]
    proof fn parse_services_shortens(data: Seq<u8>) {
        lemma_service_parse_wf(data);
    }

    /// Reads `data` as a packet: the header byte, then service blocks to the
    /// end. The data may be shorter than the header says, not longer.
    pub open spec fn parse(data: Seq<u8>) -> Result<PacketView, ParserError> {
        if data.len() == 0 {
            Err(ParserError::LengthMismatch { expected: 1, actual: 0 })
        } else {
            let (seq_no, len) = PacketView::parse_hdr_byte(data[0]);
            if len + 1 < data.len() {
                Err(
                    ParserError::LengthMismatch {
                        expected: (len + 1) as usize,
                        actual: data.len() as usize,
                    },
                )
            } else {
                match PacketView::parse_services(data.skip(1)) {
                    Ok(services) => Ok(PacketView { seq_no, services }),
                    Err(e) => Err(e),
                }
            }
        }
    }
}

/// Reading nothing before `rest` gives `rest`.
pub proof fn lemma_after_nothing(rest: Result<Seq<ServiceView>, ParserError>)
    ensures
        after_services(Seq::empty(), rest) == rest,
{
    match rest {
        Ok(services) => {
            assert(Seq::<ServiceView>::empty() + services =~= services);
        },
        Err(_) => {},
    }
}

/// Reading `prefix`, then `service`, then `rest` can be put together from
/// either side.
pub proof fn lemma_after_one_more(
    prefix: Seq<ServiceView>,
    service: ServiceView,
    rest: Result<Seq<ServiceView>, ParserError>,
)
    ensures
        after_services(prefix, after_service(service, rest)) == after_services(
            prefix.push(service),
            rest,
        ),
{
    match rest {
        Ok(services) => {
            assert(prefix + (seq![service] + services) =~= prefix.push(service) + services);
        },
        Err(_) => {},
    }
}

/// Appending a service adds its length and its bytes to those of the
/// services before it.
pub proof fn lemma_services_push(services: Seq<ServiceView>, service: ServiceView)
    ensures
        PacketView::services_len(services.push(service)) == PacketView::services_len(services)
            + service.len(),
        PacketView::services_bytes(services.push(service)) == PacketView::services_bytes(services)
            + service.bytes(),
    decreases services.len(),
{
    reveal_with_fuel(PacketView::services_len, 2);
    reveal_with_fuel(PacketView::services_bytes, 2);
    if services.len() == 0 {
        assert(services.push(service).skip(1) =~= Seq::<ServiceView>::empty());
        assert(PacketView::services_bytes(services.push(service)) =~= service.bytes());
        assert(PacketView::services_bytes(services) + service.bytes() =~= service.bytes());
    } else {
        lemma_services_push(services.skip(1), service);
        assert(services.push(service).skip(1) =~= services.skip(1).push(service));
        assert(services.push(service)[0] == services[0]);
        assert(PacketView::services_bytes(services.push(service)) =~= PacketView::services_bytes(
            services,
        ) + service.bytes());
    }
}

/// A packet in the `cc_data` bitstream.
#[derive(Debug)]
pub struct DTVCCPacket {
    seq_no: u8,
    services: Vec<Service>,
}

impl View for DTVCCPacket {
    type V = PacketView;

    closed spec fn view(&self) -> PacketView {
        PacketView { seq_no: self.seq_no, services: service_views(self.services@) }
    }
}

impl DTVCCPacket {
    /// Create a new [`DTVCCPacket`] without services.
    pub fn new(seq_no: u8) -> (r: DTVCCPacket)
        requires
            seq_no <= 3,
        ensures
            r@ == (PacketView { seq_no, services: Seq::empty() }),
            r@.wf(),
    {
        let r = DTVCCPacket { seq_no, services: Vec::new() };
        assert(service_views(r.services@) =~= Seq::empty());
        r
    }

    /// The sequence number of this [`DTVCCPacket`].
    pub fn sequence_no(&self) -> (r: u8)
        ensures
            r == self@.seq_no,
    {
        self.seq_no
    }

    /// The number of bytes that can still be added to this [`DTVCCPacket`].
    /// A packet holds up to 128 bytes, its header among them.
    pub fn free_space(&self) -> (r: usize)
        requires
            self@.wf(),
        ensures
            r == 128 - self@.len(),
    {
        128 - self.len()
    }

    /// The number of bytes that this [`DTVCCPacket`] takes up, its header
    /// included and its padding not.
    pub fn len(&self) -> (r: usize)
        requires
            self@.wf(),
        ensures
            r == self@.len(),
            r <= 128,
    {
        let mut total: usize = 0;
        let mut i: usize = 0;
        proof {
            lemma_services_len_prefix(self@.services, 0);
        }
        while i < self.services.len()
            invariant
                i <= self.services.len(),
                self@.wf(),
                total == PacketView::services_len(self@.services.take(i as int)),
                total <= 127,
            decreases self.services.len() - i,
        {
            proof {
                lemma_services_len_prefix(self@.services, i as int + 1);
                assert(self@.services.take(i as int + 1) =~= self@.services.take(i as int).push(
                    self@.services[i as int],
                ));
                lemma_services_push(self@.services.take(i as int), self@.services[i as int]);
                assert(self@.services[i as int].wf());
            }
            total = total + self.services[i].len();
            i = i + 1;
        }
        assert(self@.services.take(i as int) =~= self@.services);
        if total > 0 {
            1 + total
        } else {
            0
        }
    }

    /// Adds a service block to the end of this [`DTVCCPacket`].
    ///
    /// A block that does not fit in what is left of the 128 bytes is refused,
    /// and so is a service without codes.
    pub fn push_service(&mut self, service: Service) -> (r: Result<(), WriterError>)
        requires
            old(self)@.wf(),
            service@.wf(),
        ensures
            final(self)@.wf(),
            service@.len() + old(self)@.len() > 128 ==> r == Err::<(), WriterError>(
                WriterError::WouldOverflow((service@.len() + old(self)@.len() - 128) as usize),
            ),
            service@.len() + old(self)@.len() <= 128 && service@.codes.len() == 0 ==> r == Err::<
                (),
                WriterError,
            >(WriterError::EmptyService),
            service@.len() + old(self)@.len() <= 128 && service@.codes.len() > 0 ==> r is Ok,
            r is Ok ==> final(self)@ == (PacketView {
                seq_no: old(self)@.seq_no,
                services: old(self)@.services.push(service@),
            }),
            r is Err ==> final(self)@ == old(self)@,
    {
        let needed = service.len();
        let free = self.free_space();
        if needed > free {
            return Err(WriterError::WouldOverflow(needed - free));
        }
        if service.is_empty() {
            return Err(WriterError::EmptyService);
        }
        proof {
            lemma_services_push(self@.services, service@);
            assert(service_views(self.services@.push(service)) =~= self@.services.push(service@));
        }
        self.services.push(service);
        Ok(())
    }

    /// The sequence number that a header byte holds, and the number of bytes
    /// that it says will follow.
    pub fn parse_hdr_byte(byte: u8) -> (r: (u8, usize))
        ensures
            r == PacketView::parse_hdr_byte(byte),
            r.0 <= 3,
            1 <= r.1 <= 127,
            r.1 % 2 == 1,
    {
        let seq_no: u8 = (byte & 0xC0) >> 6;
        let code: u8 = byte & 0x3F;
        assert((byte & 0xC0) >> 6 <= 3 && byte & 0x3F <= 63) by (bit_vector);
        let len: usize = if code == 0 {
            127
        } else {
            (code as usize) * 2 - 1
        };
        (seq_no, len)
    }

    /// Reads `data` as a packet.
    ///
    /// Fails with `LengthMismatch` if there is no data, if the data is longer
    /// than its header says, or if a service block in it is cut short.
    pub fn parse(data: &[u8]) -> (r: Result<DTVCCPacket, ParserError>)
        ensures
            r is Ok <==> PacketView::parse(data@) is Ok,
            r matches Ok(packet) ==> PacketView::parse(data@) == Ok::<PacketView, ParserError>(
                packet@,
            ) && packet@.wf(),
            r matches Err(e) ==> PacketView::parse(data@) == Err::<PacketView, ParserError>(e),
    {
        if data.len() == 0 {
            return Err(ParserError::LengthMismatch { expected: 1, actual: 0 });
        }
        let (seq_no, len) = DTVCCPacket::parse_hdr_byte(data[0]);
        if len + 1 < data.len() {
            return Err(ParserError::LengthMismatch { expected: len + 1, actual: data.len() });
        }
        let mut offset: usize = 1;
        let mut services: Vec<Service> = Vec::new();
        let ghost mut found: Seq<ServiceView> = Seq::empty();
        proof {
            assert(service_views(services@) =~= found);
            lemma_after_nothing(PacketView::parse_services(data@.skip(1)));
        }
        while offset < data.len()
            invariant
                1 <= offset <= data.len() <= 128,
                (seq_no, len) == PacketView::parse_hdr_byte(data@[0]),
                len + 1 >= data.len(),
                found == service_views(services@),
                PacketView::parse_services(data@.skip(1)) == after_services(
                    found,
                    PacketView::parse_services(data@.skip(offset as int)),
                ),
                PacketView::all_proper(found),
                PacketView::services_len(found) <= offset - 1,
            decreases data.len() - offset,
        {
            let rest = &data[offset..data.len()];
            assert(rest@ == data@.skip(offset as int));
            let service = match Service::parse(rest) {
                Ok(service) => service,
                Err(e) => {
                    return Err(e);
                },
            };
            let n = service.len();
            if n == 0 {
                assert(rest@.skip(1) =~= data@.skip(offset as int + 1));
                offset = offset + 1;
                continue ;
            }
            proof {
                assert(rest@.skip(n as int) =~= data@.skip(offset + n));
                lemma_after_one_more(
                    found,
                    service@,
                    PacketView::parse_services(rest@.skip(n as int)),
                );
                lemma_services_push(found, service@);
                assert(service_views(services@.push(service)) =~= found.push(service@));
                found = found.push(service@);
            }
            offset = offset + n;
            services.push(service);
        }
        proof {
            assert(data@.skip(offset as int) =~= Seq::<u8>::empty());
            assert(found + Seq::<ServiceView>::empty() =~= found);
        }
        Ok(DTVCCPacket { seq_no, services })
    }

    /// The services of this [`DTVCCPacket`], in order.
    pub fn services(&self) -> (r: &[Service])
        ensures
            service_views(r@) == self@.services,
    {
        self.services.as_slice()
    }

    /// The number of byte pairs that this [`DTVCCPacket`] takes up.
    pub fn cc_count(&self) -> (r: usize)
        requires
            self@.wf(),
        ensures
            r == self@.cc_count(),
            r <= 64,
    {
        (self.len() + 1) / 2
    }

    /// The header byte of this [`DTVCCPacket`].
    pub fn hdr_byte(&self) -> (r: u8)
        requires
            self@.wf(),
        ensures
            r == self@.hdr_byte(),
    {
        (self.seq_no & 0x03) << 6 | (self.cc_count() as u8 & 0x3F)
    }

    /// Appends the bytes of this [`DTVCCPacket`]: the header byte, the
    /// service blocks, and a padding byte of `0x00` where their number is odd.
    pub fn write(&self, w: &mut Vec<u8>)
        requires
            self@.wf(),
        ensures
            final(w)@ == old(w)@ + self@.bytes(),
    {
        w.push(self.hdr_byte());
        let mut i: usize = 0;
        proof {
            assert(self@.services.take(0) =~= Seq::<ServiceView>::empty());
            assert(w@ =~= old(w)@ + seq![self@.hdr_byte()] + PacketView::services_bytes(
                self@.services.take(0),
            ));
        }
        while i < self.services.len()
            invariant
                i <= self.services.len(),
                self@.wf(),
                w@ =~= old(w)@ + seq![self@.hdr_byte()] + PacketView::services_bytes(
                    self@.services.take(i as int),
                ),
            decreases self.services.len() - i,
        {
            proof {
                assert(self@.services.take(i as int + 1) =~= self@.services.take(i as int).push(
                    self@.services[i as int],
                ));
                lemma_services_push(self@.services.take(i as int), self@.services[i as int]);
                assert(self@.services[i as int].wf());
            }
            self.services[i].write(w);
            i = i + 1;
        }
        assert(self@.services.take(i as int) =~= self@.services);
        if self.len() % 2 == 1 {
            w.push(0x00);
        }
        assert(w@ =~= old(w)@ + self@.bytes());
    }

    /// Appends this [`DTVCCPacket`] as `cc_data` triples: its bytes two to a
    /// triple, the first triple marked as the start of a packet. Nothing is
    /// written for a packet without services.
    pub fn write_as_cc_data(&self, w: &mut Vec<u8>)
        requires
            self@.wf(),
        ensures
            final(w)@ == old(w)@ + self@.cc_data(),
    {
        if self.services.len() == 0 {
            assert(self@.services.len() == 0);
            assert(w@ + Seq::<u8>::empty() =~= w@);
            return ;
        }
        assert(self@.services.len() != 0);
        let mut payload: Vec<u8> = Vec::new();
        self.write(&mut payload);
        assert(payload@ =~= self@.bytes());
        write_dtvcc_triples(payload.as_slice(), w);
    }
}

/// The first services of a sequence take up no more bytes than all of them.
pub proof fn lemma_services_len_prefix(services: Seq<ServiceView>, n: int)
    requires
        0 <= n <= services.len(),
    ensures
        PacketView::services_len(services.take(n)) <= PacketView::services_len(services),
        n == 0 ==> PacketView::services_len(services.take(n)) == 0,
    decreases services.len() - n,
{
    if n == services.len() {
        assert(services.take(n) =~= services);
    } else {
        lemma_services_len_prefix(services, n + 1);
        assert(services.take(n + 1) =~= services.take(n).push(services[n]));
        lemma_services_push(services.take(n), services[n]);
    }
    if n == 0 {
        assert(services.take(0) =~= Seq::<ServiceView>::empty());
    }
}

} // verus!
