//! Services and packets are read back from the bytes written for them.
//!
//! This holds of services and packets whose codes are all canonical, see
//! [`CodeView::canonical`]. A service without codes is read back only if its
//! number is at most 7: without codes the extended header is not recognised,
//! and a higher number is read as 7.

use crate::packet::{after_services, lemma_after_one_more, PacketView};
use crate::parser::ParserError;
use crate::service::{lemma_service_parse_wf, ServiceView};
use crate::tables::roundtrip::{
    lemma_code_size, lemma_codes_read_back, lemma_parse_all_canonical,
};
use crate::tables::CodeView;
use vstd::prelude::*;

verus! {

/// The header of a service: one byte for the services up to 6, two bytes for
/// the services from 7 on. The fields of a proper service fit their bits.
pub proof fn lemma_service_header(service: ServiceView)
    requires
        service.wf(),
    ensures
        service.number <= 6 ==> service.header() == seq![
            (service.number << 5 | service.codes_len() as u8),
        ],
        service.number >= 7 ==> service.header() == seq![
            0xE0u8 | service.codes_len() as u8,
            service.number,
        ],
        service.header().len() == service.header_len(),
        service.bytes().len() == service.header_len() + service.codes_len(),
{
    let n = service.number;
    let l = service.codes_len() as u8;
    assert(l & 0x1F == l && n & 0x3F == n) by (bit_vector)
        requires
            l <= 31,
            n < 64,
    ;
}

/// A service with canonical codes takes up at least one byte for each code.
pub proof fn lemma_canonical_codes_len(codes: Seq<CodeView>)
    requires
        CodeView::all_canonical(codes),
    ensures
        CodeView::bytes_of_all(codes).len() >= codes.len(),
    decreases codes.len(),
{
    if codes.len() > 0 {
        let tail = codes.skip(1);
        assert forall|i: int| 0 <= i < tail.len() implies (#[trigger] tail[i]).canonical() by {
            assert(tail[i] == codes[i + 1]);
        }
        lemma_canonical_codes_len(tail);
        assert(codes[0].canonical());
        lemma_code_size(codes[0], Seq::empty());
    }
}

/// A service that holds canonical codes is read back from its bytes,
/// whatever follows them. A service without codes is read back if its number
/// is at most 7.
pub proof fn lemma_service_read_back(service: ServiceView, rest: Seq<u8>)
    requires
        service.wf(),
        service.number >= 1,
        CodeView::all_canonical(service.codes),
        service.codes.len() > 0 || service.number <= 7,
    ensures
        ServiceView::parse(service.bytes() + rest) == Ok::<ServiceView, ParserError>(service),
{
    reveal(ServiceView::parse);
    let data = service.bytes() + rest;
    let n = service.number;
    let l = service.codes_len() as u8;
    let codes_bytes = CodeView::bytes_of_all(service.codes);
    lemma_service_header(service);
    lemma_canonical_codes_len(service.codes);
    lemma_codes_read_back(service.codes);
    if n >= 7 {
        assert(((0xE0u8 | l) & 0xE0) >> 5 == 7 && (0xE0u8 | l) & 0x1F == l && n & 0x3F == n)
            by (bit_vector)
            requires
                l <= 31,
                n < 64,
        ;
        assert(data[0] == 0xE0u8 | l);
        assert(data[1] == n);
        if l != 0 {
            assert(data.subrange(2, 2 + l) =~= codes_bytes);
        } else {
            assert(service.codes.len() == 0);
            assert(n == 7);
            assert(data.subrange(1, 1) =~= codes_bytes);
        }
    } else {
        assert(((n << 5 | l) & 0xE0) >> 5 == n && (n << 5 | l) & 0x1F == l) by (bit_vector)
            requires
                l <= 31,
                n <= 6,
        ;
        assert(data[0] == n << 5 | l);
        assert(data.subrange(1, 1 + l) =~= codes_bytes);
    }
    assert(ServiceView { number: n, codes: service.codes } == service);
}

impl PacketView {
    /// Whether all the codes of all the services are canonical.
    pub open spec fn all_canonical(services: Seq<ServiceView>) -> bool {
        forall|i: int|
            0 <= i < services.len() ==> CodeView::all_canonical((#[trigger] services[i]).codes)
    }
}

/// The services of a packet take up as many bytes as are written for them.
pub proof fn lemma_services_bytes_len(services: Seq<ServiceView>)
    requires
        PacketView::all_proper(services),
    ensures
        PacketView::services_bytes(services).len() == PacketView::services_len(services),
    decreases services.len(),
{
    if services.len() > 0 {
        let tail = services.skip(1);
        assert forall|i: int| 0 <= i < tail.len() implies (#[trigger] tail[i]).wf()
            && tail[i].codes.len() > 0 by {
            assert(tail[i] == services[i + 1]);
        }
        lemma_services_bytes_len(tail);
        assert(services[0].wf() && services[0].codes.len() > 0);
        lemma_service_header(services[0]);
    }
}

/// The services of a packet are read back from their bytes, and reading goes
/// on with what follows them.
pub proof fn lemma_services_read_back(services: Seq<ServiceView>, rest: Seq<u8>)
    requires
        PacketView::all_proper(services),
        PacketView::all_canonical(services),
    ensures
        PacketView::parse_services(PacketView::services_bytes(services) + rest) == after_services(
            services,
            PacketView::parse_services(rest),
        ),
    decreases services.len(),
{
    if services.len() == 0 {
        assert(PacketView::services_bytes(services) + rest =~= rest);
        crate::packet::lemma_after_nothing(PacketView::parse_services(rest));
        assert(services =~= Seq::empty());
    } else {
        let first = services[0];
        let tail = services.skip(1);
        let data = PacketView::services_bytes(services) + rest;
        let more = PacketView::services_bytes(tail) + rest;
        assert forall|i: int| 0 <= i < tail.len() implies (#[trigger] tail[i]).wf()
            && tail[i].codes.len() > 0 && CodeView::all_canonical(tail[i].codes) by {
            assert(tail[i] == services[i + 1]);
        }
        lemma_services_read_back(tail, rest);
        assert(first.wf() && first.codes.len() > 0 && CodeView::all_canonical(first.codes));
        lemma_service_header(first);
        lemma_service_read_back(first, more);
        assert(data =~= first.bytes() + more);
        assert(first.len() == first.bytes().len());
        assert(data.skip(first.len() as int) =~= more);
        lemma_after_one_more(Seq::empty(), first, PacketView::parse_services(rest));
        let read_rest = PacketView::parse_services(rest);
        match read_rest {
            Ok(found) => {
                assert(seq![first] + (tail + found) =~= services + found);
            },
            Err(_) => {},
        }
    }
}

/// The largest packets, those of 127 and 128 bytes, have a header byte whose
/// low six bits are 0, and that header announces 127 bytes after it.
pub proof fn lemma_largest_packet_header(packet: PacketView)
    requires
        packet.wf(),
        packet.len() >= 127,
    ensures
        packet.cc_count() == 64,
        packet.hdr_byte() & 0x3F == 0,
        PacketView::parse_hdr_byte(packet.hdr_byte()).1 == 127,
{
    let s = packet.seq_no;
    assert(((s & 0x03) << 6 | (64u8 & 0x3F)) & 0x3F == 0) by (bit_vector);
}

/// A packet whose codes are all canonical is read back from its bytes.
pub proof fn lemma_packet_read_back(packet: PacketView)
    requires
        packet.wf(),
        PacketView::all_canonical(packet.services),
    ensures
        PacketView::parse(packet.bytes()) == Ok::<PacketView, ParserError>(packet),
{
    let data = packet.bytes();
    let s = packet.seq_no;
    let c = packet.cc_count() as u8;
    let written = PacketView::services_bytes(packet.services);
    let padding = if packet.len() % 2 == 1 {
        seq![0x00u8]
    } else {
        Seq::<u8>::empty()
    };
    lemma_services_bytes_len(packet.services);
    assert(c <= 64);
    assert({
        let h = (s & 0x03) << 6 | (c & 0x3F);
        &&& (h & 0xC0) >> 6 == s
        &&& c < 64 ==> h & 0x3F == c
        &&& c == 64 ==> h & 0x3F == 0
    }) by (bit_vector)
        requires
            s < 4,
            c <= 64,
    ;
    assert(data[0] == packet.hdr_byte());
    assert(data.skip(1) =~= written + padding);
    lemma_services_read_back(packet.services, padding);
    reveal_with_fuel(PacketView::parse_services, 2);
    reveal(ServiceView::parse);
    if packet.len() % 2 == 1 {
        let zero = 0x00u8;
        assert((zero & 0xE0) >> 5 == 0 && zero & 0x1F == 0) by (bit_vector)
            requires
                zero == 0,
        ;
        assert(padding.skip(1) =~= Seq::<u8>::empty());
        assert(ServiceView::parse(padding) == Ok::<ServiceView, ParserError>(
            ServiceView { number: 0, codes: Seq::empty() },
        ));
    }
    assert(PacketView::parse_services(padding) == Ok::<Seq<ServiceView>, ParserError>(
        Seq::empty(),
    ));
    assert(packet.services + Seq::<ServiceView>::empty() =~= packet.services);
    assert(PacketView { seq_no: s, services: packet.services } == packet);
}

/// The codes of a service that was read are canonical.
pub proof fn lemma_parsed_service_canonical(data: Seq<u8>)
    ensures
        ServiceView::parse(data) matches Ok(service) ==> CodeView::all_canonical(service.codes),
{
    reveal(ServiceView::parse);
    if let Ok(service) = ServiceView::parse(data) {
        if service.number != 0 {
            let block_size = data[0] & 0x1F;
            let start = if (data[0] & 0xE0) >> 5 == 7 && block_size != 0 {
                2int
            } else {
                1int
            };
            lemma_parse_all_canonical(data.subrange(start, start + block_size));
        }
    }
}

/// The services that were read from the bytes of a packet are proper ones
/// with canonical codes, and take up no more bytes than they were read from.
pub proof fn lemma_parsed_services(data: Seq<u8>)
    ensures
        PacketView::parse_services(data) matches Ok(services) ==> PacketView::all_proper(services)
            && PacketView::all_canonical(services) && PacketView::services_len(services)
            <= data.len(),
    decreases data.len(),
{
    if data.len() > 0 {
        if let Ok(services) = PacketView::parse_services(data) {
            let first = ServiceView::parse(data).unwrap();
            lemma_service_parse_wf(data);
            lemma_parsed_service_canonical(data);
            if first.len() == 0 {
                lemma_parsed_services(data.skip(1));
            } else {
                let rest = data.skip(first.len() as int);
                lemma_parsed_services(rest);
                let tail = PacketView::parse_services(rest).unwrap();
                assert(services =~= seq![first] + tail);
                assert(services.skip(1) =~= tail);
                assert forall|i: int| 0 <= i < services.len() implies (#[trigger] services[i]).wf()
                    && services[i].codes.len() > 0 && CodeView::all_canonical(
                    services[i].codes,
                ) by {
                    if i > 0 {
                        assert(services[i] == tail[i - 1]);
                    }
                }
            }
        }
    }
}

/// A packet that was read keeps to the rules of a packet, and is read back
/// from the bytes that are written for it.
pub proof fn lemma_parsed_packet_read_back(data: Seq<u8>)
    ensures
        PacketView::parse(data) matches Ok(packet) ==> packet.wf() && PacketView::all_canonical(
            packet.services,
        ) && PacketView::parse(packet.bytes()) == Ok::<PacketView, ParserError>(packet),
{
    if let Ok(packet) = PacketView::parse(data) {
        let first = data[0];
        assert((first & 0xC0) >> 6 < 4 && first & 0x3F < 64) by (bit_vector);
        lemma_parsed_services(data.skip(1));
        lemma_packet_read_back(packet);
    }
}

} // verus!
