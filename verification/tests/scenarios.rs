use cea708_types::tables::Code;
use cea708_types::{
    CCDataParser, CCDataWriter, Cea608, DTVCCPacket, Framerate, ParserError, Service,
};

fn latin_codes() -> Vec<Code> {
    let mut codes = vec![];
    for c in ('A'..='Z').chain('a'..='z') {
        codes.push(Code::from_char(c).unwrap());
    }
    codes
}

fn service_of(number: u8, codes: &[Code]) -> Service {
    let mut service = Service::new(number);
    for code in codes {
        service.push_code(code).unwrap();
    }
    service
}

fn assert_single_a(packet: &DTVCCPacket) {
    assert_eq!(packet.sequence_no(), 0);
    assert_eq!(packet.services().len(), 1);
    assert_eq!(packet.services()[0].number(), 1);
    assert_eq!(packet.services()[0].codes(), [Code::LatinCapitalA]);
}

#[test]
fn single_character() {
    let mut parser = CCDataParser::new();
    parser.push(&[0xC2, 0xFF, 0xFF, 0x02, 0x21, 0xFE, 0x41, 0x00]).unwrap();
    let packet = parser.pop_packet().unwrap();
    assert_single_a(&packet);
    assert!(parser.pop_packet().is_none());
}

#[test]
fn split_packet() {
    let mut parser = CCDataParser::new();
    parser.push(&[0xC1, 0xFF, 0xFF, 0x02, 0x21]).unwrap();
    assert!(parser.pop_packet().is_none());
    parser.push(&[0xC1, 0xFF, 0xFE, 0x41, 0x00]).unwrap();
    let packet = parser.pop_packet().unwrap();
    assert_single_a(&packet);
    assert!(parser.pop_packet().is_none());
}

#[test]
fn cea608_and_dtvcc_interleaved() {
    let mut parser = CCDataParser::new();
    parser.handle_cea608();
    parser
        .push(&[0xC3, 0xFF, 0xFC, 0x61, 0x62, 0xFD, 0x63, 0x64, 0xFF, 0x02, 0x21])
        .unwrap();
    assert_eq!(
        parser.cea608().unwrap(),
        [Cea608::Field1(0x61, 0x62), Cea608::Field2(0x63, 0x64)]
    );
    assert!(parser.pop_packet().is_none());
    parser
        .push(&[0xC3, 0xFF, 0xFC, 0x41, 0x42, 0xFD, 0x43, 0x44, 0xFE, 0x41, 0x00])
        .unwrap();
    assert_eq!(
        parser.cea608().unwrap(),
        [Cea608::Field1(0x41, 0x42), Cea608::Field2(0x43, 0x44)]
    );
    let packet = parser.pop_packet().unwrap();
    assert_single_a(&packet);
    assert!(parser.pop_packet().is_none());
}

#[test]
fn full_size_service() {
    let codes = latin_codes();
    let mut packet = DTVCCPacket::new(3);
    packet.push_service(service_of(1, &codes[..31])).unwrap();
    assert_eq!(packet.len(), 33);

    let mut writer = CCDataWriter::default();
    writer.push_packet(packet);
    let mut frame = vec![];
    writer.write(Framerate::new(25, 1), &mut frame);
    assert_eq!(frame.len(), 53);
    assert_eq!(&frame[..5], [0xC0 | 17, 0xFF, 0xFF, 0xC0 | 17, 0x20 | 31]);

    let mut next = vec![];
    writer.write(Framerate::new(25, 1), &mut next);
    assert_eq!(next, [0xC0, 0xFF]);

    let mut parser = CCDataParser::new();
    parser.push(&frame).unwrap();
    let read = parser.pop_packet().unwrap();
    assert_eq!(read.sequence_no(), 3);
    assert_eq!(read.services().len(), 1);
    assert_eq!(read.services()[0].number(), 1);
    assert_eq!(read.services()[0].codes(), &codes[..31]);
    assert!(parser.pop_packet().is_none());
}

#[test]
fn write_pacing() {
    let codes = latin_codes();
    let mut packet = DTVCCPacket::new(1);
    packet.push_service(service_of(1, &codes[..31])).unwrap();
    packet.push_service(service_of(2, &codes[31..36])).unwrap();
    assert_eq!(packet.len(), 39);

    let framerate = Framerate::new(60, 1);
    let mut writer = CCDataWriter::default();
    writer.push_packet(packet);
    let mut first = vec![];
    writer.write(framerate, &mut first);
    let mut second = vec![];
    writer.write(framerate, &mut second);
    let mut third = vec![];
    writer.write(framerate, &mut third);

    assert_eq!(first.len() + second.len(), 64);
    assert_eq!(&first[..2], [0xC0 | 10, 0xFF]);
    assert_eq!(first[2], 0xFF);
    for triple in first[5..].chunks(3) {
        assert_eq!(triple[0], 0xFE);
    }
    assert_eq!(&second[..2], [0xC0 | 10, 0xFF]);
    for triple in second[2..].chunks(3) {
        assert_eq!(triple[0], 0xFE);
    }
    assert_eq!(third, [0xC0, 0xFF]);

    let mut parser = CCDataParser::new();
    parser.push(&first).unwrap();
    assert!(parser.pop_packet().is_none());
    parser.push(&second).unwrap();
    let read = parser.pop_packet().unwrap();
    assert_eq!(read.sequence_no(), 1);
    assert_eq!(read.services().len(), 2);
    assert_eq!(read.services()[0].number(), 1);
    assert_eq!(read.services()[0].codes(), &codes[..31]);
    assert_eq!(read.services()[1].number(), 2);
    assert_eq!(read.services()[1].codes(), &codes[31..36]);
    assert!(parser.pop_packet().is_none());
}

#[test]
fn write_pacing_of_a_full_service() {
    let codes = latin_codes();
    let mut packet = DTVCCPacket::new(3);
    packet.push_service(service_of(1, &codes[..31])).unwrap();

    let framerate = Framerate::new(60, 1);
    let mut writer = CCDataWriter::default();
    writer.push_packet(packet);
    let mut first = vec![];
    writer.write(framerate, &mut first);
    let mut second = vec![];
    writer.write(framerate, &mut second);
    assert_eq!(first.len(), 2 + 10 * 3);
    assert_eq!(second.len(), 2 + 7 * 3);
    assert_eq!(second[0], 0xC0 | 7);
    assert_eq!(&second[second.len() - 3..], [0xFE, 0x65, 0x00]);

    let mut parser = CCDataParser::new();
    parser.push(&first).unwrap();
    parser.push(&second).unwrap();
    let read = parser.pop_packet().unwrap();
    assert_eq!(read.sequence_no(), 3);
    assert_eq!(read.services()[0].codes(), &codes[..31]);
}

#[test]
fn illegal_interleave() {
    let mut parser = CCDataParser::new();
    let result = parser.push(&[0xC3, 0xFF, 0xFE, 0x02, 0x21, 0xFE, 0x41, 0x00, 0xFC, 0x41, 0x42]);
    assert_eq!(result, Err(ParserError::Cea608AfterCea708 { byte_pos: 6 }));
    assert!(parser.pop_packet().is_none());
}

#[test]
fn write_pacing_of_a_packet_of_64_bytes() {
    let codes = latin_codes();
    let mut packet = DTVCCPacket::new(2);
    packet.push_service(service_of(1, &codes[..31])).unwrap();
    packet.push_service(service_of(2, &codes[21..51])).unwrap();
    assert_eq!(packet.len(), 64);
    assert_eq!(packet.cc_count(), 32);

    let framerate = Framerate::new(60, 1);
    let mut writer = CCDataWriter::default();
    writer.push_packet(packet);
    let mut parser = CCDataParser::new();
    for triples in [10, 10, 10, 2] {
        assert!(parser.pop_packet().is_none());
        let mut frame = vec![];
        writer.write(framerate, &mut frame);
        assert_eq!(frame.len(), 2 + 3 * triples);
        assert_eq!(frame[0] as usize, 0xC0 | triples);
        parser.push(&frame).unwrap();
    }
    let read = parser.pop_packet().unwrap();
    assert_eq!(read.sequence_no(), 2);
    assert_eq!(read.services().len(), 2);
    assert_eq!(read.services()[0].number(), 1);
    assert_eq!(read.services()[0].codes(), &codes[..31]);
    assert_eq!(read.services()[1].number(), 2);
    assert_eq!(read.services()[1].codes(), &codes[21..51]);
    assert!(parser.pop_packet().is_none());
    let mut frame = vec![];
    writer.write(framerate, &mut frame);
    assert_eq!(frame, [0xC0, 0xFF]);
}

#[test]
fn packets_spread_over_frames_are_read_back_in_order() {
    let codes = latin_codes();
    let framerate = Framerate::new(60, 1);
    let mut writer = CCDataWriter::default();
    writer.set_output_padding(true);
    let mut parser = CCDataParser::new();
    let lengths = [31, 1, 7, 31, 2, 19, 31, 31, 3];
    let mut expected = vec![];
    let mut read = vec![];
    for (i, length) in lengths.iter().enumerate() {
        let number = (i as u8) * 7 + 1;
        let mut packet = DTVCCPacket::new((i % 4) as u8);
        packet.push_service(service_of(number, &codes[i..i + length])).unwrap();
        writer.push_packet(packet);
        expected.push((i % 4, number, i, i + length));
        let mut frame = vec![];
        writer.write(framerate, &mut frame);
        assert_eq!(frame.len(), 32);
        parser.push(&frame).unwrap();
        while let Some(packet) = parser.pop_packet() {
            read.push(packet);
        }
    }
    for _ in 0..20 {
        let mut frame = vec![];
        writer.write(framerate, &mut frame);
        parser.push(&frame).unwrap();
        while let Some(packet) = parser.pop_packet() {
            read.push(packet);
        }
    }
    assert_eq!(read.len(), expected.len());
    for (packet, (seq_no, number, from, to)) in read.iter().zip(expected) {
        assert_eq!(packet.sequence_no() as usize, seq_no);
        assert_eq!(packet.services().len(), 1);
        assert_eq!(packet.services()[0].number(), number);
        assert_eq!(packet.services()[0].codes(), &codes[from..to]);
    }
}
