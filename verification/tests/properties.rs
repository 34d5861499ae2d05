use cea708_types::tables::{
    Anchor, Code, CodeError, DefineWindowArgs, Ext1, SetPenLocationArgs, WindowBits,
};
use cea708_types::{
    CCDataParser, CCDataWriter, Cea608, DTVCCPacket, Framerate, ParserError, Service, WriterError,
};

fn written(code: &Code) -> Vec<u8> {
    let mut bytes = vec![];
    code.write(&mut bytes);
    bytes
}

fn service_of(number: u8, codes: &[Code]) -> Service {
    let mut service = Service::new(number);
    for code in codes {
        service.push_code(code).unwrap();
    }
    service
}

fn sample_codes() -> Vec<Code> {
    vec![
        Code::NUL,
        Code::LatinLowerQ,
        Code::MusicalSymbolEighthNote,
        Code::LatinLowerYWithDiaeresis,
        Code::SetCurrentWindow5,
        Code::Reset,
        Code::P16(0xBEEF),
        Code::Ext1(Ext1::TradeMarkSign),
        Code::Ext1(Ext1::Unknown(vec![0x09, 0x55])),
        Code::Ext1(Ext1::Unknown(vec![0x92, 0x02, 0xAA])),
        Code::DeleteWindows(WindowBits::from_u8(0xA5)),
        Code::SetPenLocation(SetPenLocationArgs::new(14, 41)),
        Code::DefineWindow(DefineWindowArgs::new(
            7,
            7,
            Anchor::Undefined15,
            true,
            127,
            255,
            15,
            63,
            false,
            true,
            false,
            7,
            7,
        )),
        Code::Unknown(vec![0x11, 0x22]),
        Code::Unknown(vec![0x1F, 0x01, 0x02]),
        Code::Delay(0x05),
        Code::Unknown(vec![0x95]),
    ]
}

#[test]
fn a_code_is_read_back_from_its_bytes() {
    for code in sample_codes() {
        let bytes = written(&code);
        assert_eq!(bytes.len(), code.byte_len());
        assert_eq!(Code::expected_size(&bytes), Ok(bytes.len()));
        assert_eq!(Code::parse_element(&bytes), Ok(code.clone()));
        assert_eq!(Code::from_data(&bytes), Ok(vec![code]));
    }
}

#[test]
fn codes_are_read_back_from_their_bytes_in_a_row() {
    let codes = sample_codes();
    let mut bytes = vec![];
    for code in codes.iter() {
        code.write(&mut bytes);
    }
    assert_eq!(Code::from_data(&bytes), Ok(codes));
}

#[test]
fn delay_is_read_back_from_its_bytes() {
    let code = Code::Delay(0x05);
    assert_eq!(code.byte_len(), 2);
    assert_eq!(written(&code), [0x8D, 0x05]);
    assert_eq!(Code::from_data(&[0x8D, 0x05]), Ok(vec![Code::Delay(0x05)]));
    assert_eq!(
        Code::from_data(&[0x8D]),
        Err(CodeError::LengthMismatch { expected: 2, actual: 1 })
    );

    let mut service = Service::new(1);
    service.push_code(&code).unwrap();
    let mut bytes = vec![];
    service.write(&mut bytes);
    assert_eq!(bytes, [0x22, 0x8D, 0x05]);
    assert_eq!(Service::parse(&bytes).unwrap().codes(), [Code::Delay(0x05)]);

    let mut packet = DTVCCPacket::new(0);
    packet.push_service(service).unwrap();
    let mut bytes = vec![];
    packet.write(&mut bytes);
    assert_eq!(bytes, [0x02, 0x22, 0x8D, 0x05]);
    let read = DTVCCPacket::parse(&bytes).unwrap();
    assert_eq!(read.services()[0].codes(), [Code::Delay(0x05)]);
}

#[test]
fn arguments_out_of_range_lose_their_high_bits() {
    let code = Code::SetPenLocation(SetPenLocationArgs::new(0x15, 0x48));
    assert_eq!(written(&code), [0x92, 0x05, 0x08]);
    assert_eq!(
        Code::from_data(&[0x92, 0x05, 0x08]),
        Ok(vec![Code::SetPenLocation(SetPenLocationArgs::new(5, 8))])
    );
}

#[test]
fn an_unknown_code_with_the_bytes_of_a_known_one_is_read_as_the_known_one() {
    let code = Code::Unknown(vec![0x41]);
    assert_eq!(written(&code), [0x41]);
    assert_eq!(Code::from_data(&[0x41]), Ok(vec![Code::LatinCapitalA]));
    let code = Code::Ext1(Ext1::Unknown(vec![0x39]));
    assert_eq!(code.byte_len(), 2);
    assert_eq!(written(&code), [0x10, 0x39]);
    assert_eq!(Code::from_data(&[0x10, 0x39]), Ok(vec![Code::Ext1(Ext1::TradeMarkSign)]));
}

#[test]
fn a_service_is_read_back_from_its_bytes() {
    let codes = sample_codes();
    for number in [1, 2, 6, 7, 8, 31, 63] {
        let service = service_of(number, &codes[..8]);
        let mut bytes = vec![];
        service.write(&mut bytes);
        assert_eq!(bytes.len(), service.len());
        let read = Service::parse(&bytes).unwrap();
        assert_eq!(read.number(), number);
        assert_eq!(read.codes(), &codes[..8]);
        assert_eq!(read.len(), service.len());
    }
}

#[test]
fn a_service_without_codes_is_read_back_up_to_number_seven() {
    for number in 1..=7 {
        let service = Service::new(number);
        let mut bytes = vec![];
        service.write(&mut bytes);
        let read = Service::parse(&bytes).unwrap();
        assert_eq!(read.number(), number);
        assert!(read.is_empty());
    }
    let service = Service::new(8);
    let mut bytes = vec![];
    service.write(&mut bytes);
    assert_eq!(bytes, [0xE0, 0x08]);
    let read = Service::parse(&bytes).unwrap();
    assert_eq!(read.number(), 7);
    assert!(read.is_empty());
}

#[test]
fn a_packet_is_read_back_from_its_bytes() {
    let codes = sample_codes();
    let mut packet = DTVCCPacket::new(2);
    packet.push_service(service_of(1, &codes[..7])).unwrap();
    packet.push_service(service_of(9, &codes[7..11])).unwrap();
    packet.push_service(service_of(63, &codes[11..13])).unwrap();
    let mut bytes = vec![];
    packet.write(&mut bytes);
    assert_eq!(bytes.len(), 2 * packet.cc_count());
    let read = DTVCCPacket::parse(&bytes).unwrap();
    assert_eq!(read.sequence_no(), 2);
    assert_eq!(read.len(), packet.len());
    assert_eq!(read.services().len(), 3);
    assert_eq!(read.services()[0].number(), 1);
    assert_eq!(read.services()[0].codes(), &codes[..7]);
    assert_eq!(read.services()[1].number(), 9);
    assert_eq!(read.services()[1].codes(), &codes[7..11]);
    assert_eq!(read.services()[2].number(), 63);
    assert_eq!(read.services()[2].codes(), &codes[11..13]);
}

#[test]
fn a_packet_without_services_is_read_back_from_its_bytes() {
    let packet = DTVCCPacket::new(3);
    assert_eq!(packet.len(), 0);
    assert_eq!(packet.cc_count(), 0);
    let mut bytes = vec![];
    packet.write(&mut bytes);
    assert_eq!(bytes, [0xC0]);
    let read = DTVCCPacket::parse(&bytes).unwrap();
    assert_eq!(read.sequence_no(), 3);
    assert!(read.services().is_empty());
    let mut triples = vec![];
    packet.write_as_cc_data(&mut triples);
    assert!(triples.is_empty());
}

#[test]
fn a_character_leads_back_to_its_code() {
    for c in ['A', '~', '\u{266A}', '\u{A0}', '\u{24C7}', '\u{0110}', '\u{FF}', '\u{2026}', '\u{215E}'] {
        let code = Code::from_char(c).unwrap();
        assert_eq!(code.char(), Some(c));
    }
    assert_eq!(Code::from_char('\u{266A}'), Some(Code::MusicalSymbolEighthNote));
    assert_eq!(Code::from_char('\u{2122}'), Some(Code::Ext1(Ext1::TradeMarkSign)));
    assert_eq!(Code::from_char('\u{AE}'), None);
    assert_eq!(Code::from_char('\u{D0}'), None);
    assert_eq!(Code::from_char('\u{7F}'), None);
    assert_eq!(Code::from_char('\n'), None);
    assert_eq!(Code::from_char('\u{4E2D}'), None);
    assert_eq!(Code::CR.char(), None);
    assert_eq!(Code::Reset.char(), None);
    assert_eq!(Code::P16(0x41).char(), None);
    assert_eq!(Code::Unknown(vec![0x41]).char(), None);
    assert_eq!(Code::Ext1(Ext1::SolidDot).char(), None);
}

#[test]
fn frames_are_read_back_one_by_one() {
    let codes = sample_codes();
    let framerate = Framerate::new(25, 1);
    let mut writer = CCDataWriter::default();
    let mut parser = CCDataParser::new();
    let batches: [&[(u8, u8, usize, usize)]; 4] = [
        &[(0, 1, 0, 3)],
        &[],
        &[(1, 2, 3, 8), (2, 7, 8, 12), (3, 63, 12, 17)],
        &[(0, 1, 0, 13)],
    ];
    for batch in batches {
        for (seq_no, number, from, to) in batch {
            let mut packet = DTVCCPacket::new(*seq_no);
            packet.push_service(service_of(*number, &codes[*from..*to])).unwrap();
            writer.push_packet(packet);
        }
        let mut frame = vec![];
        writer.write(framerate, &mut frame);
        parser.push(&frame).unwrap();
        for (seq_no, number, from, to) in batch {
            let read = parser.pop_packet().unwrap();
            assert_eq!(read.sequence_no(), *seq_no);
            assert_eq!(read.services().len(), 1);
            assert_eq!(read.services()[0].number(), *number);
            assert_eq!(read.services()[0].codes(), &codes[*from..*to]);
        }
        assert!(parser.pop_packet().is_none());
    }
}

#[test]
fn frames_are_read_back_with_padding() {
    let framerate = Framerate::new(30, 1);
    let mut writer = CCDataWriter::default();
    writer.set_output_padding(true);
    let mut packet = DTVCCPacket::new(1);
    packet.push_service(service_of(1, &[Code::LatinCapitalA])).unwrap();
    writer.push_packet(packet);
    let mut frame = vec![];
    writer.write(framerate, &mut frame);
    assert_eq!(frame.len(), 2 + 20 * 3);
    assert_eq!(&frame[..11], [0xC0 | 20, 0xFF, 0xFF, 0x42, 0x21, 0xFE, 0x41, 0x00, 0xFA, 0x00, 0x00]);
    let mut parser = CCDataParser::new();
    parser.push(&frame).unwrap();
    let read = parser.pop_packet().unwrap();
    assert_eq!(read.sequence_no(), 1);
    assert_eq!(read.services()[0].codes(), [Code::LatinCapitalA]);
    assert!(parser.pop_packet().is_none());
}

#[test]
fn a_frame_of_the_wrong_length_is_refused() {
    let mut parser = CCDataParser::new();
    assert_eq!(
        parser.push(&[0xC2, 0xFF, 0xFF, 0x02, 0x21]),
        Err(ParserError::LengthMismatch { expected: 7, actual: 5 })
    );
    assert_eq!(
        parser.push(&[0xC1, 0xFF, 0xFF, 0x02, 0x21, 0xFE, 0x41, 0x00]),
        Err(ParserError::LengthMismatch { expected: 4, actual: 8 })
    );
    assert!(parser.pop_packet().is_none());
    // frames that are not looked into are accepted whatever their length
    assert_eq!(parser.push(&[0xC2, 0xFF, 0xFF, 0x02]), Ok(()));
    assert_eq!(parser.push(&[0x82, 0xFF, 0xFF, 0x02, 0x21]), Ok(()));
    assert_eq!(parser.push(&[0xC0, 0xFF, 0xFF, 0x02, 0x21]), Ok(()));
    assert_eq!(parser.push(&[]), Ok(()));
    assert!(parser.pop_packet().is_none());
}

#[test]
fn cea608_after_dtvcc_is_refused() {
    let mut parser = CCDataParser::new();
    parser.handle_cea608();
    // an invalid DTVCC triple, then a valid triple of field 2
    assert_eq!(
        parser.push(&[0xC3, 0xFF, 0xFC, 0x20, 0x21, 0xFA, 0x00, 0x00, 0xFD, 0x41, 0x42]),
        Err(ParserError::Cea608AfterCea708 { byte_pos: 6 })
    );
    assert_eq!(parser.cea608().unwrap(), [Cea608::Field1(0x20, 0x21)]);
    // an invalid CEA-608 triple after DTVCC data is passed over
    assert_eq!(
        parser.push(&[0xC3, 0xFF, 0xFF, 0x02, 0x21, 0xF8, 0x80, 0x80, 0xFE, 0x41, 0x00]),
        Ok(())
    );
    assert_eq!(parser.cea608().unwrap(), []);
    let read = parser.pop_packet().unwrap();
    assert_eq!(read.services()[0].codes(), [Code::LatinCapitalA]);
}

#[test]
fn the_null_service_is_empty_and_read_only() {
    let mut service = Service::new(0);
    assert_eq!(service.len(), 0);
    assert_eq!(service.push_code(&Code::LatinCapitalA), Err(WriterError::ReadOnly));
    assert_eq!(service.len(), 0);
    assert!(service.is_empty());
    assert_eq!(service.free_space(), 31);
}

#[test]
fn the_largest_packet_has_size_code_zero() {
    let mut codes = vec![];
    for _ in 0..31 {
        codes.push(Code::LatinCapitalA);
    }
    // three services of 33 bytes and one of 28 bytes: 127 bytes
    let mut packet = DTVCCPacket::new(1);
    packet.push_service(service_of(7, &codes)).unwrap();
    packet.push_service(service_of(8, &codes)).unwrap();
    packet.push_service(service_of(9, &codes)).unwrap();
    assert_eq!(packet.free_space(), 28);
    packet.push_service(service_of(10, &codes[..26])).unwrap();
    assert_eq!(packet.len(), 128);
    assert_eq!(packet.free_space(), 0);
    assert_eq!(packet.cc_count(), 64);
    assert_eq!(packet.hdr_byte(), 0x40);
    let mut bytes = vec![];
    packet.write(&mut bytes);
    assert_eq!(bytes.len(), 128);
    assert_eq!(bytes[0], 0x40);
    assert_eq!(DTVCCPacket::parse_hdr_byte(bytes[0]), (1, 127));
    let read = DTVCCPacket::parse(&bytes).unwrap();
    assert_eq!(read.len(), 128);
    assert_eq!(read.services().len(), 4);
    assert_eq!(read.services()[3].number(), 10);
    assert_eq!(read.services()[3].codes(), &codes[..26]);

    // 126 bytes of services are padded to the same size
    let mut packet = DTVCCPacket::new(2);
    packet.push_service(service_of(7, &codes)).unwrap();
    packet.push_service(service_of(8, &codes)).unwrap();
    packet.push_service(service_of(9, &codes)).unwrap();
    packet.push_service(service_of(10, &codes[..25])).unwrap();
    assert_eq!(packet.len(), 127);
    assert_eq!(packet.hdr_byte(), 0x80);
    let mut bytes = vec![];
    packet.write(&mut bytes);
    assert_eq!(bytes.len(), 128);
    assert_eq!(bytes[127], 0x00);
    let read = DTVCCPacket::parse(&bytes).unwrap();
    assert_eq!(read.len(), 127);
}

#[test]
fn services_from_seven_on_have_a_header_of_two_bytes() {
    for number in 1..=6 {
        let service = service_of(number, &[Code::LatinCapitalA, Code::LatinCapitalB]);
        assert_eq!(service.len(), 3);
        let mut bytes = vec![];
        service.write(&mut bytes);
        assert_eq!(bytes, [number << 5 | 2, 0x41, 0x42]);
    }
    for number in 7..=63 {
        let service = service_of(number, &[Code::LatinCapitalA, Code::LatinCapitalB]);
        assert_eq!(service.len(), 4);
        let mut bytes = vec![];
        service.write(&mut bytes);
        assert_eq!(bytes, [0xE0 | 2, number, 0x41, 0x42]);
    }
}

#[test]
fn frame_budgets() {
    assert_eq!(Framerate::new(60, 1).cea608_pairs_per_frame(), 1);
    assert_eq!(Framerate::new(30, 1).cea608_pairs_per_frame(), 2);
    assert_eq!(Framerate::new(60, 1).max_cc_count(), 10);
    assert_eq!(Framerate::new(30, 1).max_cc_count(), 20);
    assert_eq!(Framerate::new(25, 1).cea608_pairs_per_frame(), 2);
    assert_eq!(Framerate::new(25, 1).max_cc_count(), 24);
    // halves are rounded up
    assert_eq!(Framerate::new(24, 1).cea608_pairs_per_frame(), 3);
    assert_eq!(Framerate::new(24, 1).max_cc_count(), 25);
    assert_eq!(Framerate::new(30000, 1001).cea608_pairs_per_frame(), 2);
    assert_eq!(Framerate::new(30000, 1001).max_cc_count(), 20);
    assert_eq!(Framerate::new(60000, 1001).max_cc_count(), 10);
    assert_eq!(Framerate::new(1, 7158278).max_cc_count(), 4294966800);
}

#[test]
fn empty_cea608_pairs_are_not_queued() {
    let mut writer = CCDataWriter::default();
    writer.push_cea608(Cea608::Field1(0x80, 0x80));
    writer.push_cea608(Cea608::Field2(0x80, 0x80));
    assert_eq!(writer.buffered_cea608_field1_duration(), std::time::Duration::ZERO);
    assert_eq!(writer.buffered_cea608_field2_duration(), std::time::Duration::ZERO);
    let mut frame = vec![];
    writer.write(Framerate::new(30, 1), &mut frame);
    assert_eq!(frame, [0xC0, 0xFF]);
    // one of the two bytes may be 0x80
    writer.push_cea608(Cea608::Field1(0x80, 0x81));
    writer.push_cea608(Cea608::Field2(0x20, 0x80));
    let mut frame = vec![];
    writer.write(Framerate::new(30, 1), &mut frame);
    assert_eq!(frame, [0xC2, 0xFF, 0xFC, 0x80, 0x81, 0xFD, 0x20, 0x80]);
}

#[test]
fn a_code_that_is_cut_short_is_refused() {
    assert_eq!(
        Code::from_data(&[0x41, 0x90, 0x01]),
        Err(CodeError::LengthMismatch { expected: 3, actual: 2 })
    );
    assert_eq!(
        Code::from_data(&[0x10]),
        Err(CodeError::LengthMismatch { expected: 1, actual: 0 })
    );
}
