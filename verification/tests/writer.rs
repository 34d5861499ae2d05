use std::time::Duration;

use cea708_types::tables::Code;
use cea708_types::{CCDataParser, CCDataWriter, Cea608, DTVCCPacket, Framerate, Service};

fn packet_of(seq_no: u8, codes: &[Code]) -> DTVCCPacket {
    let mut service = Service::new(1);
    for code in codes {
        service.push_code(code).unwrap();
    }
    let mut packet = DTVCCPacket::new(seq_no);
    packet.push_service(service).unwrap();
    packet
}

fn frame(writer: &mut CCDataWriter, framerate: Framerate) -> Vec<u8> {
    let mut written = vec![];
    writer.write(framerate, &mut written);
    written
}

#[test]
fn settings() {
    let mut writer = CCDataWriter::default();
    assert!(!writer.output_padding());
    assert!(!writer.output_cea608_padding());
    writer.set_output_padding(true);
    assert!(writer.output_padding());
    assert!(!writer.output_cea608_padding());
    writer.set_output_cea608_padding(true);
    writer.set_output_padding(false);
    assert!(!writer.output_padding());
    assert!(writer.output_cea608_padding());
}

#[test]
fn buffered_durations() {
    let mut writer = CCDataWriter::default();
    assert_eq!(writer.buffered_cea608_field1_duration(), Duration::ZERO);
    assert_eq!(writer.buffered_cea608_field2_duration(), Duration::ZERO);
    assert_eq!(writer.buffered_packet_duration(), Duration::ZERO);
    writer.push_cea608(Cea608::Field1(0x20, 0x21));
    assert_eq!(writer.buffered_cea608_field1_duration(), Duration::from_micros(16684));
    assert_eq!(writer.buffered_cea608_field2_duration(), Duration::ZERO);
    writer.push_cea608(Cea608::Field1(0x22, 0x23));
    writer.push_cea608(Cea608::Field1(0x24, 0x25));
    writer.push_cea608(Cea608::Field2(0x26, 0x27));
    writer.push_cea608(Cea608::Field2(0x28, 0x29));
    assert_eq!(writer.buffered_cea608_field1_duration(), Duration::from_micros(50050));
    assert_eq!(writer.buffered_cea608_field2_duration(), Duration::from_micros(33367));
    // a packet of three bytes is two pairs of bytes
    writer.push_packet(packet_of(0, &[Code::LatinCapitalA]));
    assert_eq!(writer.buffered_packet_duration(), Duration::from_micros(3337));
    writer.push_packet(packet_of(1, &[Code::LatinCapitalA, Code::LatinCapitalB]));
    assert_eq!(writer.buffered_packet_duration(), Duration::from_micros(6674));
    writer.flush();
    assert_eq!(writer.buffered_cea608_field1_duration(), Duration::ZERO);
    assert_eq!(writer.buffered_cea608_field2_duration(), Duration::ZERO);
    assert_eq!(writer.buffered_packet_duration(), Duration::ZERO);
    assert_eq!(frame(&mut writer, Framerate::new(30, 1)), [0xC0, 0xFF]);
}

#[test]
fn what_is_left_of_a_packet_counts_as_buffered() {
    let mut codes = vec![];
    for _ in 0..31 {
        codes.push(Code::LatinCapitalA);
    }
    let mut writer = CCDataWriter::default();
    writer.push_packet(packet_of(0, &codes));
    assert_eq!(writer.buffered_packet_duration(), Duration::from_micros(28362));
    let first = frame(&mut writer, Framerate::new(60, 1));
    assert_eq!(first.len(), 32);
    // seven triples are left, which are 21 bytes
    assert_eq!(writer.buffered_packet_duration(), Duration::from_micros(18352));
}

#[test]
fn fields_take_turns() {
    let framerate = Framerate::new(30, 1);
    let mut writer = CCDataWriter::default();
    writer.push_cea608(Cea608::Field1(0x01, 0x02));
    writer.push_cea608(Cea608::Field1(0x03, 0x04));
    writer.push_cea608(Cea608::Field2(0x11, 0x12));
    assert_eq!(
        frame(&mut writer, framerate),
        [0xC2, 0xFF, 0xFC, 0x01, 0x02, 0xFD, 0x11, 0x12]
    );
    // field 2 has nothing to send: its turn is passed over, and the frame
    // is one triple shorter than its header says
    assert_eq!(frame(&mut writer, framerate), [0xC1, 0xFF, 0xFC, 0x03, 0x04]);
    assert_eq!(frame(&mut writer, framerate), [0xC0, 0xFF]);
}

#[test]
fn field_two_waits_for_field_one() {
    let framerate = Framerate::new(60, 1);
    let mut writer = CCDataWriter::default();
    writer.push_cea608(Cea608::Field2(0x11, 0x12));
    // one pair to a frame: first the empty pair of field 1, then field 2
    assert_eq!(frame(&mut writer, framerate), [0xC1, 0xFF, 0xFC, 0x80, 0x80]);
    assert_eq!(frame(&mut writer, framerate), [0xC1, 0xFF, 0xFD, 0x11, 0x12]);
    assert_eq!(frame(&mut writer, framerate), [0xC0, 0xFF]);
}

#[test]
fn cea608_padding() {
    let framerate = Framerate::new(30, 1);
    let mut writer = CCDataWriter::default();
    writer.set_output_cea608_padding(true);
    assert_eq!(
        frame(&mut writer, framerate),
        [0xC2, 0xFF, 0xF8, 0x80, 0x80, 0xF9, 0x80, 0x80]
    );
    writer.push_cea608(Cea608::Field2(0x11, 0x12));
    assert_eq!(
        frame(&mut writer, framerate),
        [0xC2, 0xFF, 0xFC, 0x80, 0x80, 0xFD, 0x11, 0x12]
    );
    writer.push_cea608(Cea608::Field1(0x01, 0x02));
    writer.push_packet(packet_of(2, &[Code::LatinCapitalA]));
    assert_eq!(
        frame(&mut writer, framerate),
        [0xC4, 0xFF, 0xFC, 0x01, 0x02, 0xF9, 0x80, 0x80, 0xFF, 0x82, 0x21, 0xFE, 0x41, 0x00]
    );
}

#[test]
fn dtvcc_padding() {
    let framerate = Framerate::new(60, 1);
    let mut writer = CCDataWriter::default();
    writer.set_output_padding(true);
    let mut expected = vec![0xC0 | 10, 0xFF];
    for _ in 0..10 {
        expected.extend([0xFA, 0x00, 0x00]);
    }
    assert_eq!(frame(&mut writer, framerate), expected);

    writer.push_cea608(Cea608::Field1(0x01, 0x02));
    writer.push_packet(packet_of(0, &[Code::LatinCapitalA, Code::LatinCapitalB]));
    let mut expected = vec![0xC0 | 10, 0xFF, 0xFC, 0x01, 0x02, 0xFF, 0x02, 0x22, 0xFE, 0x41, 0x42];
    for _ in 0..7 {
        expected.extend([0xFA, 0x00, 0x00]);
    }
    let written = frame(&mut writer, framerate);
    assert_eq!(written, expected);

    let mut parser = CCDataParser::new();
    parser.handle_cea608();
    parser.push(&written).unwrap();
    assert_eq!(parser.cea608().unwrap(), [Cea608::Field1(0x01, 0x02)]);
    let read = parser.pop_packet().unwrap();
    assert_eq!(read.services()[0].codes(), [Code::LatinCapitalA, Code::LatinCapitalB]);
}

#[test]
fn packets_are_written_in_the_order_they_were_queued() {
    let framerate = Framerate::new(60, 1);
    let mut writer = CCDataWriter::default();
    writer.push_packet(packet_of(0, &[Code::LatinCapitalA]));
    writer.push_packet(DTVCCPacket::new(1));
    writer.push_packet(packet_of(2, &[Code::LatinCapitalB]));
    writer.push_packet(packet_of(3, &[Code::LatinCapitalC]));
    assert_eq!(
        frame(&mut writer, framerate),
        [
            0xC6, 0xFF, 0xFF, 0x02, 0x21, 0xFE, 0x41, 0x00, 0xFF, 0x82, 0x21, 0xFE, 0x42, 0x00,
            0xFF, 0xC2, 0x21, 0xFE, 0x43, 0x00
        ]
    );
    assert_eq!(frame(&mut writer, framerate), [0xC0, 0xFF]);
}

#[test]
fn parser_flush_and_tracking() {
    let mut parser = CCDataParser::new();
    assert!(parser.cea608().is_none());
    parser.push(&[0xC1, 0xFF, 0xFC, 0x41, 0x42]).unwrap();
    assert!(parser.cea608().is_none());
    parser.handle_cea608();
    assert_eq!(parser.cea608().unwrap(), []);
    parser.push(&[0xC2, 0xFF, 0xF8, 0x80, 0x80, 0xFD, 0x80, 0x80]).unwrap();
    assert_eq!(parser.cea608().unwrap(), [Cea608::Field2(0x80, 0x80)]);
    parser.push(&[0xC1, 0xFF, 0xFF, 0x02, 0x21]).unwrap();
    assert_eq!(parser.cea608().unwrap(), []);
    parser.flush();
    assert!(parser.cea608().is_none());
    // the first half of the packet is forgotten
    parser.push(&[0xC1, 0xFF, 0xFE, 0x41, 0x00]).unwrap();
    assert!(parser.pop_packet().is_none());
}

#[test]
fn a_new_start_drops_a_packet_that_is_cut_short() {
    let mut parser = CCDataParser::new();
    // a packet of four bytes of which two arrive, then a whole packet
    parser
        .push(&[0xC3, 0xFF, 0xFF, 0x02, 0x21, 0xFF, 0x42, 0x21, 0xFE, 0x42, 0x00])
        .unwrap();
    let read = parser.pop_packet().unwrap();
    assert_eq!(read.sequence_no(), 1);
    assert_eq!(read.services()[0].codes(), [Code::LatinCapitalB]);
    assert!(parser.pop_packet().is_none());
}
