use cea708_types::tables::{Code, CodeError, Ext1};
use cea708_types::{DTVCCPacket, ParserError, Service, WriterError};

fn service_of(number: u8, count: usize) -> Service {
    let mut service = Service::new(number);
    for _ in 0..count {
        service.push_code(&Code::LatinCapitalA).unwrap();
    }
    service
}

#[test]
fn expected_size_of_nothing() {
    assert_eq!(Code::expected_size(&[]), Err(CodeError::LengthMismatch { expected: 1, actual: 0 }));
    assert_eq!(Ext1::expected_size(&[]), Err(CodeError::LengthMismatch { expected: 1, actual: 0 }));
    assert_eq!(Code::from_data(&[]), Ok(vec![]));
}

#[test]
fn expected_size_by_leading_byte() {
    let sizes: [(u8, u8, usize); 14] = [
        (0x00, 0x0F, 1),
        (0x11, 0x17, 2),
        (0x18, 0x1F, 3),
        (0x20, 0x7F, 1),
        (0x80, 0x87, 1),
        (0x88, 0x8D, 2),
        (0x8E, 0x8F, 1),
        (0x90, 0x90, 3),
        (0x91, 0x91, 4),
        (0x92, 0x92, 3),
        (0x93, 0x96, 1),
        (0x97, 0x97, 5),
        (0x98, 0x9F, 7),
        (0xA0, 0xFF, 1),
    ];
    for (first, last, size) in sizes {
        for lead in first..=last {
            assert_eq!(Code::expected_size(&[lead]), Ok(size));
            assert_eq!(Code::expected_size(&[lead, 0xFF, 0xFF]), Ok(size));
        }
    }
}

#[test]
fn expected_size_behind_ext1() {
    let sizes: [(u8, u8, usize); 8] = [
        (0x00, 0x07, 1),
        (0x08, 0x0F, 2),
        (0x10, 0x17, 3),
        (0x18, 0x1F, 4),
        (0x20, 0x7F, 1),
        (0x80, 0x87, 5),
        (0x88, 0x8F, 6),
        (0xA0, 0xFF, 1),
    ];
    for (first, last, size) in sizes {
        for second in first..=last {
            assert_eq!(Ext1::expected_size(&[second]), Ok(size));
            assert_eq!(Code::expected_size(&[0x10, second]), Ok(size + 1));
        }
    }
    for second in 0x90..=0x9F {
        assert_eq!(
            Ext1::expected_size(&[second]),
            Err(CodeError::LengthMismatch { expected: 2, actual: 0 })
        );
        assert_eq!(Ext1::expected_size(&[second, 0x00]), Ok(1));
        assert_eq!(Ext1::expected_size(&[second, 0x05]), Ok(6));
        assert_eq!(Ext1::expected_size(&[second, 0xFF]), Ok(64));
        assert_eq!(Code::expected_size(&[0x10, second, 0xC5]), Ok(7));
    }
}

#[test]
fn variable_length_command_behind_ext1() {
    let data = [0x10, 0x90, 0x03, 0x01, 0x02];
    let codes = Code::from_data(&data).unwrap();
    assert_eq!(codes, [Code::Ext1(Ext1::Unknown(vec![0x90, 0x03, 0x01, 0x02]))]);
    assert_eq!(codes[0].byte_len(), 5);
    // a command that says it ends before its own length byte cannot be read
    assert_eq!(
        Code::from_data(&[0x10, 0x90, 0x00]),
        Err(CodeError::LengthMismatch { expected: 2, actual: 0 })
    );
}

#[test]
fn parse_element_wants_exactly_one_code() {
    assert_eq!(
        Code::parse_element(&[0x41, 0x42]),
        Err(CodeError::LengthMismatch { expected: 1, actual: 2 })
    );
    assert_eq!(
        Code::parse_element(&[0x18, 0x01]),
        Err(CodeError::LengthMismatch { expected: 3, actual: 2 })
    );
    assert_eq!(
        Code::parse_element(&[]),
        Err(CodeError::LengthMismatch { expected: 1, actual: 0 })
    );
    assert_eq!(Code::parse_element(&[0x18, 0x01, 0x02]), Ok(Code::P16(0x0102)));
    assert_eq!(Ext1::parse(&[0x20]), Ok(Ext1::TransparentSpace));
    assert_eq!(Ext1::parse(&[0x22]), Ok(Ext1::Unknown(vec![0x22])));
}

#[test]
fn service_errors() {
    assert_eq!(
        Service::parse(&[]).unwrap_err(),
        ParserError::LengthMismatch { expected: 1, actual: 0 }
    );
    assert_eq!(
        Service::parse(&[0xE1]).unwrap_err(),
        ParserError::LengthMismatch { expected: 2, actual: 1 }
    );
    assert_eq!(
        Service::parse(&[0x23, 0x41, 0x42]).unwrap_err(),
        ParserError::LengthMismatch { expected: 4, actual: 3 }
    );
    assert_eq!(
        Service::parse(&[0xE2, 0x09, 0x41]).unwrap_err(),
        ParserError::LengthMismatch { expected: 4, actual: 3 }
    );
    // the error of a code that is cut short
    assert_eq!(
        Service::parse(&[0x22, 0x41, 0x90]).unwrap_err(),
        ParserError::LengthMismatch { expected: 3, actual: 1 }
    );
    // the null service is empty whatever its size field says
    let null = Service::parse(&[0x05]).unwrap();
    assert_eq!(null.number(), 0);
    assert!(null.is_empty());
    let null = Service::parse(&[0xE3, 0x40, 0x41]).unwrap();
    assert_eq!(null.number(), 0);
    assert!(null.is_empty());
    // only what the header announces is read
    let service = Service::parse(&[0x21, 0x41, 0x42, 0x43]).unwrap();
    assert_eq!(service.codes(), [Code::LatinCapitalA]);
    assert_eq!(service.len(), 2);
}

#[test]
fn service_overflow() {
    let mut service = service_of(1, 30);
    assert_eq!(service.free_space(), 1);
    assert_eq!(service.push_code(&Code::P16(0x1234)), Err(WriterError::WouldOverflow(2)));
    assert_eq!(service.free_space(), 1);
    assert_eq!(service.push_code(&Code::LatinCapitalB), Ok(()));
    assert_eq!(service.free_space(), 0);
    assert_eq!(service.len(), 32);
    assert_eq!(service.push_code(&Code::LatinCapitalB), Err(WriterError::WouldOverflow(1)));
    assert_eq!(service.codes().len(), 31);
}

#[test]
fn packet_errors() {
    assert_eq!(
        DTVCCPacket::parse(&[]).unwrap_err(),
        ParserError::LengthMismatch { expected: 1, actual: 0 }
    );
    // the header announces one byte after it
    assert_eq!(
        DTVCCPacket::parse(&[0x01, 0x21, 0x41]).unwrap_err(),
        ParserError::LengthMismatch { expected: 2, actual: 3 }
    );
    // a service that is cut short
    assert_eq!(
        DTVCCPacket::parse(&[0x02, 0x22, 0x41]).unwrap_err(),
        ParserError::LengthMismatch { expected: 3, actual: 2 }
    );
    assert_eq!(DTVCCPacket::parse_hdr_byte(0x00), (0, 127));
    assert_eq!(DTVCCPacket::parse_hdr_byte(0x01), (0, 1));
    assert_eq!(DTVCCPacket::parse_hdr_byte(0xC2), (3, 3));
    assert_eq!(DTVCCPacket::parse_hdr_byte(0x7F), (1, 125));
}

#[test]
fn packet_overflow() {
    let mut packet = DTVCCPacket::new(0);
    assert_eq!(packet.free_space(), 128);
    assert_eq!(packet.push_service(Service::new(1)), Err(WriterError::EmptyService));
    assert_eq!(packet.push_service(Service::new(0)), Err(WriterError::EmptyService));
    packet.push_service(service_of(1, 31)).unwrap();
    packet.push_service(service_of(2, 31)).unwrap();
    packet.push_service(service_of(3, 31)).unwrap();
    assert_eq!(packet.len(), 97);
    assert_eq!(packet.free_space(), 31);
    assert_eq!(packet.push_service(service_of(7, 31)), Err(WriterError::WouldOverflow(2)));
    assert_eq!(packet.push_service(service_of(4, 31)), Err(WriterError::WouldOverflow(1)));
    assert_eq!(packet.services().len(), 3);
    packet.push_service(service_of(4, 30)).unwrap();
    assert_eq!(packet.len(), 128);
    assert_eq!(packet.push_service(service_of(5, 1)), Err(WriterError::WouldOverflow(2)));
    assert_eq!(packet.push_service(Service::new(5)), Err(WriterError::EmptyService));
}
