use cea708_types::tables::Code;
use cea708_types::{DTVCCPacket, Service};

#[test]
fn simple_parse_dtvcc() {
    let data = [0x02, 0x01 << 5 | 0x01, 0x2A];
    let dtvcc = DTVCCPacket::parse(&data).unwrap();
    let services = dtvcc.services();
    assert_eq!(services.len(), 1);
    for service in services.iter() {
        assert_eq!(service.number(), 1);
        let codes = service.codes();
        assert_eq!(codes, [Code::Asterisk]);
    }
}

#[test]
fn simple_write_dtvcc() {
    let mut service = Service::new(1);
    let code = Code::Asterisk;
    service.push_code(&code).unwrap();
    let mut dtvcc = DTVCCPacket::new(0);
    dtvcc.push_service(service).unwrap();
    let mut written = vec![];
    dtvcc.write(&mut written);
    let data = [0x02, 0x01 << 5 | 0x01, 0x2A, 0x00];
    assert_eq!(written, data);
}

#[test]
fn service_numbers() {
    for i in 1..64 {
        let mut service = Service::new(i);
        let code = Code::Asterisk;
        service.push_code(&code).unwrap();
        let mut output = vec![];
        service.write(&mut output);
        let parsed = Service::parse(&output).unwrap();
        assert_eq!(service.number(), parsed.number());
        assert_eq!(service.codes(), &[code]);
    }
}
