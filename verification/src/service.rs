//! Service blocks: a service number and the codes sent to that service.

use crate::parser::ParserError;
use crate::tables::codec::views;
use crate::tables::roundtrip::lemma_bytes_of_all_push;
use crate::tables::{Code, CodeView};
use crate::writer::WriterError;
use vstd::prelude::*;

verus! {

/// A [`Service`] as a mathematical value.
pub struct ServiceView {
    /// The number of the service, 0 to 63. Service 0 is the null service.
    pub number: u8,
    /// The codes of the service.
    pub codes: Seq<CodeView>,
}

impl ServiceView {
    /// The number of bytes that the codes take up.
    pub open spec fn codes_len(self) -> nat {
        CodeView::bytes_of_all(self.codes).len()
    }

    /// What every service holds to: the number is below 64, the codes take up
    /// no more than 31 bytes, and the null service has no codes.
    pub open spec fn wf(self) -> bool {
        &&& self.number < 64
        &&& self.codes_len() <= 31
        &&& self.number == 0 ==> self.codes.len() == 0
    }

    /// The number of header bytes: the services from 7 on use the extended
    /// header of two bytes.
    pub open spec fn header_len(self) -> nat {
        if self.number >= 7 {
            2
        } else {
            1
        }
    }

    /// The number of bytes that this service takes up in a packet. The null
    /// service and a service without codes take up none.
    pub open spec fn len(self) -> nat {
        if self.number == 0 || self.codes.len() == 0 {
            0
        } else {
            self.header_len() + self.codes_len()
        }
    }

    /// The header: the service number in the top three bits and the number
    /// of code bytes below; for the services from 7 on, 7 in the top three
    /// bits and the service number in a second byte.
    pub open spec fn header(self) -> Seq<u8> {
        if self.number >= 7 {
            seq![0xE0u8 | (self.codes_len() as u8 & 0x1F), self.number & 0x3F]
        } else {
            seq![self.number << 5 | (self.codes_len() as u8 & 0x1F)]
        }
    }

    /// The bytes that are written for this service: the header, then the
    /// codes.
    pub open spec fn bytes(self) -> Seq<u8> {
        self.header() + CodeView::bytes_of_all(self.codes)
    }

    /// Reads the service block that starts `data`.
    ///
    /// A block of the null service is read as a service without codes,
    /// whatever its size field says and whatever follows it.
    #[verifier::opaque]
    pub open spec fn parse(data: Seq<u8>) -> Result<ServiceView, ParserError> {
        if data.len() == 0 {
            Err(ParserError::LengthMismatch { expected: 1, actual: 0 })
        } else {
            let block_size = data[0] & 0x1F;
            let extended = (data[0] & 0xE0) >> 5 == 7 && block_size != 0;
            if extended && data.len() == 1 {
                Err(ParserError::LengthMismatch { expected: 2, actual: 1 })
            } else {
                let number = if extended {
                    data[1] & 0x3F
                } else {
                    (data[0] & 0xE0) >> 5
                };
                let start = if extended {
                    2int
                } else {
                    1int
                };
                if number == 0 {
                    Ok(ServiceView { number: 0, codes: Seq::empty() })
                } else if data.len() < start + block_size {
                    Err(
                        ParserError::LengthMismatch {
                            expected: (start + block_size) as usize,
                            actual: data.len() as usize,
                        },
                    )
                } else {
                    match CodeView::parse_all(data.subrange(start, start + block_size)) {
                        Ok(codes) => Ok(ServiceView { number, codes }),
                        Err(e) => Err(ParserError::of_code_error(e)),
                    }
                }
            }
        }
    }
}

/// A service block of a [`DTVCCPacket`](crate::DTVCCPacket).
///
/// There can be up to 63 services. Service 1 is the primary caption service
/// and service 2 the secondary one; the others are not defined.
#[derive(Debug)]
pub struct Service {
    number: u8,
    codes: Vec<Code>,
}

impl View for Service {
    type V = ServiceView;

    closed spec fn view(&self) -> ServiceView {
        ServiceView { number: self.number, codes: views(self.codes@) }
    }
}

impl Service {
    /// Create a new [`Service`] without codes.
    pub fn new(service_no: u8) -> (r: Service)
        requires
            service_no < 64,
        ensures
            r@ == (ServiceView { number: service_no, codes: Seq::empty() }),
            r@.wf(),
    {
        let r = Service { number: service_no, codes: Vec::new() };
        assert(views(r.codes@) =~= Seq::empty());
        r
    }

    /// The number of this [`Service`].
    pub fn number(&self) -> (r: u8)
        ensures
            r == self@.number,
    {
        self.number
    }

    /// The number of bytes that the codes take up.
    pub fn codes_len(&self) -> (r: usize)
        requires
            self@.wf(),
        ensures
            r == self@.codes_len(),
    {
        let mut total: usize = 0;
        let mut i: usize = 0;
        proof {
            lemma_bytes_of_all_prefix(views(self.codes@), 0);
        }
        while i < self.codes.len()
            invariant
                i <= self.codes.len(),
                total == CodeView::bytes_of_all(views(self.codes@).take(i as int)).len(),
                CodeView::bytes_of_all(views(self.codes@)).len() <= 31,
            decreases self.codes.len() - i,
        {
            proof {
                lemma_bytes_of_all_prefix(views(self.codes@), i as int + 1);
                assert(views(self.codes@).take(i as int + 1) =~= views(self.codes@).take(
                    i as int,
                ).push(self.codes@[i as int]@));
                lemma_bytes_of_all_push(
                    views(self.codes@).take(i as int),
                    self.codes@[i as int]@,
                );
            }
            total = total + self.codes[i].byte_len();
            i = i + 1;
        }
        assert(views(self.codes@).take(i as int) =~= views(self.codes@));
        total
    }

    /// The number of bytes of codes that can still be added to this
    /// [`Service`]. A service block holds up to 31 bytes of codes.
    pub fn free_space(&self) -> (r: usize)
        requires
            self@.wf(),
        ensures
            r == 31 - self@.codes_len(),
    {
        31 - self.codes_len()
    }

    /// The number of bytes that this [`Service`] takes up in a packet.
    pub fn len(&self) -> (r: usize)
        requires
            self@.wf(),
        ensures
            r == self@.len(),
            r <= 33,
            self@.number == 0 ==> r == 0,
    {
        if self.number == 0 {
            return 0;
        }
        if self.codes.len() == 0 {
            assert(views(self.codes@).len() == 0);
            return 0;
        }
        assert(views(self.codes@).len() != 0);
        let hdr_size: usize = if self.number >= 7 {
            2
        } else {
            1
        };
        hdr_size + self.codes_len()
    }

    /// Whether this [`Service`] holds no codes.
    pub fn is_empty(&self) -> (r: bool)
        ensures
            r == (self@.codes.len() == 0),
    {
        assert(views(self.codes@).len() == self.codes@.len());
        self.codes.len() == 0
    }

    /// Adds a code to the end of this [`Service`].
    ///
    /// Nothing can be added to the null service, service 0, and nothing that
    /// would bring the codes above 31 bytes.
    pub fn push_code(&mut self, code: &Code) -> (r: Result<(), WriterError>)
        requires
            old(self)@.wf(),
            code@.byte_len() <= usize::MAX,
        ensures
            final(self)@.wf(),
            old(self)@.number == 0 ==> r == Err::<(), WriterError>(WriterError::ReadOnly),
            old(self)@.number != 0 && code@.byte_len() + old(self)@.codes_len() > 31 ==> r == Err::<
                (),
                WriterError,
            >(
                WriterError::WouldOverflow(
                    (code@.byte_len() + old(self)@.codes_len() - 31) as usize,
                ),
            ),
            old(self)@.number != 0 && code@.byte_len() + old(self)@.codes_len() <= 31 ==> r is Ok,
            r is Ok ==> final(self)@ == (ServiceView {
                number: old(self)@.number,
                codes: old(self)@.codes.push(code@),
            }),
            r is Err ==> final(self)@ == old(self)@,
    {
        if self.number == 0 {
            return Err(WriterError::ReadOnly);
        }
        let free = self.free_space();
        let needed = code.byte_len();
        if needed > free {
            return Err(WriterError::WouldOverflow(needed - free));
        }
        proof {
            lemma_bytes_of_all_push(views(self.codes@), code@);
        }
        let code = code.clone();
        self.codes.push(code);
        proof {
            assert(views(self.codes@) =~= views(old(self).codes@).push(code@));
        }
        Ok(())
    }

    /// Reads the service block that starts `data`.
    ///
    /// Fails with `LengthMismatch` if there is no data or the second byte of
    /// an extended header is missing and, but for the null service, if the
    /// data is shorter than the block that its header announces, or if its
    /// codes are.
    pub fn parse(data: &[u8]) -> (r: Result<Service, ParserError>)
        ensures
            r is Ok <==> ServiceView::parse(data@) is Ok,
            r matches Ok(service) ==> ServiceView::parse(data@) == Ok::<ServiceView, ParserError>(
                service@,
            ) && service@.wf() && service@.len() <= data.len(),
            r matches Err(e) ==> ServiceView::parse(data@) == Err::<ServiceView, ParserError>(e),
    {
        proof {
            reveal(ServiceView::parse);
        }
        if data.len() == 0 {
            return Err(ParserError::LengthMismatch { expected: 1, actual: 0 });
        }
        proof {
            lemma_service_parse_wf(data@);
        }
        let byte: u8 = data[0];
        let mut service_no: u8 = (byte & 0xE0) >> 5;
        let block_size: usize = (byte & 0x1F) as usize;
        assert(byte & 0x1F < 32) by (bit_vector);
        let mut idx: usize = 1;
        if service_no == 7 && block_size != 0 {
            if data.len() == 1 {
                return Err(ParserError::LengthMismatch { expected: 2, actual: data.len() });
            }
            service_no = data[1] & 0x3F;
            idx = idx + 1;
        }
        if service_no == 0 {
            let service = Service { number: 0, codes: Vec::new() };
            assert(views(service.codes@) =~= Seq::empty());
            return Ok(service);
        }
        if data.len() < idx + block_size {
            return Err(
                ParserError::LengthMismatch { expected: idx + block_size, actual: data.len() },
            );
        }
        let codes = match Code::from_data(&data[idx..idx + block_size]) {
            Ok(codes) => codes,
            Err(e) => {
                return Err(ParserError::from(e));
            },
        };
        Ok(Service { number: service_no, codes })
    }

    /// Appends the bytes of this [`Service`]: the header, then the codes.
    pub fn write(&self, w: &mut Vec<u8>)
        requires
            self@.wf(),
        ensures
            final(w)@ == old(w)@ + self@.bytes(),
    {
        let len: u8 = (self.codes_len() as u8) & 0x1F;
        if self.number >= 7 {
            w.push(0xE0 | len);
            w.push(self.number & 0x3F);
        } else {
            w.push(self.number << 5 | len);
        }
        assert(w@ =~= old(w)@ + self@.header());
        let mut i: usize = 0;
        proof {
            lemma_bytes_of_all_prefix(views(self.codes@), 0);
            assert(CodeView::bytes_of_all(views(self.codes@).take(0)) =~= Seq::<u8>::empty());
        }
        while i < self.codes.len()
            invariant
                i <= self.codes.len(),
                w@ =~= old(w)@ + self@.header() + CodeView::bytes_of_all(
                    views(self.codes@).take(i as int),
                ),
            decreases self.codes.len() - i,
        {
            proof {
                assert(views(self.codes@).take(i as int + 1) =~= views(self.codes@).take(
                    i as int,
                ).push(self.codes@[i as int]@));
                lemma_bytes_of_all_push(
                    views(self.codes@).take(i as int),
                    self.codes@[i as int]@,
                );
            }
            self.codes[i].write(w);
            i = i + 1;
        }
        assert(views(self.codes@).take(i as int) =~= views(self.codes@));
    }

    /// The codes of this [`Service`], in order.
    pub fn codes(&self) -> (r: &[Code])
        ensures
            views(r@) == self@.codes,
    {
        self.codes.as_slice()
    }
}

impl Clone for Service {
    fn clone(&self) -> (r: Service)
        ensures
            r@ == self@,
    {
        let mut codes: Vec<Code> = Vec::new();
        let mut i: usize = 0;
        while i < self.codes.len()
            invariant
                i <= self.codes.len(),
                views(codes@) =~= views(self.codes@).take(i as int),
            decreases self.codes.len() - i,
        {
            let code = self.codes[i].clone();
            proof {
                assert(views(codes@.push(code)) =~= views(codes@).push(code@));
                assert(views(self.codes@).take(i as int + 1) =~= views(self.codes@).take(
                    i as int,
                ).push(self.codes@[i as int]@));
            }
            codes.push(code);
            i = i + 1;
        }
        assert(views(self.codes@).take(i as int) =~= views(self.codes@));
        Service { number: self.number, codes }
    }
}

/// A service block that was read keeps to the rules of a service, and takes
/// up no more bytes than it was read from.
pub proof fn lemma_service_parse_wf(data: Seq<u8>)
    ensures
        ServiceView::parse(data) matches Ok(service) ==> service.wf() && service.len()
            <= data.len(),
{
    reveal(ServiceView::parse);
    if let Ok(service) = ServiceView::parse(data) {
        let b0 = data[0];
        assert(b0 & 0x1F < 32 && (b0 & 0xE0) >> 5 < 8) by (bit_vector);
        let block_size = b0 & 0x1F;
        let extended = (b0 & 0xE0) >> 5 == 7 && block_size != 0;
        let start = if extended {
            2int
        } else {
            1int
        };
        if extended {
            let b1 = data[1];
            assert(b1 & 0x3F < 64) by (bit_vector);
        }
        if service.number != 0 {
            crate::tables::roundtrip::lemma_parse_all_len(
                data.subrange(start, start + block_size),
            );
        } else {
            assert(CodeView::bytes_of_all(Seq::empty()).len() == 0);
        }
    }
}

/// The bytes of the first codes of a sequence are no more than the bytes of
/// all of them.
pub proof fn lemma_bytes_of_all_prefix(codes: Seq<CodeView>, n: int)
    requires
        0 <= n <= codes.len(),
    ensures
        CodeView::bytes_of_all(codes.take(n)).len() <= CodeView::bytes_of_all(codes).len(),
        n == 0 ==> CodeView::bytes_of_all(codes.take(n)).len() == 0,
    decreases codes.len() - n,
{
    if n == codes.len() {
        assert(codes.take(n) =~= codes);
    } else {
        lemma_bytes_of_all_prefix(codes, n + 1);
        assert(codes.take(n + 1) =~= codes.take(n).push(codes[n]));
        lemma_bytes_of_all_push(codes.take(n), codes[n]);
    }
    if n == 0 {
        assert(codes.take(0) =~= Seq::<CodeView>::empty());
    }
}

} // verus!
