//! The TLSA record type.

use vstd::prelude::*;
use crate::wire::Cursor;
use crate::wire::MandatedLength;
use crate::wire::WireError;
use crate::wire::res_model;

verus! {

/// A **TLSA** record, which contains an association between a TLS
/// certificate and a domain name.
#[derive(PartialEq, Eq, Debug, Clone)]
pub struct TLSA {
    /// The certificate usage field indicates the provided association
    /// that will be used to match the certificate.
    pub certificate_usage: u8,

    /// The selector field specifies which part of the certificate will be
    /// matched against the certificate data.
    pub selector: u8,

    /// The matching type field specifies how the certificate data is
    /// presented.
    pub matching_type: u8,

    /// The certificate data to be matched.
    pub certificate_data: Vec<u8>,
}

/// The mathematical model of a TLSA record.
pub struct TLSAModel {
    /// The certificate usage field.
    pub certificate_usage: u8,
    /// The selector field.
    pub selector: u8,
    /// The matching type field.
    pub matching_type: u8,
    /// The certificate data bytes.
    pub certificate_data: Seq<u8>,
}

impl View for TLSA {
    type V = TLSAModel;

    open spec fn view(&self) -> TLSAModel {
        TLSAModel {
            certificate_usage: self.certificate_usage,
            selector: self.selector,
            matching_type: self.matching_type,
            certificate_data: self.certificate_data@,
        }
    }
}

/// What decoding a TLSA record body yields: a function of the stated
/// length, the message bytes, and the position where the body starts.
pub open spec fn spec_read_tlsa(stated_length: u16, bytes: Seq<u8>, pos: int) -> Result<
    TLSAModel,
    WireError,
> {
    if pos + 3 > bytes.len() {
        Err(WireError::IO)
    } else if stated_length < 3 {
        Err(
            WireError::WrongRecordLength {
                stated_length,
                mandated_length: MandatedLength::AtLeast(3),
            },
        )
    } else if pos + stated_length > bytes.len() {
        Err(WireError::IO)
    } else {
        Ok(
            TLSAModel {
                certificate_usage: bytes[pos],
                selector: bytes[pos + 1],
                matching_type: bytes[pos + 2],
                certificate_data: bytes.subrange(pos + 3, pos + stated_length),
            },
        )
    }
}

/// When the stated length exceeds the bytes actually available, the
/// decode is the buffer-exhaustion error: never a panic, never a
/// partial record.
pub proof fn lemma_tlsa_needs_stated_length(stated_length: u16, bytes: Seq<u8>, pos: int)
    requires
        0 <= pos <= bytes.len(),
        pos + stated_length > bytes.len(),
    ensures
        spec_read_tlsa(stated_length, bytes, pos) == Err::<TLSAModel, WireError>(WireError::IO),
{
}

/// A stated length shorter than the fixed fields is rejected as a
/// length error, never by wrapping the subtraction.
pub proof fn lemma_tlsa_short_stated_length(stated_length: u16, bytes: Seq<u8>, pos: int)
    requires
        0 <= pos,
        pos + 3 <= bytes.len(),
        stated_length < 3,
    ensures
        spec_read_tlsa(stated_length, bytes, pos) == Err::<TLSAModel, WireError>(
            WireError::WrongRecordLength {
                stated_length,
                mandated_length: MandatedLength::AtLeast(3),
            },
        ),
{
}

impl TLSA {
    /// The record type number of TLSA.
    pub const RR_TYPE: u16 = 52;

    /// Decodes a TLSA record body of exactly `stated_length` bytes.
    pub fn read(stated_length: u16, c: &mut Cursor<'_>) -> (r: Result<TLSA, WireError>)
        requires
            old(c).wf(),
        ensures
            final(c).wf(),
            final(c).bytes() == old(c).bytes(),
            res_model(r) == spec_read_tlsa(stated_length, old(c).bytes(), old(c).position()),
            r is Ok ==> final(c).position() == old(c).position() + stated_length,
            r is Err ==> old(c).position() <= final(c).position(),
    {
        let certificate_usage = c.read_u8()?;
        let selector = c.read_u8()?;
        let matching_type = c.read_u8()?;

        let certificate_data_len = match stated_length.checked_sub(3) {
            Some(n) => n,
            None => {
                return Err(
                    WireError::WrongRecordLength {
                        stated_length,
                        mandated_length: MandatedLength::AtLeast(3),
                    },
                );
            }
        };
        let certificate_data = c.read_bytes(certificate_data_len as usize)?;

        Ok(TLSA { certificate_usage, selector, matching_type, certificate_data })
    }
}

} // verus!
