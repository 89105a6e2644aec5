//! The SMIMEA record type.

use vstd::prelude::*;
use crate::text::ascii_chars;
use crate::text::ascii_to_string;
use crate::text::hex_ascii;
use crate::text::hex_digit_code;
use crate::wire::Cursor;
use crate::wire::MandatedLength;
use crate::wire::WireError;
use crate::wire::res_model;

verus! {

/// A **SMIMEA** record, which contains an association between an S/MIME
/// certificate and a domain name.
#[derive(PartialEq, Eq, Debug, Clone)]
pub struct SMIMEA {
    /// The certificate usage field indicates the provided association
    /// that will be used to match the certificate.
    pub certificate_usage: u8,

    /// The selector field specifies which part of the certificate will be
    /// matched against the certificate data.
    pub selector: u8,

    /// The matching type field specifies how the certificate data is
    /// presented.
    pub matching_type: u8,

    /// The certificate data to be matched.
    pub certificate_data: Vec<u8>,
}

/// The mathematical model of a SMIMEA record.
pub struct SMIMEAModel {
    /// The certificate usage field.
    pub certificate_usage: u8,
    /// The selector field.
    pub selector: u8,
    /// The matching type field.
    pub matching_type: u8,
    /// The certificate data bytes.
    pub certificate_data: Seq<u8>,
}

impl View for SMIMEA {
    type V = SMIMEAModel;

    open spec fn view(&self) -> SMIMEAModel {
        SMIMEAModel {
            certificate_usage: self.certificate_usage,
            selector: self.selector,
            matching_type: self.matching_type,
            certificate_data: self.certificate_data@,
        }
    }
}

/// What decoding a SMIMEA record body yields: a function of the stated
/// length, the message bytes, and the position where the body starts.
/// Unlike most record types, SMIMEA validates its stated length before
/// reading any field.
pub open spec fn spec_read_smimea(stated_length: u16, bytes: Seq<u8>, pos: int) -> Result<
    SMIMEAModel,
    WireError,
> {
    if stated_length < 3 {
        Err(
            WireError::WrongRecordLength {
                stated_length,
                mandated_length: MandatedLength::AtLeast(4),
            },
        )
    } else if pos + 3 > bytes.len() {
        Err(WireError::IO)
    } else if pos + stated_length > bytes.len() {
        Err(WireError::IO)
    } else {
        Ok(
            SMIMEAModel {
                certificate_usage: bytes[pos],
                selector: bytes[pos + 1],
                matching_type: bytes[pos + 2],
                certificate_data: bytes.subrange(pos + 3, pos + stated_length),
            },
        )
    }
}

/// When the stated length passes the up-front check but exceeds the
/// bytes actually available, the decode is the buffer-exhaustion error:
/// never a panic, never a partial record.
pub proof fn lemma_smimea_needs_stated_length(stated_length: u16, bytes: Seq<u8>, pos: int)
    requires
        0 <= pos <= bytes.len(),
        stated_length >= 3,
        pos + stated_length > bytes.len(),
    ensures
        spec_read_smimea(stated_length, bytes, pos) == Err::<SMIMEAModel, WireError>(
            WireError::IO,
        ),
{
}

/// A stated length shorter than the three fixed fields is rejected as a
/// length error before any byte is read, never by wrapping the
/// subtraction.
pub proof fn lemma_smimea_short_stated_length(stated_length: u16, bytes: Seq<u8>, pos: int)
    requires
        stated_length < 3,
    ensures
        spec_read_smimea(stated_length, bytes, pos) == Err::<SMIMEAModel, WireError>(
            WireError::WrongRecordLength {
                stated_length,
                mandated_length: MandatedLength::AtLeast(4),
            },
        ),
{
}

impl SMIMEA {
    /// The record type number of SMIMEA.
    pub const RR_TYPE: u16 = 53;

    /// Decodes a SMIMEA record body of exactly `stated_length` bytes.
    pub fn read(stated_length: u16, c: &mut Cursor<'_>) -> (r: Result<SMIMEA, WireError>)
        requires
            old(c).wf(),
        ensures
            final(c).wf(),
            final(c).bytes() == old(c).bytes(),
            res_model(r) == spec_read_smimea(stated_length, old(c).bytes(), old(c).position()),
            r is Ok ==> final(c).position() == old(c).position() + stated_length,
            r is Err ==> old(c).position() <= final(c).position(),
    {
        if stated_length < 3 {
            let mandated_length = MandatedLength::AtLeast(4);
            return Err(WireError::WrongRecordLength { stated_length, mandated_length });
        }

        let certificate_usage = c.read_u8()?;
        let selector = c.read_u8()?;
        let matching_type = c.read_u8()?;

        let certificate_data_length = stated_length - 3;
        let certificate_data = c.read_bytes(certificate_data_length as usize)?;

        Ok(SMIMEA { certificate_usage, selector, matching_type, certificate_data })
    }

    /// Returns the hexadecimal representation of the certificate data:
    /// two lower-case digits for every byte, in order.
    pub fn hex_certificate_data(&self) -> (r: String)
        ensures
            r@ == ascii_chars(hex_ascii(self.certificate_data@)),
    {
        let mut out: Vec<u8> = Vec::new();
        let mut i: usize = 0;
        while i < self.certificate_data.len()
            invariant
                i <= self.certificate_data@.len(),
                out@.len() == 2 * i,
                forall|j: int| 0 <= j < out@.len()
                    ==> out@[j] == hex_ascii(self.certificate_data@)[j],
            decreases self.certificate_data@.len() - i,
        {
            let b = self.certificate_data[i];
            out.push(hex_digit(b / 16));
            out.push(hex_digit(b % 16));
            i = i + 1;
        }
        proof {
            assert(out@ =~= hex_ascii(self.certificate_data@));
            assert forall|j: int| 0 <= j < out@.len() implies out@[j] < 128 by {
                assert(out@[j] == hex_ascii(self.certificate_data@)[j]);
            }
        }
        ascii_to_string(out)
    }
}

/// One hexadecimal digit, lower case.
fn hex_digit(d: u8) -> (r: u8)
    requires
        d < 16,
    ensures
        r == hex_digit_code(d as int),
        r < 128,
{
    if d < 10 {
        48 + d
    } else {
        87 + d
    }
}

} // verus!
