//! The DNSKEY record type.

use vstd::prelude::*;
use crate::wire::Cursor;
use crate::wire::MandatedLength;
use crate::wire::WireError;
use crate::wire::be_u16;
use crate::wire::res_model;

verus! {

/// A **DNSKEY** record, which contains a public key for DNSSEC.
#[derive(PartialEq, Eq, Debug, Clone)]
pub struct DNSKEY {
    /// The flags field indicates the key's properties.
    pub flags: u16,

    /// The protocol field must be set to 3.
    pub protocol: u8,

    /// The algorithm field indicates the algorithm used to generate the
    /// key.
    pub algorithm: u8,

    /// The public key itself.
    pub public_key: Vec<u8>,
}

/// The mathematical model of a DNSKEY record.
pub struct DNSKEYModel {
    /// The flags field.
    pub flags: u16,
    /// The protocol field.
    pub protocol: u8,
    /// The algorithm field.
    pub algorithm: u8,
    /// The public key bytes.
    pub public_key: Seq<u8>,
}

impl View for DNSKEY {
    type V = DNSKEYModel;

    open spec fn view(&self) -> DNSKEYModel {
        DNSKEYModel {
            flags: self.flags,
            protocol: self.protocol,
            algorithm: self.algorithm,
            public_key: self.public_key@,
        }
    }
}

/// What decoding a DNSKEY record body yields: a function of the stated
/// length, the message bytes, and the position where the body starts.
pub open spec fn spec_read_dnskey(stated_length: u16, bytes: Seq<u8>, pos: int) -> Result<
    DNSKEYModel,
    WireError,
> {
    if pos + 4 > bytes.len() {
        Err(WireError::IO)
    } else if stated_length < 4 {
        Err(
            WireError::WrongRecordLength {
                stated_length,
                mandated_length: MandatedLength::AtLeast(4),
            },
        )
    } else if pos + stated_length > bytes.len() {
        Err(WireError::IO)
    } else {
        Ok(
            DNSKEYModel {
                flags: be_u16(bytes[pos], bytes[pos + 1]) as u16,
                protocol: bytes[pos + 2],
                algorithm: bytes[pos + 3],
                public_key: bytes.subrange(pos + 4, pos + stated_length),
            },
        )
    }
}

/// When the stated length exceeds the bytes actually available, the
/// decode is the buffer-exhaustion error: never a panic, never a
/// partial record.
pub proof fn lemma_dnskey_needs_stated_length(stated_length: u16, bytes: Seq<u8>, pos: int)
    requires
        0 <= pos <= bytes.len(),
        pos + stated_length > bytes.len(),
    ensures
        spec_read_dnskey(stated_length, bytes, pos) == Err::<DNSKEYModel, WireError>(
            WireError::IO,
        ),
{
}

/// A stated length shorter than the four fixed fields is rejected as a
/// length error, never by wrapping the subtraction.
pub proof fn lemma_dnskey_short_stated_length(stated_length: u16, bytes: Seq<u8>, pos: int)
    requires
        0 <= pos,
        pos + 4 <= bytes.len(),
        stated_length < 4,
    ensures
        spec_read_dnskey(stated_length, bytes, pos) == Err::<DNSKEYModel, WireError>(
            WireError::WrongRecordLength {
                stated_length,
                mandated_length: MandatedLength::AtLeast(4),
            },
        ),
{
}

impl DNSKEY {
    /// The record type number of DNSKEY.
    pub const RR_TYPE: u16 = 48;

    /// Decodes a DNSKEY record body of exactly `stated_length` bytes.
    pub fn read(stated_length: u16, c: &mut Cursor<'_>) -> (r: Result<DNSKEY, WireError>)
        requires
            old(c).wf(),
        ensures
            final(c).wf(),
            final(c).bytes() == old(c).bytes(),
            res_model(r) == spec_read_dnskey(stated_length, old(c).bytes(), old(c).position()),
            r is Ok ==> final(c).position() == old(c).position() + stated_length,
            r is Err ==> old(c).position() <= final(c).position(),
    {
        let flags = c.read_u16()?;
        let protocol = c.read_u8()?;
        let algorithm = c.read_u8()?;

        let public_key_len = match stated_length.checked_sub(4) {
            Some(n) => n,
            None => {
                return Err(
                    WireError::WrongRecordLength {
                        stated_length,
                        mandated_length: MandatedLength::AtLeast(4),
                    },
                );
            }
        };
        let public_key = c.read_bytes(public_key_len as usize)?;

        Ok(DNSKEY { flags, protocol, algorithm, public_key })
    }
}

} // verus!
