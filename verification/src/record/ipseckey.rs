//! The IPSECKEY record type.

use vstd::prelude::*;
use crate::wire::Cursor;
use crate::wire::MandatedLength;
use crate::wire::WireError;
use crate::wire::res_model;

verus! {

/// A **IPSECKEY** record, which contains an IPsec key for the domain.
#[derive(PartialEq, Eq, Debug, Clone)]
pub struct IPSECKEY {
    /// The precedence of this key.
    pub precedence: u8,

    /// The type of gateway.
    pub gateway_type: u8,

    /// The algorithm used for the public key.
    pub algorithm: u8,

    /// The gateway address or name.
    pub gateway: Vec<u8>,

    /// The public key.
    pub public_key: Vec<u8>,
}

/// The mathematical model of an IPSECKEY record.
pub struct IPSECKEYModel {
    /// The precedence field.
    pub precedence: u8,
    /// The gateway type field.
    pub gateway_type: u8,
    /// The algorithm field.
    pub algorithm: u8,
    /// The gateway bytes.
    pub gateway: Seq<u8>,
    /// The public key bytes.
    pub public_key: Seq<u8>,
}

impl View for IPSECKEY {
    type V = IPSECKEYModel;

    open spec fn view(&self) -> IPSECKEYModel {
        IPSECKEYModel {
            precedence: self.precedence,
            gateway_type: self.gateway_type,
            algorithm: self.algorithm,
            gateway: self.gateway@,
            public_key: self.public_key@,
        }
    }
}

/// The number of gateway bytes each gateway type carries: four for an
/// IPv4 address, sixteen for an IPv6 address, none otherwise.
pub open spec fn spec_gateway_len(gateway_type: u8) -> int {
    if gateway_type == 1 {
        4
    } else if gateway_type == 2 {
        16
    } else {
        0
    }
}

/// What decoding an IPSECKEY record body yields: a function of the
/// stated length, the message bytes, and the position where the body
/// starts. A gateway of type 3 — a domain name — is rejected as
/// unsupported rather than guessed at.
pub open spec fn spec_read_ipseckey(stated_length: u16, bytes: Seq<u8>, pos: int) -> Result<
    IPSECKEYModel,
    WireError,
> {
    if pos + 3 > bytes.len() {
        Err(WireError::IO)
    } else if stated_length < 3 {
        Err(
            WireError::WrongRecordLength {
                stated_length,
                mandated_length: MandatedLength::AtLeast(3),
            },
        )
    } else if bytes[pos + 1] == 3 {
        Err(WireError::UnsupportedFormat)
    } else {
        let gateway_len = spec_gateway_len(bytes[pos + 1]);
        if stated_length < 3 + gateway_len {
            Err(
                WireError::WrongRecordLength {
                    stated_length,
                    mandated_length: MandatedLength::AtLeast((3 + gateway_len) as u16),
                },
            )
        } else if pos + stated_length > bytes.len() {
            Err(WireError::IO)
        } else {
            Ok(
                IPSECKEYModel {
                    precedence: bytes[pos],
                    gateway_type: bytes[pos + 1],
                    algorithm: bytes[pos + 2],
                    gateway: bytes.subrange(pos + 3, pos + 3 + gateway_len),
                    public_key: bytes.subrange(pos + 3 + gateway_len, pos + stated_length),
                },
            )
        }
    }
}

/// When the stated length covers the fields its gateway type mandates
/// but exceeds the bytes actually available, the decode is the
/// buffer-exhaustion error: never a panic, never a partial record.
pub proof fn lemma_ipseckey_needs_stated_length(stated_length: u16, bytes: Seq<u8>, pos: int)
    requires
        0 <= pos,
        pos + 3 <= bytes.len(),
        bytes[pos + 1] != 3,
        stated_length >= 3 + spec_gateway_len(bytes[pos + 1]),
        pos + stated_length > bytes.len(),
    ensures
        spec_read_ipseckey(stated_length, bytes, pos) == Err::<IPSECKEYModel, WireError>(
            WireError::IO,
        ),
{
}

/// A stated length shorter than the three fixed fields is rejected as a
/// length error, never by wrapping the subtraction.
pub proof fn lemma_ipseckey_short_stated_length(stated_length: u16, bytes: Seq<u8>, pos: int)
    requires
        0 <= pos,
        pos + 3 <= bytes.len(),
        stated_length < 3,
    ensures
        spec_read_ipseckey(stated_length, bytes, pos) == Err::<IPSECKEYModel, WireError>(
            WireError::WrongRecordLength {
                stated_length,
                mandated_length: MandatedLength::AtLeast(3),
            },
        ),
{
}

impl IPSECKEY {
    /// The record type number of IPSECKEY.
    pub const RR_TYPE: u16 = 45;

    /// Decodes an IPSECKEY record body of exactly `stated_length` bytes.
    pub fn read(stated_length: u16, c: &mut Cursor<'_>) -> (r: Result<IPSECKEY, WireError>)
        requires
            old(c).wf(),
        ensures
            final(c).wf(),
            final(c).bytes() == old(c).bytes(),
            res_model(r) == spec_read_ipseckey(stated_length, old(c).bytes(), old(c).position()),
            r is Ok ==> final(c).position() == old(c).position() + stated_length,
            r is Err ==> old(c).position() <= final(c).position(),
    {
        let precedence = c.read_u8()?;
        let gateway_type = c.read_u8()?;
        let algorithm = c.read_u8()?;

        let after_fields = match stated_length.checked_sub(3) {
            Some(n) => n,
            None => {
                return Err(
                    WireError::WrongRecordLength {
                        stated_length,
                        mandated_length: MandatedLength::AtLeast(3),
                    },
                );
            }
        };

        if gateway_type == 3 {
            // an FQDN gateway; its length is not self-evident, and this
            // decoder does not support it
            return Err(WireError::UnsupportedFormat);
        }
        let gateway_len: u16 = if gateway_type == 1 {
            4
        } else if gateway_type == 2 {
            16
        } else {
            0
        };

        let public_key_len = match after_fields.checked_sub(gateway_len) {
            Some(n) => n,
            None => {
                return Err(
                    WireError::WrongRecordLength {
                        stated_length,
                        mandated_length: MandatedLength::AtLeast(3 + gateway_len),
                    },
                );
            }
        };

        let gateway = c.read_bytes(gateway_len as usize)?;
        let public_key = c.read_bytes(public_key_len as usize)?;

        Ok(IPSECKEY { precedence, gateway_type, algorithm, gateway, public_key })
    }
}

} // verus!
