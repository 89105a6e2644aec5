//! The DHCID record type.

use vstd::prelude::*;
use crate::wire::Cursor;
use crate::wire::MandatedLength;
use crate::wire::WireError;
use crate::wire::res_model;

verus! {

/// A **DHCID** record, which identifies the client to the DHCP server for
/// DNS updates.
#[derive(PartialEq, Eq, Debug, Clone)]
pub struct DHCID {
    /// The identifier type code, indicating how the client identifier was
    /// formed.
    pub identifier_type_code: u8,

    /// The digest type code, indicating the algorithm used to create the
    /// digest.
    pub digest_type_code: u8,

    /// The digest of the client identifier.
    pub digest: Vec<u8>,
}

/// The mathematical model of a DHCID record.
pub struct DHCIDModel {
    /// The identifier type code.
    pub identifier_type_code: u8,
    /// The digest type code.
    pub digest_type_code: u8,
    /// The digest bytes.
    pub digest: Seq<u8>,
}

impl View for DHCID {
    type V = DHCIDModel;

    open spec fn view(&self) -> DHCIDModel {
        DHCIDModel {
            identifier_type_code: self.identifier_type_code,
            digest_type_code: self.digest_type_code,
            digest: self.digest@,
        }
    }
}

/// What decoding a DHCID record body yields: a function of the stated
/// length, the message bytes, and the position where the body starts.
pub open spec fn spec_read_dhcid(stated_length: u16, bytes: Seq<u8>, pos: int) -> Result<
    DHCIDModel,
    WireError,
> {
    if pos + 2 > bytes.len() {
        Err(WireError::IO)
    } else if stated_length < 2 {
        Err(
            WireError::WrongRecordLength {
                stated_length,
                mandated_length: MandatedLength::AtLeast(2),
            },
        )
    } else if pos + stated_length > bytes.len() {
        Err(WireError::IO)
    } else {
        Ok(
            DHCIDModel {
                identifier_type_code: bytes[pos],
                digest_type_code: bytes[pos + 1],
                digest: bytes.subrange(pos + 2, pos + stated_length),
            },
        )
    }
}

/// When the stated length exceeds the bytes actually available, the
/// decode is the buffer-exhaustion error: never a panic, never a
/// partial record.
pub proof fn lemma_dhcid_needs_stated_length(stated_length: u16, bytes: Seq<u8>, pos: int)
    requires
        0 <= pos <= bytes.len(),
        pos + stated_length > bytes.len(),
    ensures
        spec_read_dhcid(stated_length, bytes, pos) == Err::<DHCIDModel, WireError>(WireError::IO),
{
}

/// A stated length shorter than the two fixed fields is rejected as a
/// length error, never by wrapping the subtraction.
pub proof fn lemma_dhcid_short_stated_length(stated_length: u16, bytes: Seq<u8>, pos: int)
    requires
        0 <= pos,
        pos + 2 <= bytes.len(),
        stated_length < 2,
    ensures
        spec_read_dhcid(stated_length, bytes, pos) == Err::<DHCIDModel, WireError>(
            WireError::WrongRecordLength {
                stated_length,
                mandated_length: MandatedLength::AtLeast(2),
            },
        ),
{
}

impl DHCID {
    /// The record type number of DHCID.
    pub const RR_TYPE: u16 = 49;

    /// Decodes a DHCID record body of exactly `stated_length` bytes.
    pub fn read(stated_length: u16, c: &mut Cursor<'_>) -> (r: Result<DHCID, WireError>)
        requires
            old(c).wf(),
        ensures
            final(c).wf(),
            final(c).bytes() == old(c).bytes(),
            res_model(r) == spec_read_dhcid(stated_length, old(c).bytes(), old(c).position()),
            r is Ok ==> final(c).position() == old(c).position() + stated_length,
            r is Err ==> old(c).position() <= final(c).position(),
    {
        let identifier_type_code = c.read_u8()?;
        let digest_type_code = c.read_u8()?;

        let digest_len = match stated_length.checked_sub(2) {
            Some(n) => n,
            None => {
                return Err(
                    WireError::WrongRecordLength {
                        stated_length,
                        mandated_length: MandatedLength::AtLeast(2),
                    },
                );
            }
        };
        let digest = c.read_bytes(digest_len as usize)?;

        Ok(DHCID { identifier_type_code, digest_type_code, digest })
    }
}

} // verus!
