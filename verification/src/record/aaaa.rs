//! The AAAA record type.

use vstd::prelude::*;
use crate::wire::Cursor;
use crate::wire::MandatedLength;
use crate::wire::WireError;
use crate::wire::res_model;

verus! {

/// An **AAAA** record, which contains an IPv6 address.
#[derive(PartialEq, Eq, Debug, Clone)]
pub struct AAAA {
    /// The IPv6 address, as its sixteen octets in order.
    pub address: Vec<u8>,
}

/// The mathematical model of an AAAA record.
pub struct AAAAModel {
    /// The sixteen address octets.
    pub address: Seq<u8>,
}

impl View for AAAA {
    type V = AAAAModel;

    open spec fn view(&self) -> AAAAModel {
        AAAAModel { address: self.address@ }
    }
}

/// What decoding an AAAA record body yields: a function of the stated
/// length, the message bytes, and the position where the body starts.
pub open spec fn spec_read_aaaa(stated_length: u16, bytes: Seq<u8>, pos: int) -> Result<
    AAAAModel,
    WireError,
> {
    if pos + 16 > bytes.len() {
        Err(WireError::IO)
    } else if stated_length != 16 {
        Err(
            WireError::WrongRecordLength {
                stated_length,
                mandated_length: MandatedLength::Exactly(16),
            },
        )
    } else {
        Ok(AAAAModel { address: bytes.subrange(pos, pos + 16) })
    }
}

/// When the buffer holds fewer bytes than the record's fixed size, the
/// decode is the buffer-exhaustion error: never a panic, never a
/// partial record.
pub proof fn lemma_aaaa_needs_fixed_bytes(stated_length: u16, bytes: Seq<u8>, pos: int)
    requires
        pos + 16 > bytes.len(),
    ensures
        spec_read_aaaa(stated_length, bytes, pos) == Err::<AAAAModel, WireError>(WireError::IO),
{
}

/// A stated length other than the record's fixed size — longer or
/// shorter — is rejected as a length error, never by wrapping any
/// subtraction.
pub proof fn lemma_aaaa_wrong_stated_length(stated_length: u16, bytes: Seq<u8>, pos: int)
    requires
        pos + 16 <= bytes.len(),
        stated_length != 16,
    ensures
        spec_read_aaaa(stated_length, bytes, pos) == Err::<AAAAModel, WireError>(
            WireError::WrongRecordLength {
                stated_length,
                mandated_length: MandatedLength::Exactly(16),
            },
        ),
{
}

impl AAAA {
    /// The record type number of AAAA.
    pub const RR_TYPE: u16 = 28;

    /// Decodes an AAAA record body of exactly `stated_length` bytes.
    pub fn read(stated_length: u16, c: &mut Cursor<'_>) -> (r: Result<AAAA, WireError>)
        requires
            old(c).wf(),
        ensures
            final(c).wf(),
            final(c).bytes() == old(c).bytes(),
            res_model(r) == spec_read_aaaa(stated_length, old(c).bytes(), old(c).position()),
            r is Ok ==> final(c).position() == old(c).position() + stated_length,
            r is Err ==> old(c).position() <= final(c).position(),
    {
        let address = c.read_bytes(16)?;
        if stated_length != 16 {
            let mandated_length = MandatedLength::Exactly(16);
            return Err(WireError::WrongRecordLength { stated_length, mandated_length });
        }
        Ok(AAAA { address })
    }
}

} // verus!
