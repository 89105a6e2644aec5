//! The EUI64 record type.

use vstd::prelude::*;
use crate::wire::Cursor;
use crate::wire::MandatedLength;
use crate::wire::WireError;
use crate::wire::res_model;

verus! {

/// An **EUI64** record, which holds an eight-octet extended unique
/// identifier.
#[derive(PartialEq, Eq, Debug, Clone)]
pub struct EUI64 {
    /// The eight octets of the identifier.
    pub octets: Vec<u8>,
}

/// The mathematical model of an EUI64 record.
pub struct EUI64Model {
    /// The eight identifier octets.
    pub octets: Seq<u8>,
}

impl View for EUI64 {
    type V = EUI64Model;

    open spec fn view(&self) -> EUI64Model {
        EUI64Model { octets: self.octets@ }
    }
}

/// What decoding an EUI64 record body yields: a function of the stated
/// length, the message bytes, and the position where the body starts.
pub open spec fn spec_read_eui64(stated_length: u16, bytes: Seq<u8>, pos: int) -> Result<
    EUI64Model,
    WireError,
> {
    if pos + 8 > bytes.len() {
        Err(WireError::IO)
    } else if stated_length != 8 {
        Err(
            WireError::WrongRecordLength {
                stated_length,
                mandated_length: MandatedLength::Exactly(8),
            },
        )
    } else {
        Ok(EUI64Model { octets: bytes.subrange(pos, pos + 8) })
    }
}

/// When the buffer holds fewer bytes than the record's fixed size, the
/// decode is the buffer-exhaustion error: never a panic, never a
/// partial record.
pub proof fn lemma_eui64_needs_fixed_bytes(stated_length: u16, bytes: Seq<u8>, pos: int)
    requires
        pos + 8 > bytes.len(),
    ensures
        spec_read_eui64(stated_length, bytes, pos) == Err::<EUI64Model, WireError>(WireError::IO),
{
}

/// A stated length other than the record's fixed size — longer or
/// shorter — is rejected as a length error, never by wrapping any
/// subtraction.
pub proof fn lemma_eui64_wrong_stated_length(stated_length: u16, bytes: Seq<u8>, pos: int)
    requires
        pos + 8 <= bytes.len(),
        stated_length != 8,
    ensures
        spec_read_eui64(stated_length, bytes, pos) == Err::<EUI64Model, WireError>(
            WireError::WrongRecordLength {
                stated_length,
                mandated_length: MandatedLength::Exactly(8),
            },
        ),
{
}

impl EUI64 {
    /// The record type number of EUI64.
    pub const RR_TYPE: u16 = 109;

    /// Decodes an EUI64 record body of exactly `stated_length` bytes.
    pub fn read(stated_length: u16, c: &mut Cursor<'_>) -> (r: Result<EUI64, WireError>)
        requires
            old(c).wf(),
        ensures
            final(c).wf(),
            final(c).bytes() == old(c).bytes(),
            res_model(r) == spec_read_eui64(stated_length, old(c).bytes(), old(c).position()),
            r is Ok ==> final(c).position() == old(c).position() + stated_length,
            r is Err ==> old(c).position() <= final(c).position(),
    {
        let octets = c.read_bytes(8)?;
        if stated_length != 8 {
            let mandated_length = MandatedLength::Exactly(8);
            return Err(WireError::WrongRecordLength { stated_length, mandated_length });
        }
        Ok(EUI64 { octets })
    }
}

} // verus!
