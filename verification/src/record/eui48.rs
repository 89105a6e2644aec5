//! The EUI48 record type.

use vstd::prelude::*;
use crate::wire::Cursor;
use crate::wire::MandatedLength;
use crate::wire::WireError;
use crate::wire::res_model;

verus! {

/// An **EUI48** record, which holds a six-octet extended unique
/// identifier.
#[derive(PartialEq, Eq, Debug, Clone)]
pub struct EUI48 {
    /// The six octets of the identifier.
    pub octets: Vec<u8>,
}

/// The mathematical model of an EUI48 record.
pub struct EUI48Model {
    /// The six identifier octets.
    pub octets: Seq<u8>,
}

impl View for EUI48 {
    type V = EUI48Model;

    open spec fn view(&self) -> EUI48Model {
        EUI48Model { octets: self.octets@ }
    }
}

/// What decoding an EUI48 record body yields: a function of the stated
/// length, the message bytes, and the position where the body starts.
pub open spec fn spec_read_eui48(stated_length: u16, bytes: Seq<u8>, pos: int) -> Result<
    EUI48Model,
    WireError,
> {
    if pos + 6 > bytes.len() {
        Err(WireError::IO)
    } else if stated_length != 6 {
        Err(
            WireError::WrongRecordLength {
                stated_length,
                mandated_length: MandatedLength::Exactly(6),
            },
        )
    } else {
        Ok(EUI48Model { octets: bytes.subrange(pos, pos + 6) })
    }
}

/// When the buffer holds fewer bytes than the record's fixed size, the
/// decode is the buffer-exhaustion error: never a panic, never a
/// partial record.
pub proof fn lemma_eui48_needs_fixed_bytes(stated_length: u16, bytes: Seq<u8>, pos: int)
    requires
        pos + 6 > bytes.len(),
    ensures
        spec_read_eui48(stated_length, bytes, pos) == Err::<EUI48Model, WireError>(WireError::IO),
{
}

/// A stated length other than the record's fixed size — longer or
/// shorter — is rejected as a length error, never by wrapping any
/// subtraction.
pub proof fn lemma_eui48_wrong_stated_length(stated_length: u16, bytes: Seq<u8>, pos: int)
    requires
        pos + 6 <= bytes.len(),
        stated_length != 6,
    ensures
        spec_read_eui48(stated_length, bytes, pos) == Err::<EUI48Model, WireError>(
            WireError::WrongRecordLength {
                stated_length,
                mandated_length: MandatedLength::Exactly(6),
            },
        ),
{
}

impl EUI48 {
    /// The record type number of EUI48.
    pub const RR_TYPE: u16 = 108;

    /// Decodes an EUI48 record body of exactly `stated_length` bytes.
    pub fn read(stated_length: u16, c: &mut Cursor<'_>) -> (r: Result<EUI48, WireError>)
        requires
            old(c).wf(),
        ensures
            final(c).wf(),
            final(c).bytes() == old(c).bytes(),
            res_model(r) == spec_read_eui48(stated_length, old(c).bytes(), old(c).position()),
            r is Ok ==> final(c).position() == old(c).position() + stated_length,
            r is Err ==> old(c).position() <= final(c).position(),
    {
        let octets = c.read_bytes(6)?;
        if stated_length != 6 {
            let mandated_length = MandatedLength::Exactly(6);
            return Err(WireError::WrongRecordLength { stated_length, mandated_length });
        }
        Ok(EUI48 { octets })
    }
}

} // verus!
