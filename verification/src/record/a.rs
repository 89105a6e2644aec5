//! The A record type.

use vstd::prelude::*;
use crate::wire::Cursor;
use crate::wire::MandatedLength;
use crate::wire::WireError;
use crate::wire::res_model;

verus! {

/// An **A** record, which contains an IPv4 address.
#[derive(PartialEq, Eq, Debug, Clone)]
pub struct A {
    /// The IPv4 address, as its four octets in order.
    pub address: Vec<u8>,
}

/// The mathematical model of an A record.
pub struct AModel {
    /// The four address octets.
    pub address: Seq<u8>,
}

impl View for A {
    type V = AModel;

    open spec fn view(&self) -> AModel {
        AModel { address: self.address@ }
    }
}

/// What decoding an A record body yields: a function of the stated
/// length, the message bytes, and the position where the body starts.
pub open spec fn spec_read_a(stated_length: u16, bytes: Seq<u8>, pos: int) -> Result<
    AModel,
    WireError,
> {
    if pos + 4 > bytes.len() {
        Err(WireError::IO)
    } else if stated_length != 4 {
        Err(
            WireError::WrongRecordLength {
                stated_length,
                mandated_length: MandatedLength::Exactly(4),
            },
        )
    } else {
        Ok(AModel { address: bytes.subrange(pos, pos + 4) })
    }
}

/// When the buffer holds fewer bytes than the record's fixed size, the
/// decode is the buffer-exhaustion error: never a panic, never a
/// partial record.
pub proof fn lemma_a_needs_fixed_bytes(stated_length: u16, bytes: Seq<u8>, pos: int)
    requires
        pos + 4 > bytes.len(),
    ensures
        spec_read_a(stated_length, bytes, pos) == Err::<AModel, WireError>(WireError::IO),
{
}

/// A stated length other than the record's fixed size — longer or
/// shorter — is rejected as a length error, never by wrapping any
/// subtraction.
pub proof fn lemma_a_wrong_stated_length(stated_length: u16, bytes: Seq<u8>, pos: int)
    requires
        pos + 4 <= bytes.len(),
        stated_length != 4,
    ensures
        spec_read_a(stated_length, bytes, pos) == Err::<AModel, WireError>(
            WireError::WrongRecordLength {
                stated_length,
                mandated_length: MandatedLength::Exactly(4),
            },
        ),
{
}

impl A {
    /// The record type number of A.
    pub const RR_TYPE: u16 = 1;

    /// Decodes an A record body of exactly `stated_length` bytes.
    pub fn read(stated_length: u16, c: &mut Cursor<'_>) -> (r: Result<A, WireError>)
        requires
            old(c).wf(),
        ensures
            final(c).wf(),
            final(c).bytes() == old(c).bytes(),
            res_model(r) == spec_read_a(stated_length, old(c).bytes(), old(c).position()),
            r is Ok ==> final(c).position() == old(c).position() + stated_length,
            r is Err ==> old(c).position() <= final(c).position(),
    {
        let address = c.read_bytes(4)?;
        if stated_length != 4 {
            let mandated_length = MandatedLength::Exactly(4);
            return Err(WireError::WrongRecordLength { stated_length, mandated_length });
        }
        Ok(A { address })
    }
}

} // verus!
