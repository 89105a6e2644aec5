//! The URI record type.

use vstd::prelude::*;
use crate::wire::Cursor;
use crate::wire::MandatedLength;
use crate::wire::WireError;
use crate::wire::be_u16;
use crate::wire::res_model;

verus! {

/// A **URI** record, which holds a URI along with weighting information.
#[derive(PartialEq, Eq, Debug, Clone)]
pub struct URI {
    /// The priority of the URI: clients should contact lower numbers
    /// first.
    pub priority: u16,

    /// The weight of the URI among records of the same priority.
    pub weight: u16,

    /// The URI itself.
    pub target: Vec<u8>,
}

/// The mathematical model of a URI record.
pub struct URIModel {
    /// The priority field.
    pub priority: u16,
    /// The weight field.
    pub weight: u16,
    /// The target bytes.
    pub target: Seq<u8>,
}

impl View for URI {
    type V = URIModel;

    open spec fn view(&self) -> URIModel {
        URIModel { priority: self.priority, weight: self.weight, target: self.target@ }
    }
}

/// What decoding a URI record body yields: a function of the stated
/// length, the message bytes, and the position where the body starts.
pub open spec fn spec_read_uri(stated_length: u16, bytes: Seq<u8>, pos: int) -> Result<
    URIModel,
    WireError,
> {
    if pos + 4 > bytes.len() {
        Err(WireError::IO)
    } else if stated_length < 4 {
        Err(
            WireError::WrongRecordLength {
                stated_length,
                mandated_length: MandatedLength::AtLeast(4),
            },
        )
    } else if pos + stated_length > bytes.len() {
        Err(WireError::IO)
    } else {
        Ok(
            URIModel {
                priority: be_u16(bytes[pos], bytes[pos + 1]) as u16,
                weight: be_u16(bytes[pos + 2], bytes[pos + 3]) as u16,
                target: bytes.subrange(pos + 4, pos + stated_length),
            },
        )
    }
}

/// When the stated length exceeds the bytes actually available, the
/// decode is the buffer-exhaustion error: never a panic, never a
/// partial record.
pub proof fn lemma_uri_needs_stated_length(stated_length: u16, bytes: Seq<u8>, pos: int)
    requires
        0 <= pos <= bytes.len(),
        pos + stated_length > bytes.len(),
    ensures
        spec_read_uri(stated_length, bytes, pos) == Err::<URIModel, WireError>(WireError::IO),
{
}

/// A stated length shorter than the fixed fields is rejected as a
/// length error, never by wrapping the subtraction.
pub proof fn lemma_uri_short_stated_length(stated_length: u16, bytes: Seq<u8>, pos: int)
    requires
        0 <= pos,
        pos + 4 <= bytes.len(),
        stated_length < 4,
    ensures
        spec_read_uri(stated_length, bytes, pos) == Err::<URIModel, WireError>(
            WireError::WrongRecordLength {
                stated_length,
                mandated_length: MandatedLength::AtLeast(4),
            },
        ),
{
}

impl URI {
    /// The record type number of URI.
    pub const RR_TYPE: u16 = 256;

    /// Decodes a URI record body of exactly `stated_length` bytes.
    pub fn read(stated_length: u16, c: &mut Cursor<'_>) -> (r: Result<URI, WireError>)
        requires
            old(c).wf(),
        ensures
            final(c).wf(),
            final(c).bytes() == old(c).bytes(),
            res_model(r) == spec_read_uri(stated_length, old(c).bytes(), old(c).position()),
            r is Ok ==> final(c).position() == old(c).position() + stated_length,
            r is Err ==> old(c).position() <= final(c).position(),
    {
        let priority = c.read_u16()?;
        let weight = c.read_u16()?;

        let target_len = match stated_length.checked_sub(4) {
            Some(n) => n,
            None => {
                return Err(
                    WireError::WrongRecordLength {
                        stated_length,
                        mandated_length: MandatedLength::AtLeast(4),
                    },
                );
            }
        };
        let target = c.read_bytes(target_len as usize)?;

        Ok(URI { priority, weight, target })
    }
}

} // verus!
