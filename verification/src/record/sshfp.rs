//! The SSHFP record type.

use vstd::prelude::*;
use crate::wire::Cursor;
use crate::wire::MandatedLength;
use crate::wire::WireError;
use crate::wire::res_model;

verus! {

/// A **SSHFP** record, which contains a fingerprint of an SSH public
/// key.
#[derive(PartialEq, Eq, Debug, Clone)]
pub struct SSHFP {
    /// The algorithm of the public key the fingerprint refers to.
    pub algorithm: u8,

    /// The algorithm used to make the fingerprint.
    pub fingerprint_type: u8,

    /// The fingerprint itself.
    pub fingerprint: Vec<u8>,
}

/// The mathematical model of a SSHFP record.
pub struct SSHFPModel {
    /// The key algorithm.
    pub algorithm: u8,
    /// The fingerprint algorithm.
    pub fingerprint_type: u8,
    /// The fingerprint bytes.
    pub fingerprint: Seq<u8>,
}

impl View for SSHFP {
    type V = SSHFPModel;

    open spec fn view(&self) -> SSHFPModel {
        SSHFPModel {
            algorithm: self.algorithm,
            fingerprint_type: self.fingerprint_type,
            fingerprint: self.fingerprint@,
        }
    }
}

/// What decoding a SSHFP record body yields: a function of the stated
/// length, the message bytes, and the position where the body starts.
pub open spec fn spec_read_sshfp(stated_length: u16, bytes: Seq<u8>, pos: int) -> Result<
    SSHFPModel,
    WireError,
> {
    if pos + 2 > bytes.len() {
        Err(WireError::IO)
    } else if stated_length < 2 {
        Err(
            WireError::WrongRecordLength {
                stated_length,
                mandated_length: MandatedLength::AtLeast(2),
            },
        )
    } else if pos + stated_length > bytes.len() {
        Err(WireError::IO)
    } else {
        Ok(
            SSHFPModel {
                algorithm: bytes[pos],
                fingerprint_type: bytes[pos + 1],
                fingerprint: bytes.subrange(pos + 2, pos + stated_length),
            },
        )
    }
}

/// When the stated length exceeds the bytes actually available, the
/// decode is the buffer-exhaustion error: never a panic, never a
/// partial record.
pub proof fn lemma_sshfp_needs_stated_length(stated_length: u16, bytes: Seq<u8>, pos: int)
    requires
        0 <= pos <= bytes.len(),
        pos + stated_length > bytes.len(),
    ensures
        spec_read_sshfp(stated_length, bytes, pos) == Err::<SSHFPModel, WireError>(WireError::IO),
{
}

/// A stated length shorter than the fixed fields is rejected as a
/// length error, never by wrapping the subtraction.
pub proof fn lemma_sshfp_short_stated_length(stated_length: u16, bytes: Seq<u8>, pos: int)
    requires
        0 <= pos,
        pos + 2 <= bytes.len(),
        stated_length < 2,
    ensures
        spec_read_sshfp(stated_length, bytes, pos) == Err::<SSHFPModel, WireError>(
            WireError::WrongRecordLength {
                stated_length,
                mandated_length: MandatedLength::AtLeast(2),
            },
        ),
{
}

impl SSHFP {
    /// The record type number of SSHFP.
    pub const RR_TYPE: u16 = 44;

    /// Decodes a SSHFP record body of exactly `stated_length` bytes.
    pub fn read(stated_length: u16, c: &mut Cursor<'_>) -> (r: Result<SSHFP, WireError>)
        requires
            old(c).wf(),
        ensures
            final(c).wf(),
            final(c).bytes() == old(c).bytes(),
            res_model(r) == spec_read_sshfp(stated_length, old(c).bytes(), old(c).position()),
            r is Ok ==> final(c).position() == old(c).position() + stated_length,
            r is Err ==> old(c).position() <= final(c).position(),
    {
        let algorithm = c.read_u8()?;
        let fingerprint_type = c.read_u8()?;

        let fingerprint_len = match stated_length.checked_sub(2) {
            Some(n) => n,
            None => {
                return Err(
                    WireError::WrongRecordLength {
                        stated_length,
                        mandated_length: MandatedLength::AtLeast(2),
                    },
                );
            }
        };
        let fingerprint = c.read_bytes(fingerprint_len as usize)?;

        Ok(SSHFP { algorithm, fingerprint_type, fingerprint })
    }
}

} // verus!
