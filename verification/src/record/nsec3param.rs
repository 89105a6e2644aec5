//! The NSEC3PARAM record type.

use vstd::prelude::*;
use crate::wire::Cursor;
use crate::wire::WireError;
use crate::wire::be_u16;
use crate::wire::res_model;

verus! {

/// A **NSEC3PARAM** record, which contains the parameters used for NSEC3
/// records in the zone.
#[derive(PartialEq, Eq, Debug, Clone)]
pub struct NSEC3PARAM {
    /// The hash algorithm used for hashing the owner name.
    pub hash_algorithm: u8,

    /// Flags for the NSEC3PARAM record.
    pub flags: u8,

    /// The number of iterations of the hash function.
    pub iterations: u16,

    /// The salt used in the hash computation.
    pub salt: Vec<u8>,
}

/// The mathematical model of a NSEC3PARAM record.
pub struct NSEC3PARAMModel {
    /// The hash algorithm.
    pub hash_algorithm: u8,
    /// The flags field.
    pub flags: u8,
    /// The iteration count.
    pub iterations: u16,
    /// The salt bytes.
    pub salt: Seq<u8>,
}

impl View for NSEC3PARAM {
    type V = NSEC3PARAMModel;

    open spec fn view(&self) -> NSEC3PARAMModel {
        NSEC3PARAMModel {
            hash_algorithm: self.hash_algorithm,
            flags: self.flags,
            iterations: self.iterations,
            salt: self.salt@,
        }
    }
}

/// What decoding a NSEC3PARAM record body yields: a function of the
/// stated length, the message bytes, and the position where the body
/// starts. The stated length must equal the fixed fields plus the
/// self-described salt exactly; both too-short and too-long stated
/// lengths are length mismatches carrying the computed expected length.
pub open spec fn spec_read_nsec3param(stated_length: u16, bytes: Seq<u8>, pos: int) -> Result<
    NSEC3PARAMModel,
    WireError,
> {
    if pos + 5 > bytes.len() {
        Err(WireError::IO)
    } else {
        let salt_len = bytes[pos + 4] as int;
        if pos + 5 + salt_len > bytes.len() {
            Err(WireError::IO)
        } else {
            let fixed_len = 5 + salt_len;
            if stated_length != fixed_len {
                Err(
                    WireError::WrongLabelLength {
                        stated_length,
                        length_after_labels: fixed_len as u16,
                    },
                )
            } else {
                Ok(
                    NSEC3PARAMModel {
                        hash_algorithm: bytes[pos],
                        flags: bytes[pos + 1],
                        iterations: be_u16(bytes[pos + 2], bytes[pos + 3]) as u16,
                        salt: bytes.subrange(pos + 5, pos + 5 + salt_len),
                    },
                )
            }
        }
    }
}

/// A stated length that is not exactly the fixed fields plus the
/// self-described salt is a length mismatch carrying both the stated
/// and the computed expected length — too short never wraps the
/// subtraction, too long never reads past the salt.
pub proof fn lemma_nsec3param_length_mismatch(stated_length: u16, bytes: Seq<u8>, pos: int)
    requires
        0 <= pos,
        pos + 5 <= bytes.len(),
        pos + 5 + bytes[pos + 4] <= bytes.len(),
        stated_length != 5 + bytes[pos + 4],
    ensures
        spec_read_nsec3param(stated_length, bytes, pos) == Err::<NSEC3PARAMModel, WireError>(
            WireError::WrongLabelLength {
                stated_length,
                length_after_labels: (5 + bytes[pos + 4]) as u16,
            },
        ),
{
}

impl NSEC3PARAM {
    /// The record type number of NSEC3PARAM.
    pub const RR_TYPE: u16 = 51;

    /// Decodes a NSEC3PARAM record body of exactly `stated_length`
    /// bytes.
    pub fn read(stated_length: u16, c: &mut Cursor<'_>) -> (r: Result<NSEC3PARAM, WireError>)
        requires
            old(c).wf(),
        ensures
            final(c).wf(),
            final(c).bytes() == old(c).bytes(),
            res_model(r) == spec_read_nsec3param(stated_length, old(c).bytes(), old(c).position()),
            r is Ok ==> final(c).position() == old(c).position() + stated_length,
            r is Err ==> old(c).position() <= final(c).position(),
    {
        let hash_algorithm = c.read_u8()?;
        let flags = c.read_u8()?;
        let iterations = c.read_u16()?;

        let salt_len = c.read_u8()?;
        let salt = c.read_bytes(salt_len as usize)?;

        let length_after_fields: u16 = 5 + (salt_len as u16);
        if stated_length == length_after_fields {
            Ok(NSEC3PARAM { hash_algorithm, flags, iterations, salt })
        } else {
            Err(
                WireError::WrongLabelLength {
                    stated_length,
                    length_after_labels: length_after_fields,
                },
            )
        }
    }
}

} // verus!
