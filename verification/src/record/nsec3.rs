//! The NSEC3 record type.

use vstd::prelude::*;
use crate::wire::Cursor;
use crate::wire::WireError;
use crate::wire::be_u16;
use crate::wire::res_model;

verus! {

/// A **NSEC3** record, which provides denial of existence for DNSSEC
/// using hashes of domain names.
#[derive(PartialEq, Eq, Debug, Clone)]
pub struct NSEC3 {
    /// The hash algorithm used for hashing the owner name.
    pub hash_algorithm: u8,

    /// Flags for the NSEC3 record.
    pub flags: u8,

    /// The number of iterations of the hash function.
    pub iterations: u16,

    /// The salt used in the hash computation.
    pub salt: Vec<u8>,

    /// The next hashed owner name in the canonical ordering.
    pub next_hashed_owner_name: Vec<u8>,

    /// The type bit maps field.
    pub type_bit_maps: Vec<u8>,
}

/// The mathematical model of a NSEC3 record.
pub struct NSEC3Model {
    /// The hash algorithm.
    pub hash_algorithm: u8,
    /// The flags field.
    pub flags: u8,
    /// The iteration count.
    pub iterations: u16,
    /// The salt bytes.
    pub salt: Seq<u8>,
    /// The next hashed owner name bytes.
    pub next_hashed_owner_name: Seq<u8>,
    /// The type bit maps bytes.
    pub type_bit_maps: Seq<u8>,
}

impl View for NSEC3 {
    type V = NSEC3Model;

    open spec fn view(&self) -> NSEC3Model {
        NSEC3Model {
            hash_algorithm: self.hash_algorithm,
            flags: self.flags,
            iterations: self.iterations,
            salt: self.salt@,
            next_hashed_owner_name: self.next_hashed_owner_name@,
            type_bit_maps: self.type_bit_maps@,
        }
    }
}

/// What decoding a NSEC3 record body yields: a function of the stated
/// length, the message bytes, and the position where the body starts.
/// The salt and the hash carry their own length bytes; the type bit maps
/// occupy whatever the stated length leaves after them.
pub open spec fn spec_read_nsec3(stated_length: u16, bytes: Seq<u8>, pos: int) -> Result<
    NSEC3Model,
    WireError,
> {
    if pos + 5 > bytes.len() {
        Err(WireError::IO)
    } else {
        let salt_len = bytes[pos + 4] as int;
        if pos + 6 + salt_len > bytes.len() {
            Err(WireError::IO)
        } else {
            let hash_len = bytes[pos + 5 + salt_len] as int;
            if pos + 6 + salt_len + hash_len > bytes.len() {
                Err(WireError::IO)
            } else {
                let fixed_len = 6 + salt_len + hash_len;
                if stated_length < fixed_len {
                    Err(
                        WireError::WrongLabelLength {
                            stated_length,
                            length_after_labels: fixed_len as u16,
                        },
                    )
                } else if pos + stated_length > bytes.len() {
                    Err(WireError::IO)
                } else {
                    Ok(
                        NSEC3Model {
                            hash_algorithm: bytes[pos],
                            flags: bytes[pos + 1],
                            iterations: be_u16(bytes[pos + 2], bytes[pos + 3]) as u16,
                            salt: bytes.subrange(pos + 5, pos + 5 + salt_len),
                            next_hashed_owner_name: bytes.subrange(
                                pos + 6 + salt_len,
                                pos + 6 + salt_len + hash_len,
                            ),
                            type_bit_maps: bytes.subrange(pos + fixed_len, pos + stated_length),
                        },
                    )
                }
            }
        }
    }
}

/// When the stated length covers the fixed and self-described fields
/// but exceeds the bytes actually available, the decode is the
/// buffer-exhaustion error: never a panic, never a partial record.
pub proof fn lemma_nsec3_needs_stated_length(stated_length: u16, bytes: Seq<u8>, pos: int)
    requires
        0 <= pos,
        pos + 5 <= bytes.len(),
        pos + 6 + bytes[pos + 4] <= bytes.len(),
        pos + 6 + bytes[pos + 4] + bytes[pos + 5 + bytes[pos + 4]] <= bytes.len(),
        stated_length >= 6 + bytes[pos + 4] + bytes[pos + 5 + bytes[pos + 4]],
        pos + stated_length > bytes.len(),
    ensures
        spec_read_nsec3(stated_length, bytes, pos) == Err::<NSEC3Model, WireError>(WireError::IO),
{
}

/// A stated length shorter than the fixed fields plus the
/// self-described salt and hash is rejected as a length error, never by
/// wrapping the subtraction.
pub proof fn lemma_nsec3_short_stated_length(stated_length: u16, bytes: Seq<u8>, pos: int)
    requires
        0 <= pos,
        pos + 5 <= bytes.len(),
        pos + 6 + bytes[pos + 4] <= bytes.len(),
        pos + 6 + bytes[pos + 4] + bytes[pos + 5 + bytes[pos + 4]] <= bytes.len(),
        stated_length < 6 + bytes[pos + 4] + bytes[pos + 5 + bytes[pos + 4]],
    ensures
        spec_read_nsec3(stated_length, bytes, pos) == Err::<NSEC3Model, WireError>(
            WireError::WrongLabelLength {
                stated_length,
                length_after_labels: (6 + bytes[pos + 4] + bytes[pos + 5 + bytes[pos
                    + 4]]) as u16,
            },
        ),
{
}

impl NSEC3 {
    /// The record type number of NSEC3.
    pub const RR_TYPE: u16 = 50;

    /// Decodes a NSEC3 record body of exactly `stated_length` bytes.
    pub fn read(stated_length: u16, c: &mut Cursor<'_>) -> (r: Result<NSEC3, WireError>)
        requires
            old(c).wf(),
        ensures
            final(c).wf(),
            final(c).bytes() == old(c).bytes(),
            res_model(r) == spec_read_nsec3(stated_length, old(c).bytes(), old(c).position()),
            r is Ok ==> final(c).position() == old(c).position() + stated_length,
            r is Err ==> old(c).position() <= final(c).position(),
    {
        let hash_algorithm = c.read_u8()?;
        let flags = c.read_u8()?;
        let iterations = c.read_u16()?;

        let salt_len = c.read_u8()?;
        let salt = c.read_bytes(salt_len as usize)?;

        let hash_len = c.read_u8()?;
        let next_hashed_owner_name = c.read_bytes(hash_len as usize)?;

        let fixed_len: u16 = 6 + (salt_len as u16) + (hash_len as u16);
        let type_bit_maps_len = match stated_length.checked_sub(fixed_len) {
            Some(n) => n,
            None => {
                return Err(
                    WireError::WrongLabelLength { stated_length, length_after_labels: fixed_len },
                );
            }
        };
        let type_bit_maps = c.read_bytes(type_bit_maps_len as usize)?;

        Ok(
            NSEC3 {
                hash_algorithm,
                flags,
                iterations,
                salt,
                next_hashed_owner_name,
                type_bit_maps,
            },
        )
    }
}

} // verus!
