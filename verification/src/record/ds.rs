//! The DS record type.

use vstd::prelude::*;
use crate::wire::Cursor;
use crate::wire::MandatedLength;
use crate::wire::WireError;
use crate::wire::be_u16;
use crate::wire::res_model;

verus! {

/// A **DS** record, which contains a delegation signer for DNSSEC.
#[derive(PartialEq, Eq, Debug, Clone)]
pub struct DS {
    /// The key tag of the DNSKEY RR that the DS record refers to.
    pub key_tag: u16,

    /// The algorithm number of the DNSKEY RR that the DS record refers
    /// to.
    pub algorithm: u8,

    /// The algorithm used to construct the digest.
    pub digest_type: u8,

    /// The digest of the DNSKEY RR.
    pub digest: Vec<u8>,
}

/// The mathematical model of a DS record.
pub struct DSModel {
    /// The key tag.
    pub key_tag: u16,
    /// The key's algorithm number.
    pub algorithm: u8,
    /// The digest algorithm.
    pub digest_type: u8,
    /// The digest bytes.
    pub digest: Seq<u8>,
}

impl View for DS {
    type V = DSModel;

    open spec fn view(&self) -> DSModel {
        DSModel {
            key_tag: self.key_tag,
            algorithm: self.algorithm,
            digest_type: self.digest_type,
            digest: self.digest@,
        }
    }
}

/// What decoding a DS record body yields: a function of the stated
/// length, the message bytes, and the position where the body starts.
pub open spec fn spec_read_ds(stated_length: u16, bytes: Seq<u8>, pos: int) -> Result<
    DSModel,
    WireError,
> {
    if pos + 4 > bytes.len() {
        Err(WireError::IO)
    } else if stated_length < 4 {
        Err(
            WireError::WrongRecordLength {
                stated_length,
                mandated_length: MandatedLength::AtLeast(4),
            },
        )
    } else if pos + stated_length > bytes.len() {
        Err(WireError::IO)
    } else {
        Ok(
            DSModel {
                key_tag: be_u16(bytes[pos], bytes[pos + 1]) as u16,
                algorithm: bytes[pos + 2],
                digest_type: bytes[pos + 3],
                digest: bytes.subrange(pos + 4, pos + stated_length),
            },
        )
    }
}

/// When the stated length exceeds the bytes actually available, the
/// decode is the buffer-exhaustion error: never a panic, never a
/// partial record.
pub proof fn lemma_ds_needs_stated_length(stated_length: u16, bytes: Seq<u8>, pos: int)
    requires
        0 <= pos <= bytes.len(),
        pos + stated_length > bytes.len(),
    ensures
        spec_read_ds(stated_length, bytes, pos) == Err::<DSModel, WireError>(WireError::IO),
{
}

/// A stated length shorter than the four fixed fields is rejected as a
/// length error, never by wrapping the subtraction.
pub proof fn lemma_ds_short_stated_length(stated_length: u16, bytes: Seq<u8>, pos: int)
    requires
        0 <= pos,
        pos + 4 <= bytes.len(),
        stated_length < 4,
    ensures
        spec_read_ds(stated_length, bytes, pos) == Err::<DSModel, WireError>(
            WireError::WrongRecordLength {
                stated_length,
                mandated_length: MandatedLength::AtLeast(4),
            },
        ),
{
}

impl DS {
    /// The record type number of DS.
    pub const RR_TYPE: u16 = 43;

    /// Decodes a DS record body of exactly `stated_length` bytes.
    pub fn read(stated_length: u16, c: &mut Cursor<'_>) -> (r: Result<DS, WireError>)
        requires
            old(c).wf(),
        ensures
            final(c).wf(),
            final(c).bytes() == old(c).bytes(),
            res_model(r) == spec_read_ds(stated_length, old(c).bytes(), old(c).position()),
            r is Ok ==> final(c).position() == old(c).position() + stated_length,
            r is Err ==> old(c).position() <= final(c).position(),
    {
        let key_tag = c.read_u16()?;
        let algorithm = c.read_u8()?;
        let digest_type = c.read_u8()?;

        let digest_len = match stated_length.checked_sub(4) {
            Some(n) => n,
            None => {
                return Err(
                    WireError::WrongRecordLength {
                        stated_length,
                        mandated_length: MandatedLength::AtLeast(4),
                    },
                );
            }
        };
        let digest = c.read_bytes(digest_len as usize)?;

        Ok(DS { key_tag, algorithm, digest_type, digest })
    }
}

} // verus!
