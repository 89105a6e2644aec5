//! The RRSIG record type.

use vstd::prelude::*;
use crate::strings::Labels;
use crate::strings::spec_read_name;
use crate::wire::Cursor;
use crate::wire::WireError;
use crate::wire::be_u16;
use crate::wire::be_u32;
use crate::wire::res_model;

verus! {

/// A **RRSIG** record, which contains a digital signature for DNSSEC.
#[derive(PartialEq, Eq, Debug, Clone)]
pub struct RRSIG {
    /// The type of RRset covered by this signature.
    pub type_covered: u16,

    /// The cryptographic algorithm used to generate the signature.
    pub algorithm: u8,

    /// The number of labels in the original RRSIG RR owner name.
    pub labels: u8,

    /// The TTL of the RRset covered by this signature.
    pub original_ttl: u32,

    /// The expiration date of the signature.
    pub signature_expiration: u32,

    /// The inception date of the signature.
    pub signature_inception: u32,

    /// The key tag of the key that generated the signature.
    pub key_tag: u16,

    /// The name of the entity that generated the signature.
    pub signers_name: Labels,

    /// The cryptographic signature.
    pub signature: Vec<u8>,
}

/// The mathematical model of a RRSIG record.
pub struct RRSIGModel {
    /// The covered RRset type.
    pub type_covered: u16,
    /// The signature algorithm.
    pub algorithm: u8,
    /// The owner name's label count.
    pub labels: u8,
    /// The covered RRset's original TTL.
    pub original_ttl: u32,
    /// The expiration date.
    pub signature_expiration: u32,
    /// The inception date.
    pub signature_inception: u32,
    /// The signing key's tag.
    pub key_tag: u16,
    /// The labels of the signer's name.
    pub signers_name: Seq<Seq<u8>>,
    /// The signature bytes.
    pub signature: Seq<u8>,
}

impl View for RRSIG {
    type V = RRSIGModel;

    open spec fn view(&self) -> RRSIGModel {
        RRSIGModel {
            type_covered: self.type_covered,
            algorithm: self.algorithm,
            labels: self.labels,
            original_ttl: self.original_ttl,
            signature_expiration: self.signature_expiration,
            signature_inception: self.signature_inception,
            key_tag: self.key_tag,
            signers_name: self.signers_name@,
            signature: self.signature@,
        }
    }
}

/// What decoding a RRSIG record body yields: a function of the stated
/// length, the message bytes, and the position where the body starts.
/// Nine fixed fields are followed by the signer's name and then by the
/// signature, which occupies whatever the stated length leaves.
pub open spec fn spec_read_rrsig(stated_length: u16, bytes: Seq<u8>, pos: int) -> Result<
    RRSIGModel,
    WireError,
> {
    if pos + 18 > bytes.len() {
        Err(WireError::IO)
    } else {
        match spec_read_name(bytes, pos + 18) {
            Err(e) => Err(e),
            Ok(p) => {
                let fixed_len = p.1 - pos;
                if stated_length < fixed_len {
                    Err(
                        WireError::WrongLabelLength {
                            stated_length,
                            length_after_labels: fixed_len as u16,
                        },
                    )
                } else if pos + stated_length > bytes.len() {
                    Err(WireError::IO)
                } else {
                    Ok(
                        RRSIGModel {
                            type_covered: be_u16(bytes[pos], bytes[pos + 1]) as u16,
                            algorithm: bytes[pos + 2],
                            labels: bytes[pos + 3],
                            original_ttl: be_u32(
                                bytes[pos + 4],
                                bytes[pos + 5],
                                bytes[pos + 6],
                                bytes[pos + 7],
                            ) as u32,
                            signature_expiration: be_u32(
                                bytes[pos + 8],
                                bytes[pos + 9],
                                bytes[pos + 10],
                                bytes[pos + 11],
                            ) as u32,
                            signature_inception: be_u32(
                                bytes[pos + 12],
                                bytes[pos + 13],
                                bytes[pos + 14],
                                bytes[pos + 15],
                            ) as u32,
                            key_tag: be_u16(bytes[pos + 16], bytes[pos + 17]) as u16,
                            signers_name: p.0,
                            signature: bytes.subrange(p.1, pos + stated_length),
                        },
                    )
                }
            }
        }
    }
}

/// When the stated length covers the fixed fields and the signer's name
/// but exceeds the bytes actually available, the decode is the
/// buffer-exhaustion error: never a panic, never a partial record.
pub proof fn lemma_rrsig_needs_stated_length(
    stated_length: u16,
    bytes: Seq<u8>,
    pos: int,
    segs: Seq<Seq<u8>>,
    end: int,
)
    requires
        0 <= pos,
        pos + 18 <= bytes.len(),
        spec_read_name(bytes, pos + 18) == Ok::<_, WireError>((segs, end)),
        stated_length >= end - pos,
        pos + stated_length > bytes.len(),
    ensures
        spec_read_rrsig(stated_length, bytes, pos) == Err::<RRSIGModel, WireError>(WireError::IO),
{
}

/// A stated length shorter than the fixed fields plus the signer's name
/// is rejected as a length error, never by wrapping the subtraction.
pub proof fn lemma_rrsig_short_stated_length(
    stated_length: u16,
    bytes: Seq<u8>,
    pos: int,
    segs: Seq<Seq<u8>>,
    end: int,
)
    requires
        0 <= pos,
        pos + 18 <= bytes.len(),
        spec_read_name(bytes, pos + 18) == Ok::<_, WireError>((segs, end)),
        stated_length < end - pos,
    ensures
        spec_read_rrsig(stated_length, bytes, pos) == Err::<RRSIGModel, WireError>(
            WireError::WrongLabelLength {
                stated_length,
                length_after_labels: (end - pos) as u16,
            },
        ),
{
}

impl RRSIG {
    /// The record type number of RRSIG.
    pub const RR_TYPE: u16 = 46;

    /// Decodes a RRSIG record body of exactly `stated_length` bytes.
    pub fn read(stated_length: u16, c: &mut Cursor<'_>) -> (r: Result<RRSIG, WireError>)
        requires
            old(c).wf(),
        ensures
            final(c).wf(),
            final(c).bytes() == old(c).bytes(),
            res_model(r) == spec_read_rrsig(stated_length, old(c).bytes(), old(c).position()),
            r is Ok ==> final(c).position() == old(c).position() + stated_length,
            r is Err ==> old(c).position() <= final(c).position(),
    {
        let type_covered = c.read_u16()?;
        let algorithm = c.read_u8()?;
        let labels = c.read_u8()?;
        let original_ttl = c.read_u32()?;
        let signature_expiration = c.read_u32()?;
        let signature_inception = c.read_u32()?;
        let key_tag = c.read_u16()?;
        let (signers_name, signers_name_len) = match c.read_labels() {
            Ok(p) => p,
            Err(e) => {
                return Err(e);
            }
        };

        let fixed_len: u16 = 18 + signers_name_len;
        let signature_len = match stated_length.checked_sub(fixed_len) {
            Some(n) => n,
            None => {
                return Err(
                    WireError::WrongLabelLength { stated_length, length_after_labels: fixed_len },
                );
            }
        };
        let signature = c.read_bytes(signature_len as usize)?;

        Ok(
            RRSIG {
                type_covered,
                algorithm,
                labels,
                original_ttl,
                signature_expiration,
                signature_inception,
                key_tag,
                signers_name,
                signature,
            },
        )
    }
}

} // verus!
