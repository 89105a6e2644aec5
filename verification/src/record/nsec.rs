//! The NSEC record type.

use vstd::prelude::*;
use crate::strings::Labels;
use crate::strings::spec_read_name;
use crate::wire::Cursor;
use crate::wire::WireError;
use crate::wire::res_model;

verus! {

/// A **NSEC** record, which specifies that the types listed in the type
/// bit maps field do not exist for the domain name.
#[derive(PartialEq, Eq, Debug, Clone)]
pub struct NSEC {
    /// The name of the next domain in the canonical ordering of the
    /// zone.
    pub next_domain_name: Labels,

    /// The type bit maps field contains the list of RR types present at
    /// the NSEC RR's owner name.
    pub type_bit_maps: Vec<u8>,
}

/// The mathematical model of a NSEC record.
pub struct NSECModel {
    /// The labels of the next domain name.
    pub next_domain_name: Seq<Seq<u8>>,
    /// The type bit maps bytes.
    pub type_bit_maps: Seq<u8>,
}

impl View for NSEC {
    type V = NSECModel;

    open spec fn view(&self) -> NSECModel {
        NSECModel {
            next_domain_name: self.next_domain_name@,
            type_bit_maps: self.type_bit_maps@,
        }
    }
}

/// What decoding a NSEC record body yields: a function of the stated
/// length, the message bytes, and the position where the body starts.
/// A domain name is followed by the type bit maps, which occupy whatever
/// the stated length leaves after the name.
pub open spec fn spec_read_nsec(stated_length: u16, bytes: Seq<u8>, pos: int) -> Result<
    NSECModel,
    WireError,
> {
    match spec_read_name(bytes, pos) {
        Err(e) => Err(e),
        Ok(p) => {
            let name_len = p.1 - pos;
            if stated_length < name_len {
                Err(
                    WireError::WrongLabelLength {
                        stated_length,
                        length_after_labels: name_len as u16,
                    },
                )
            } else if pos + stated_length > bytes.len() {
                Err(WireError::IO)
            } else {
                Ok(
                    NSECModel {
                        next_domain_name: p.0,
                        type_bit_maps: bytes.subrange(p.1, pos + stated_length),
                    },
                )
            }
        }
    }
}

/// When the stated length covers the decoded name but exceeds the bytes
/// actually available, the decode is the buffer-exhaustion error: never
/// a panic, never a partial record.
pub proof fn lemma_nsec_needs_stated_length(
    stated_length: u16,
    bytes: Seq<u8>,
    pos: int,
    segs: Seq<Seq<u8>>,
    end: int,
)
    requires
        spec_read_name(bytes, pos) == Ok::<_, WireError>((segs, end)),
        stated_length >= end - pos,
        pos + stated_length > bytes.len(),
    ensures
        spec_read_nsec(stated_length, bytes, pos) == Err::<NSECModel, WireError>(WireError::IO),
{
}

/// A stated length shorter than the decoded name is rejected as a
/// length error, never by wrapping the subtraction.
pub proof fn lemma_nsec_short_stated_length(
    stated_length: u16,
    bytes: Seq<u8>,
    pos: int,
    segs: Seq<Seq<u8>>,
    end: int,
)
    requires
        spec_read_name(bytes, pos) == Ok::<_, WireError>((segs, end)),
        stated_length < end - pos,
    ensures
        spec_read_nsec(stated_length, bytes, pos) == Err::<NSECModel, WireError>(
            WireError::WrongLabelLength {
                stated_length,
                length_after_labels: (end - pos) as u16,
            },
        ),
{
}

impl NSEC {
    /// The record type number of NSEC.
    pub const RR_TYPE: u16 = 47;

    /// Decodes a NSEC record body of exactly `stated_length` bytes.
    pub fn read(stated_length: u16, c: &mut Cursor<'_>) -> (r: Result<NSEC, WireError>)
        requires
            old(c).wf(),
        ensures
            final(c).wf(),
            final(c).bytes() == old(c).bytes(),
            res_model(r) == spec_read_nsec(stated_length, old(c).bytes(), old(c).position()),
            r is Ok ==> final(c).position() == old(c).position() + stated_length,
            r is Err ==> old(c).position() <= final(c).position(),
    {
        let (next_domain_name, next_domain_name_len) = match c.read_labels() {
            Ok(p) => p,
            Err(e) => {
                return Err(e);
            }
        };
        let type_bit_maps_len = match stated_length.checked_sub(next_domain_name_len) {
            Some(n) => n,
            None => {
                return Err(
                    WireError::WrongLabelLength {
                        stated_length,
                        length_after_labels: next_domain_name_len,
                    },
                );
            }
        };
        let type_bit_maps = c.read_bytes(type_bit_maps_len as usize)?;

        Ok(NSEC { next_domain_name, type_bit_maps })
    }
}

} // verus!
