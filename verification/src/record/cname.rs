//! The CNAME record type.

use vstd::prelude::*;
use crate::strings::Labels;
use crate::strings::spec_read_name;
use crate::wire::Cursor;
use crate::wire::WireError;
use crate::wire::res_model;

verus! {

/// A **CNAME** record, which contains the canonical name of the domain.
#[derive(PartialEq, Eq, Debug, Clone)]
pub struct CNAME {
    /// The domain that this record is an alias for.
    pub domain: Labels,
}

/// The mathematical model of a CNAME record.
pub struct CNAMEModel {
    /// The labels of the canonical name.
    pub domain: Seq<Seq<u8>>,
}

impl View for CNAME {
    type V = CNAMEModel;

    open spec fn view(&self) -> CNAMEModel {
        CNAMEModel { domain: self.domain@ }
    }
}

/// What decoding a CNAME record body yields: a function of the stated
/// length, the message bytes, and the position where the body starts.
/// The body is one domain name, which must occupy the stated length
/// exactly.
pub open spec fn spec_read_cname(stated_length: u16, bytes: Seq<u8>, pos: int) -> Result<
    CNAMEModel,
    WireError,
> {
    match spec_read_name(bytes, pos) {
        Err(e) => Err(e),
        Ok(p) => {
            let name_len = p.1 - pos;
            if stated_length != name_len {
                Err(
                    WireError::WrongLabelLength {
                        stated_length,
                        length_after_labels: name_len as u16,
                    },
                )
            } else {
                Ok(CNAMEModel { domain: p.0 })
            }
        }
    }
}

/// A stated length that is not exactly the length of the decoded name
/// is a length mismatch carrying the stated length and the length the
/// name occupies; the subtraction never wraps.
pub proof fn lemma_cname_length_mismatch(
    stated_length: u16,
    bytes: Seq<u8>,
    pos: int,
    segs: Seq<Seq<u8>>,
    end: int,
)
    requires
        spec_read_name(bytes, pos) == Ok::<_, WireError>((segs, end)),
        stated_length != end - pos,
    ensures
        spec_read_cname(stated_length, bytes, pos) == Err::<CNAMEModel, WireError>(
            WireError::WrongLabelLength {
                stated_length,
                length_after_labels: (end - pos) as u16,
            },
        ),
{
}

impl CNAME {
    /// The record type number of CNAME.
    pub const RR_TYPE: u16 = 5;

    /// Decodes a CNAME record body of exactly `stated_length` bytes.
    pub fn read(stated_length: u16, c: &mut Cursor<'_>) -> (r: Result<CNAME, WireError>)
        requires
            old(c).wf(),
        ensures
            final(c).wf(),
            final(c).bytes() == old(c).bytes(),
            res_model(r) == spec_read_cname(stated_length, old(c).bytes(), old(c).position()),
            r is Ok ==> final(c).position() == old(c).position() + stated_length,
            r is Err ==> old(c).position() <= final(c).position(),
    {
        let (domain, domain_len) = match c.read_labels() {
            Ok(p) => p,
            Err(e) => {
                return Err(e);
            }
        };
        if stated_length != domain_len {
            return Err(
                WireError::WrongLabelLength { stated_length, length_after_labels: domain_len },
            );
        }
        Ok(CNAME { domain })
    }
}

} // verus!
