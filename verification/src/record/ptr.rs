//! The PTR record type.

use vstd::prelude::*;
use crate::strings::Labels;
use crate::strings::spec_read_name;
use crate::wire::Cursor;
use crate::wire::WireError;
use crate::wire::res_model;

verus! {

/// A **PTR** record, which holds a pointer to a canonical name, most
/// often used for reverse lookups.
#[derive(PartialEq, Eq, Debug, Clone)]
pub struct PTR {
    /// The domain name that the address points to.
    pub cname: Labels,
}

/// The mathematical model of a PTR record.
pub struct PTRModel {
    /// The labels of the pointed-to name.
    pub cname: Seq<Seq<u8>>,
}

impl View for PTR {
    type V = PTRModel;

    open spec fn view(&self) -> PTRModel {
        PTRModel { cname: self.cname@ }
    }
}

/// What decoding a PTR record body yields: a function of the stated
/// length, the message bytes, and the position where the body starts.
/// The body is one domain name, which must occupy the stated length
/// exactly.
pub open spec fn spec_read_ptr(stated_length: u16, bytes: Seq<u8>, pos: int) -> Result<
    PTRModel,
    WireError,
> {
    match spec_read_name(bytes, pos) {
        Err(e) => Err(e),
        Ok(p) => {
            let name_len = p.1 - pos;
            if stated_length != name_len {
                Err(
                    WireError::WrongLabelLength {
                        stated_length,
                        length_after_labels: name_len as u16,
                    },
                )
            } else {
                Ok(PTRModel { cname: p.0 })
            }
        }
    }
}

/// A stated length that is not exactly the length of the decoded name
/// is a length mismatch carrying the stated length and the length the
/// name occupies; the subtraction never wraps.
pub proof fn lemma_ptr_length_mismatch(
    stated_length: u16,
    bytes: Seq<u8>,
    pos: int,
    segs: Seq<Seq<u8>>,
    end: int,
)
    requires
        spec_read_name(bytes, pos) == Ok::<_, WireError>((segs, end)),
        stated_length != end - pos,
    ensures
        spec_read_ptr(stated_length, bytes, pos) == Err::<PTRModel, WireError>(
            WireError::WrongLabelLength {
                stated_length,
                length_after_labels: (end - pos) as u16,
            },
        ),
{
}

impl PTR {
    /// The record type number of PTR.
    pub const RR_TYPE: u16 = 12;

    /// Decodes a PTR record body of exactly `stated_length` bytes.
    pub fn read(stated_length: u16, c: &mut Cursor<'_>) -> (r: Result<PTR, WireError>)
        requires
            old(c).wf(),
        ensures
            final(c).wf(),
            final(c).bytes() == old(c).bytes(),
            res_model(r) == spec_read_ptr(stated_length, old(c).bytes(), old(c).position()),
            r is Ok ==> final(c).position() == old(c).position() + stated_length,
            r is Err ==> old(c).position() <= final(c).position(),
    {
        let (cname, cname_len) = match c.read_labels() {
            Ok(p) => p,
            Err(e) => {
                return Err(e);
            }
        };
        if stated_length != cname_len {
            return Err(
                WireError::WrongLabelLength { stated_length, length_after_labels: cname_len },
            );
        }
        Ok(PTR { cname })
    }
}

} // verus!
