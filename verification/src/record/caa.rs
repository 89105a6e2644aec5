//! The CAA record type.

use vstd::prelude::*;
use crate::wire::Cursor;
use crate::wire::WireError;
use crate::wire::spec_char_string_len;
use crate::wire::res_model;

verus! {

/// A **CAA** record, which lists the certificate authorities allowed to
/// issue certificates for the domain.
#[derive(PartialEq, Eq, Debug, Clone)]
pub struct CAA {
    /// Whether this record is marked critical.
    pub critical: bool,

    /// The property identified by this record.
    pub tag: Vec<u8>,

    /// The value associated with the property.
    pub value: Vec<u8>,
}

/// The mathematical model of a CAA record.
pub struct CAAModel {
    /// The critical flag.
    pub critical: bool,
    /// The property tag bytes.
    pub tag: Seq<u8>,
    /// The property value bytes.
    pub value: Seq<u8>,
}

impl View for CAA {
    type V = CAAModel;

    open spec fn view(&self) -> CAAModel {
        CAAModel { critical: self.critical, tag: self.tag@, value: self.value@ }
    }
}

/// What decoding a CAA record body yields: a function of the stated
/// length, the message bytes, and the position where the body starts.
/// A flags byte and a length-prefixed tag are followed by the value,
/// which occupies whatever the stated length leaves.
pub open spec fn spec_read_caa(stated_length: u16, bytes: Seq<u8>, pos: int) -> Result<
    CAAModel,
    WireError,
> {
    if pos + 1 > bytes.len() {
        Err(WireError::IO)
    } else {
        let tag_len = spec_char_string_len(bytes, pos + 1);
        if pos + 2 + tag_len > bytes.len() {
            Err(WireError::IO)
        } else {
            let fixed_len = 2 + tag_len;
            if stated_length < fixed_len {
                Err(
                    WireError::WrongLabelLength {
                        stated_length,
                        length_after_labels: fixed_len as u16,
                    },
                )
            } else if pos + stated_length > bytes.len() {
                Err(WireError::IO)
            } else {
                Ok(
                    CAAModel {
                        critical: bytes[pos] >= 128,
                        tag: bytes.subrange(pos + 2, pos + 2 + tag_len),
                        value: bytes.subrange(pos + fixed_len, pos + stated_length),
                    },
                )
            }
        }
    }
}

/// When the stated length covers the flags byte and the tag but
/// exceeds the bytes actually available, the decode is the
/// buffer-exhaustion error: never a panic, never a partial record.
pub proof fn lemma_caa_needs_stated_length(stated_length: u16, bytes: Seq<u8>, pos: int)
    requires
        0 <= pos,
        pos + 2 + spec_char_string_len(bytes, pos + 1) <= bytes.len(),
        stated_length >= 2 + spec_char_string_len(bytes, pos + 1),
        pos + stated_length > bytes.len(),
    ensures
        spec_read_caa(stated_length, bytes, pos) == Err::<CAAModel, WireError>(WireError::IO),
{
}

/// A stated length shorter than the flags byte plus the tag is rejected
/// as a length error, never by wrapping the subtraction.
pub proof fn lemma_caa_short_stated_length(stated_length: u16, bytes: Seq<u8>, pos: int)
    requires
        0 <= pos,
        pos + 2 + spec_char_string_len(bytes, pos + 1) <= bytes.len(),
        stated_length < 2 + spec_char_string_len(bytes, pos + 1),
    ensures
        spec_read_caa(stated_length, bytes, pos) == Err::<CAAModel, WireError>(
            WireError::WrongLabelLength {
                stated_length,
                length_after_labels: (2 + spec_char_string_len(bytes, pos + 1)) as u16,
            },
        ),
{
}

impl CAA {
    /// The record type number of CAA.
    pub const RR_TYPE: u16 = 257;

    /// Decodes a CAA record body of exactly `stated_length` bytes.
    pub fn read(stated_length: u16, c: &mut Cursor<'_>) -> (r: Result<CAA, WireError>)
        requires
            old(c).wf(),
        ensures
            final(c).wf(),
            final(c).bytes() == old(c).bytes(),
            res_model(r) == spec_read_caa(stated_length, old(c).bytes(), old(c).position()),
            r is Ok ==> final(c).position() == old(c).position() + stated_length,
            r is Err ==> old(c).position() <= final(c).position(),
    {
        let flags = c.read_u8()?;
        let (tag, tag_used) = match c.read_char_string() {
            Ok(p) => p,
            Err(e) => {
                return Err(e);
            }
        };
        let fixed_len: u16 = 1 + tag_used;
        let value_len = match stated_length.checked_sub(fixed_len) {
            Some(n) => n,
            None => {
                return Err(
                    WireError::WrongLabelLength { stated_length, length_after_labels: fixed_len },
                );
            }
        };
        let value = c.read_bytes(value_len as usize)?;

        Ok(CAA { critical: flags >= 128, tag, value })
    }
}

} // verus!
