//! The HINFO record type.

use vstd::prelude::*;
use crate::wire::Cursor;
use crate::wire::WireError;
use crate::wire::spec_char_string_len;
use crate::wire::res_model;

verus! {

/// A **HINFO** record, which contains the CPU and operating system of
/// the host.
#[derive(PartialEq, Eq, Debug, Clone)]
pub struct HINFO {
    /// The CPU field.
    pub cpu: Vec<u8>,

    /// The operating system field.
    pub os: Vec<u8>,
}

/// The mathematical model of a HINFO record.
pub struct HINFOModel {
    /// The CPU bytes.
    pub cpu: Seq<u8>,
    /// The operating system bytes.
    pub os: Seq<u8>,
}

impl View for HINFO {
    type V = HINFOModel;

    open spec fn view(&self) -> HINFOModel {
        HINFOModel { cpu: self.cpu@, os: self.os@ }
    }
}

/// What decoding a HINFO record body yields: a function of the stated
/// length, the message bytes, and the position where the body starts.
/// Two character-strings must occupy the stated length exactly.
pub open spec fn spec_read_hinfo(stated_length: u16, bytes: Seq<u8>, pos: int) -> Result<
    HINFOModel,
    WireError,
> {
    let cpu_len = spec_char_string_len(bytes, pos);
    if pos + 1 + cpu_len > bytes.len() {
        Err(WireError::IO)
    } else {
        let q = pos + 1 + cpu_len;
        let os_len = spec_char_string_len(bytes, q);
        if q + 1 + os_len > bytes.len() {
            Err(WireError::IO)
        } else {
            let total_len = 2 + cpu_len + os_len;
            if stated_length != total_len {
                Err(
                    WireError::WrongLabelLength {
                        stated_length,
                        length_after_labels: total_len as u16,
                    },
                )
            } else {
                Ok(
                    HINFOModel {
                        cpu: bytes.subrange(pos + 1, pos + 1 + cpu_len),
                        os: bytes.subrange(q + 1, q + 1 + os_len),
                    },
                )
            }
        }
    }
}

/// A stated length that is not exactly the two character-strings is a
/// length mismatch carrying the stated length and the length the
/// strings occupy; the subtraction never wraps.
pub proof fn lemma_hinfo_length_mismatch(stated_length: u16, bytes: Seq<u8>, pos: int)
    requires
        0 <= pos,
        pos + 1 + spec_char_string_len(bytes, pos) <= bytes.len(),
        pos + 2 + spec_char_string_len(bytes, pos) + spec_char_string_len(
            bytes,
            pos + 1 + spec_char_string_len(bytes, pos),
        ) <= bytes.len(),
        stated_length != 2 + spec_char_string_len(bytes, pos) + spec_char_string_len(
            bytes,
            pos + 1 + spec_char_string_len(bytes, pos),
        ),
    ensures
        spec_read_hinfo(stated_length, bytes, pos) == Err::<HINFOModel, WireError>(
            WireError::WrongLabelLength {
                stated_length,
                length_after_labels: (2 + spec_char_string_len(bytes, pos)
                    + spec_char_string_len(
                    bytes,
                    pos + 1 + spec_char_string_len(bytes, pos),
                )) as u16,
            },
        ),
{
}

impl HINFO {
    /// The record type number of HINFO.
    pub const RR_TYPE: u16 = 13;

    /// Decodes a HINFO record body of exactly `stated_length` bytes.
    pub fn read(stated_length: u16, c: &mut Cursor<'_>) -> (r: Result<HINFO, WireError>)
        requires
            old(c).wf(),
        ensures
            final(c).wf(),
            final(c).bytes() == old(c).bytes(),
            res_model(r) == spec_read_hinfo(stated_length, old(c).bytes(), old(c).position()),
            r is Ok ==> final(c).position() == old(c).position() + stated_length,
            r is Err ==> old(c).position() <= final(c).position(),
    {
        let (cpu, cpu_used) = match c.read_char_string() {
            Ok(p) => p,
            Err(e) => {
                return Err(e);
            }
        };
        let (os, os_used) = match c.read_char_string() {
            Ok(p) => p,
            Err(e) => {
                return Err(e);
            }
        };
        let total_len: u16 = cpu_used + os_used;
        if stated_length != total_len {
            return Err(
                WireError::WrongLabelLength { stated_length, length_after_labels: total_len },
            );
        }
        Ok(HINFO { cpu, os })
    }
}

} // verus!
