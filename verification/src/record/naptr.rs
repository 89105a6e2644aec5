//! The NAPTR record type.

use vstd::prelude::*;
use crate::strings::Labels;
use crate::strings::spec_read_name;
use crate::wire::Cursor;
use crate::wire::WireError;
use crate::wire::be_u16;
use crate::wire::spec_char_string_len;
use crate::wire::res_model;

verus! {

/// A **NAPTR** record, which holds a rule for rewriting a domain name.
#[derive(PartialEq, Eq, Debug, Clone)]
pub struct NAPTR {
    /// The order in which rules must be processed, lowest first.
    pub order: u16,

    /// The preference among rules with the same order.
    pub preference: u16,

    /// The flags controlling rewriting and interpretation.
    pub flags: Vec<u8>,

    /// The service parameters available down this rewrite path.
    pub service: Vec<u8>,

    /// The substitution expression applied to the original string.
    pub regex: Vec<u8>,

    /// The next domain name to query, when the regular expression is
    /// empty.
    pub replacement: Labels,
}

/// The mathematical model of a NAPTR record.
pub struct NAPTRModel {
    /// The order field.
    pub order: u16,
    /// The preference field.
    pub preference: u16,
    /// The flags bytes.
    pub flags: Seq<u8>,
    /// The service bytes.
    pub service: Seq<u8>,
    /// The substitution expression bytes.
    pub regex: Seq<u8>,
    /// The labels of the replacement name.
    pub replacement: Seq<Seq<u8>>,
}

impl View for NAPTR {
    type V = NAPTRModel;

    open spec fn view(&self) -> NAPTRModel {
        NAPTRModel {
            order: self.order,
            preference: self.preference,
            flags: self.flags@,
            service: self.service@,
            regex: self.regex@,
            replacement: self.replacement@,
        }
    }
}

/// What decoding a NAPTR record body yields: a function of the stated
/// length, the message bytes, and the position where the body starts.
/// Two fixed fields, three character-strings, and a domain name must
/// occupy the stated length exactly.
pub open spec fn spec_read_naptr(stated_length: u16, bytes: Seq<u8>, pos: int) -> Result<
    NAPTRModel,
    WireError,
> {
    if pos + 4 > bytes.len() {
        Err(WireError::IO)
    } else {
        let flags_len = spec_char_string_len(bytes, pos + 4);
        if pos + 5 + flags_len > bytes.len() {
            Err(WireError::IO)
        } else {
            let q1 = pos + 5 + flags_len;
            let service_len = spec_char_string_len(bytes, q1);
            if q1 + 1 + service_len > bytes.len() {
                Err(WireError::IO)
            } else {
                let q2 = q1 + 1 + service_len;
                let regex_len = spec_char_string_len(bytes, q2);
                if q2 + 1 + regex_len > bytes.len() {
                    Err(WireError::IO)
                } else {
                    let q3 = q2 + 1 + regex_len;
                    match spec_read_name(bytes, q3) {
                        Err(e) => Err(e),
                        Ok(p) => {
                            let total_len = p.1 - pos;
                            if stated_length != total_len {
                                Err(
                                    WireError::WrongLabelLength {
                                        stated_length,
                                        length_after_labels: total_len as u16,
                                    },
                                )
                            } else {
                                Ok(
                                    NAPTRModel {
                                        order: be_u16(bytes[pos], bytes[pos + 1]) as u16,
                                        preference: be_u16(bytes[pos + 2], bytes[pos + 3]) as u16,
                                        flags: bytes.subrange(pos + 5, pos + 5 + flags_len),
                                        service: bytes.subrange(q1 + 1, q1 + 1 + service_len),
                                        regex: bytes.subrange(q2 + 1, q2 + 1 + regex_len),
                                        replacement: p.0,
                                    },
                                )
                            }
                        }
                    }
                }
            }
        }
    }
}

impl NAPTR {
    /// The record type number of NAPTR.
    pub const RR_TYPE: u16 = 35;

    /// Decodes a NAPTR record body of exactly `stated_length` bytes.
    pub fn read(stated_length: u16, c: &mut Cursor<'_>) -> (r: Result<NAPTR, WireError>)
        requires
            old(c).wf(),
        ensures
            final(c).wf(),
            final(c).bytes() == old(c).bytes(),
            res_model(r) == spec_read_naptr(stated_length, old(c).bytes(), old(c).position()),
            r is Ok ==> final(c).position() == old(c).position() + stated_length,
            r is Err ==> old(c).position() <= final(c).position(),
    {
        let order = c.read_u16()?;
        let preference = c.read_u16()?;
        let (flags, flags_used) = match c.read_char_string() {
            Ok(p) => p,
            Err(e) => {
                return Err(e);
            }
        };
        let (service, service_used) = match c.read_char_string() {
            Ok(p) => p,
            Err(e) => {
                return Err(e);
            }
        };
        let (regex, regex_used) = match c.read_char_string() {
            Ok(p) => p,
            Err(e) => {
                return Err(e);
            }
        };
        let (replacement, replacement_len) = match c.read_labels() {
            Ok(p) => p,
            Err(e) => {
                return Err(e);
            }
        };
        let total_len: u16 = 4 + flags_used + service_used + regex_used + replacement_len;
        if stated_length != total_len {
            return Err(
                WireError::WrongLabelLength { stated_length, length_after_labels: total_len },
            );
        }
        Ok(NAPTR { order, preference, flags, service, regex, replacement })
    }
}

} // verus!
