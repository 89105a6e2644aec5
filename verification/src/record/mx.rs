//! The MX record type.

use vstd::prelude::*;
use crate::strings::Labels;
use crate::strings::spec_read_name;
use crate::wire::Cursor;
use crate::wire::WireError;
use crate::wire::be_u16;
use crate::wire::res_model;

verus! {

/// A **MX** record, which contains the name of a mail exchange server
/// for the domain.
#[derive(PartialEq, Eq, Debug, Clone)]
pub struct MX {
    /// The preference of this exchange: lower numbers are preferred.
    pub preference: u16,

    /// The name of the mail exchange server.
    pub exchange: Labels,
}

/// The mathematical model of a MX record.
pub struct MXModel {
    /// The preference field.
    pub preference: u16,
    /// The labels of the exchange name.
    pub exchange: Seq<Seq<u8>>,
}

impl View for MX {
    type V = MXModel;

    open spec fn view(&self) -> MXModel {
        MXModel { preference: self.preference, exchange: self.exchange@ }
    }
}

/// What decoding a MX record body yields: a function of the stated
/// length, the message bytes, and the position where the body starts.
/// A preference field is followed by one domain name; together they must
/// occupy the stated length exactly.
pub open spec fn spec_read_mx(stated_length: u16, bytes: Seq<u8>, pos: int) -> Result<
    MXModel,
    WireError,
> {
    if pos + 2 > bytes.len() {
        Err(WireError::IO)
    } else {
        match spec_read_name(bytes, pos + 2) {
            Err(e) => Err(e),
            Ok(p) => {
                let total_len = 2 + p.1 - (pos + 2);
                if stated_length != total_len {
                    Err(
                        WireError::WrongLabelLength {
                            stated_length,
                            length_after_labels: total_len as u16,
                        },
                    )
                } else {
                    Ok(MXModel { preference: be_u16(bytes[pos], bytes[pos + 1]) as u16, exchange: p.0 })
                }
            }
        }
    }
}

/// A stated length that is not exactly the fixed fields plus the
/// decoded name is a length mismatch carrying the stated length and the
/// length the fields occupy; the subtraction never wraps.
pub proof fn lemma_mx_length_mismatch(
    stated_length: u16,
    bytes: Seq<u8>,
    pos: int,
    segs: Seq<Seq<u8>>,
    end: int,
)
    requires
        0 <= pos,
        pos + 2 <= bytes.len(),
        spec_read_name(bytes, pos + 2) == Ok::<_, WireError>((segs, end)),
        stated_length != end - pos,
    ensures
        spec_read_mx(stated_length, bytes, pos) == Err::<MXModel, WireError>(
            WireError::WrongLabelLength {
                stated_length,
                length_after_labels: (end - pos) as u16,
            },
        ),
{
}

impl MX {
    /// The record type number of MX.
    pub const RR_TYPE: u16 = 15;

    /// Decodes a MX record body of exactly `stated_length` bytes.
    pub fn read(stated_length: u16, c: &mut Cursor<'_>) -> (r: Result<MX, WireError>)
        requires
            old(c).wf(),
        ensures
            final(c).wf(),
            final(c).bytes() == old(c).bytes(),
            res_model(r) == spec_read_mx(stated_length, old(c).bytes(), old(c).position()),
            r is Ok ==> final(c).position() == old(c).position() + stated_length,
            r is Err ==> old(c).position() <= final(c).position(),
    {
        let preference = c.read_u16()?;
        let (exchange, exchange_len) = match c.read_labels() {
            Ok(p) => p,
            Err(e) => {
                return Err(e);
            }
        };
        let total_len: u16 = 2 + exchange_len;
        if stated_length != total_len {
            return Err(
                WireError::WrongLabelLength { stated_length, length_after_labels: total_len },
            );
        }
        Ok(MX { preference, exchange })
    }
}

} // verus!
