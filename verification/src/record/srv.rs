//! The SRV record type.

use vstd::prelude::*;
use crate::strings::Labels;
use crate::strings::spec_read_name;
use crate::wire::Cursor;
use crate::wire::WireError;
use crate::wire::be_u16;
use crate::wire::res_model;

verus! {

/// A **SRV** record, which contains an IP address as well as a port
/// number, for specifying the location of services more precisely.
#[derive(PartialEq, Eq, Debug, Clone)]
pub struct SRV {
    /// The priority of this host among all that get returned.
    pub priority: u16,

    /// A weight to choose among results with the same priority.
    pub weight: u16,

    /// The port the service is serving on.
    pub port: u16,

    /// The hostname of the service.
    pub target: Labels,
}

/// The mathematical model of a SRV record.
pub struct SRVModel {
    /// The priority field.
    pub priority: u16,
    /// The weight field.
    pub weight: u16,
    /// The port field.
    pub port: u16,
    /// The labels of the target name.
    pub target: Seq<Seq<u8>>,
}

impl View for SRV {
    type V = SRVModel;

    open spec fn view(&self) -> SRVModel {
        SRVModel {
            priority: self.priority,
            weight: self.weight,
            port: self.port,
            target: self.target@,
        }
    }
}

/// What decoding a SRV record body yields: a function of the stated
/// length, the message bytes, and the position where the body starts.
/// Three fixed fields are followed by one domain name; together they
/// must occupy the stated length exactly.
pub open spec fn spec_read_srv(stated_length: u16, bytes: Seq<u8>, pos: int) -> Result<
    SRVModel,
    WireError,
> {
    if pos + 6 > bytes.len() {
        Err(WireError::IO)
    } else {
        match spec_read_name(bytes, pos + 6) {
            Err(e) => Err(e),
            Ok(p) => {
                let total_len = p.1 - pos;
                if stated_length != total_len {
                    Err(
                        WireError::WrongLabelLength {
                            stated_length,
                            length_after_labels: total_len as u16,
                        },
                    )
                } else {
                    Ok(
                        SRVModel {
                            priority: be_u16(bytes[pos], bytes[pos + 1]) as u16,
                            weight: be_u16(bytes[pos + 2], bytes[pos + 3]) as u16,
                            port: be_u16(bytes[pos + 4], bytes[pos + 5]) as u16,
                            target: p.0,
                        },
                    )
                }
            }
        }
    }
}

/// A stated length that is not exactly the fixed fields plus the
/// decoded name is a length mismatch carrying the stated length and the
/// length the fields occupy; the subtraction never wraps.
pub proof fn lemma_srv_length_mismatch(
    stated_length: u16,
    bytes: Seq<u8>,
    pos: int,
    segs: Seq<Seq<u8>>,
    end: int,
)
    requires
        0 <= pos,
        pos + 6 <= bytes.len(),
        spec_read_name(bytes, pos + 6) == Ok::<_, WireError>((segs, end)),
        stated_length != end - pos,
    ensures
        spec_read_srv(stated_length, bytes, pos) == Err::<SRVModel, WireError>(
            WireError::WrongLabelLength {
                stated_length,
                length_after_labels: (end - pos) as u16,
            },
        ),
{
}

impl SRV {
    /// The record type number of SRV.
    pub const RR_TYPE: u16 = 33;

    /// Decodes a SRV record body of exactly `stated_length` bytes.
    pub fn read(stated_length: u16, c: &mut Cursor<'_>) -> (r: Result<SRV, WireError>)
        requires
            old(c).wf(),
        ensures
            final(c).wf(),
            final(c).bytes() == old(c).bytes(),
            res_model(r) == spec_read_srv(stated_length, old(c).bytes(), old(c).position()),
            r is Ok ==> final(c).position() == old(c).position() + stated_length,
            r is Err ==> old(c).position() <= final(c).position(),
    {
        let priority = c.read_u16()?;
        let weight = c.read_u16()?;
        let port = c.read_u16()?;
        let (target, target_len) = match c.read_labels() {
            Ok(p) => p,
            Err(e) => {
                return Err(e);
            }
        };
        let total_len: u16 = 6 + target_len;
        if stated_length != total_len {
            return Err(
                WireError::WrongLabelLength { stated_length, length_after_labels: total_len },
            );
        }
        Ok(SRV { priority, weight, port, target })
    }
}

} // verus!
