//! The SOA record type.

use vstd::prelude::*;
use crate::strings::Labels;
use crate::strings::spec_read_name;
use crate::wire::Cursor;
use crate::wire::WireError;
use crate::wire::be_u32;
use crate::wire::res_model;

verus! {

/// A **SOA** record, which contains zone authority information.
#[derive(PartialEq, Eq, Debug, Clone)]
pub struct SOA {
    /// The primary master name for this zone.
    pub mname: Labels,

    /// The e-mail address of the administrator, with the `@` replaced by
    /// a dot.
    pub rname: Labels,

    /// The version number of the zone file.
    pub serial: u32,

    /// How long secondaries should wait between zone refreshes.
    pub refresh_interval: u32,

    /// How long secondaries should wait before retrying a failed
    /// refresh.
    pub retry_interval: u32,

    /// How long secondaries may serve the zone without a refresh.
    pub expire_limit: u32,

    /// The minimum time-to-live of records in this zone.
    pub minimum_ttl: u32,
}

/// The mathematical model of a SOA record.
pub struct SOAModel {
    /// The labels of the primary master name.
    pub mname: Seq<Seq<u8>>,
    /// The labels of the administrator name.
    pub rname: Seq<Seq<u8>>,
    /// The serial number.
    pub serial: u32,
    /// The refresh interval.
    pub refresh_interval: u32,
    /// The retry interval.
    pub retry_interval: u32,
    /// The expire limit.
    pub expire_limit: u32,
    /// The minimum time-to-live.
    pub minimum_ttl: u32,
}

impl View for SOA {
    type V = SOAModel;

    open spec fn view(&self) -> SOAModel {
        SOAModel {
            mname: self.mname@,
            rname: self.rname@,
            serial: self.serial,
            refresh_interval: self.refresh_interval,
            retry_interval: self.retry_interval,
            expire_limit: self.expire_limit,
            minimum_ttl: self.minimum_ttl,
        }
    }
}

/// What decoding a SOA record body yields: a function of the stated
/// length, the message bytes, and the position where the body starts.
/// Two domain names are followed by five fixed fields; together they
/// must occupy the stated length exactly.
pub open spec fn spec_read_soa(stated_length: u16, bytes: Seq<u8>, pos: int) -> Result<
    SOAModel,
    WireError,
> {
    match spec_read_name(bytes, pos) {
        Err(e) => Err(e),
        Ok(m) => match spec_read_name(bytes, m.1) {
            Err(e) => Err(e),
            Ok(rn) => {
                let q = rn.1;
                if q + 20 > bytes.len() {
                    Err(WireError::IO)
                } else {
                    let total_len = q + 20 - pos;
                    if stated_length != total_len {
                        Err(
                            WireError::WrongLabelLength {
                                stated_length,
                                length_after_labels: total_len as u16,
                            },
                        )
                    } else {
                        Ok(
                            SOAModel {
                                mname: m.0,
                                rname: rn.0,
                                serial: be_u32(
                                    bytes[q],
                                    bytes[q + 1],
                                    bytes[q + 2],
                                    bytes[q + 3],
                                ) as u32,
                                refresh_interval: be_u32(
                                    bytes[q + 4],
                                    bytes[q + 5],
                                    bytes[q + 6],
                                    bytes[q + 7],
                                ) as u32,
                                retry_interval: be_u32(
                                    bytes[q + 8],
                                    bytes[q + 9],
                                    bytes[q + 10],
                                    bytes[q + 11],
                                ) as u32,
                                expire_limit: be_u32(
                                    bytes[q + 12],
                                    bytes[q + 13],
                                    bytes[q + 14],
                                    bytes[q + 15],
                                ) as u32,
                                minimum_ttl: be_u32(
                                    bytes[q + 16],
                                    bytes[q + 17],
                                    bytes[q + 18],
                                    bytes[q + 19],
                                ) as u32,
                            },
                        )
                    }
                }
            },
        },
    }
}

/// A stated length that is not exactly the two decoded names plus the
/// five fixed fields is a length mismatch carrying the stated length
/// and the length the fields occupy; the subtraction never wraps.
pub proof fn lemma_soa_length_mismatch(
    stated_length: u16,
    bytes: Seq<u8>,
    pos: int,
    m: (Seq<Seq<u8>>, int),
    rn: (Seq<Seq<u8>>, int),
)
    requires
        spec_read_name(bytes, pos) == Ok::<_, WireError>(m),
        spec_read_name(bytes, m.1) == Ok::<_, WireError>(rn),
        rn.1 + 20 <= bytes.len(),
        stated_length != rn.1 + 20 - pos,
    ensures
        spec_read_soa(stated_length, bytes, pos) == Err::<SOAModel, WireError>(
            WireError::WrongLabelLength {
                stated_length,
                length_after_labels: (rn.1 + 20 - pos) as u16,
            },
        ),
{
}

impl SOA {
    /// The record type number of SOA.
    pub const RR_TYPE: u16 = 6;

    /// Decodes a SOA record body of exactly `stated_length` bytes.
    pub fn read(stated_length: u16, c: &mut Cursor<'_>) -> (r: Result<SOA, WireError>)
        requires
            old(c).wf(),
        ensures
            final(c).wf(),
            final(c).bytes() == old(c).bytes(),
            res_model(r) == spec_read_soa(stated_length, old(c).bytes(), old(c).position()),
            r is Ok ==> final(c).position() == old(c).position() + stated_length,
            r is Err ==> old(c).position() <= final(c).position(),
    {
        let (mname, mname_len) = match c.read_labels() {
            Ok(p) => p,
            Err(e) => {
                return Err(e);
            }
        };
        let (rname, rname_len) = match c.read_labels() {
            Ok(p) => p,
            Err(e) => {
                return Err(e);
            }
        };
        let serial = c.read_u32()?;
        let refresh_interval = c.read_u32()?;
        let retry_interval = c.read_u32()?;
        let expire_limit = c.read_u32()?;
        let minimum_ttl = c.read_u32()?;

        let total_len: u16 = mname_len + rname_len + 20;
        if stated_length != total_len {
            return Err(
                WireError::WrongLabelLength { stated_length, length_after_labels: total_len },
            );
        }
        Ok(
            SOA {
                mname,
                rname,
                serial,
                refresh_interval,
                retry_interval,
                expire_limit,
                minimum_ttl,
            },
        )
    }
}

} // verus!
