//! The LOC record type.

use vstd::prelude::*;
use crate::wire::Cursor;
use crate::wire::MandatedLength;
use crate::wire::WireError;
use crate::wire::be_u32;
use crate::wire::res_model;

verus! {

/// A **LOC** record, which holds a geographical position.
#[derive(PartialEq, Eq, Debug, Clone)]
pub struct LOC {
    /// The version of the representation; always zero.
    pub version: u8,

    /// The diameter of the described sphere, as a base-and-exponent pair
    /// packed into one byte.
    pub size: u8,

    /// The horizontal precision, packed like the size.
    pub horizontal_precision: u8,

    /// The vertical precision, packed like the size.
    pub vertical_precision: u8,

    /// The latitude, in thousandths of an arcsecond, offset by 2^31.
    pub latitude: u32,

    /// The longitude, in thousandths of an arcsecond, offset by 2^31.
    pub longitude: u32,

    /// The altitude, in centimetres, offset by 100,000 metres.
    pub altitude: u32,
}

/// The mathematical model of a LOC record.
pub struct LOCModel {
    /// The representation version.
    pub version: u8,
    /// The packed sphere diameter.
    pub size: u8,
    /// The packed horizontal precision.
    pub horizontal_precision: u8,
    /// The packed vertical precision.
    pub vertical_precision: u8,
    /// The offset latitude.
    pub latitude: u32,
    /// The offset longitude.
    pub longitude: u32,
    /// The offset altitude.
    pub altitude: u32,
}

impl View for LOC {
    type V = LOCModel;

    open spec fn view(&self) -> LOCModel {
        LOCModel {
            version: self.version,
            size: self.size,
            horizontal_precision: self.horizontal_precision,
            vertical_precision: self.vertical_precision,
            latitude: self.latitude,
            longitude: self.longitude,
            altitude: self.altitude,
        }
    }
}

/// What decoding a LOC record body yields: a function of the stated
/// length, the message bytes, and the position where the body starts.
pub open spec fn spec_read_loc(stated_length: u16, bytes: Seq<u8>, pos: int) -> Result<
    LOCModel,
    WireError,
> {
    if pos + 16 > bytes.len() {
        Err(WireError::IO)
    } else if stated_length != 16 {
        Err(
            WireError::WrongRecordLength {
                stated_length,
                mandated_length: MandatedLength::Exactly(16),
            },
        )
    } else {
        Ok(
            LOCModel {
                version: bytes[pos],
                size: bytes[pos + 1],
                horizontal_precision: bytes[pos + 2],
                vertical_precision: bytes[pos + 3],
                latitude: be_u32(bytes[pos + 4], bytes[pos + 5], bytes[pos + 6], bytes[pos + 7])
                    as u32,
                longitude: be_u32(
                    bytes[pos + 8],
                    bytes[pos + 9],
                    bytes[pos + 10],
                    bytes[pos + 11],
                ) as u32,
                altitude: be_u32(
                    bytes[pos + 12],
                    bytes[pos + 13],
                    bytes[pos + 14],
                    bytes[pos + 15],
                ) as u32,
            },
        )
    }
}

/// When the buffer holds fewer bytes than the record's fixed size, the
/// decode is the buffer-exhaustion error: never a panic, never a
/// partial record.
pub proof fn lemma_loc_needs_fixed_bytes(stated_length: u16, bytes: Seq<u8>, pos: int)
    requires
        pos + 16 > bytes.len(),
    ensures
        spec_read_loc(stated_length, bytes, pos) == Err::<LOCModel, WireError>(WireError::IO),
{
}

/// A stated length other than the record's fixed size — longer or
/// shorter — is rejected as a length error, never by wrapping any
/// subtraction.
pub proof fn lemma_loc_wrong_stated_length(stated_length: u16, bytes: Seq<u8>, pos: int)
    requires
        pos + 16 <= bytes.len(),
        stated_length != 16,
    ensures
        spec_read_loc(stated_length, bytes, pos) == Err::<LOCModel, WireError>(
            WireError::WrongRecordLength {
                stated_length,
                mandated_length: MandatedLength::Exactly(16),
            },
        ),
{
}

impl LOC {
    /// The record type number of LOC.
    pub const RR_TYPE: u16 = 29;

    /// Decodes a LOC record body of exactly `stated_length` bytes.
    pub fn read(stated_length: u16, c: &mut Cursor<'_>) -> (r: Result<LOC, WireError>)
        requires
            old(c).wf(),
        ensures
            final(c).wf(),
            final(c).bytes() == old(c).bytes(),
            res_model(r) == spec_read_loc(stated_length, old(c).bytes(), old(c).position()),
            r is Ok ==> final(c).position() == old(c).position() + stated_length,
            r is Err ==> old(c).position() <= final(c).position(),
    {
        let version = c.read_u8()?;
        let size = c.read_u8()?;
        let horizontal_precision = c.read_u8()?;
        let vertical_precision = c.read_u8()?;
        let latitude = c.read_u32()?;
        let longitude = c.read_u32()?;
        let altitude = c.read_u32()?;
        if stated_length != 16 {
            let mandated_length = MandatedLength::Exactly(16);
            return Err(WireError::WrongRecordLength { stated_length, mandated_length });
        }
        Ok(
            LOC {
                version,
                size,
                horizontal_precision,
                vertical_precision,
                latitude,
                longitude,
                altitude,
            },
        )
    }
}

} // verus!
