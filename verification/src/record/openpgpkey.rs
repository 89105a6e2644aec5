//! The OPENPGPKEY record type.

use vstd::prelude::*;
use crate::wire::Cursor;
use crate::wire::WireError;
use crate::wire::res_model;

verus! {

/// An **OPENPGPKEY** record, which holds an OpenPGP public key.
#[derive(PartialEq, Eq, Debug, Clone)]
pub struct OPENPGPKEY {
    /// The public key, as raw bytes.
    pub key: Vec<u8>,
}

/// The mathematical model of an OPENPGPKEY record.
pub struct OPENPGPKEYModel {
    /// The public key bytes.
    pub key: Seq<u8>,
}

impl View for OPENPGPKEY {
    type V = OPENPGPKEYModel;

    open spec fn view(&self) -> OPENPGPKEYModel {
        OPENPGPKEYModel { key: self.key@ }
    }
}

/// What decoding an OPENPGPKEY record body yields: a function of the
/// stated length, the message bytes, and the position where the body
/// starts.
pub open spec fn spec_read_openpgpkey(stated_length: u16, bytes: Seq<u8>, pos: int) -> Result<
    OPENPGPKEYModel,
    WireError,
> {
    if pos + stated_length > bytes.len() {
        Err(WireError::IO)
    } else {
        Ok(OPENPGPKEYModel { key: bytes.subrange(pos, pos + stated_length) })
    }
}

/// When the stated length exceeds the bytes actually available, the
/// decode is the buffer-exhaustion error: never a panic, never a
/// partial record.
pub proof fn lemma_openpgpkey_needs_stated_length(stated_length: u16, bytes: Seq<u8>, pos: int)
    requires
        0 <= pos <= bytes.len(),
        pos + stated_length > bytes.len(),
    ensures
        spec_read_openpgpkey(stated_length, bytes, pos) == Err::<OPENPGPKEYModel, WireError>(
            WireError::IO,
        ),
{
}

impl OPENPGPKEY {
    /// The record type number of OPENPGPKEY.
    pub const RR_TYPE: u16 = 61;

    /// Decodes an OPENPGPKEY record body of exactly `stated_length`
    /// bytes.
    pub fn read(stated_length: u16, c: &mut Cursor<'_>) -> (r: Result<OPENPGPKEY, WireError>)
        requires
            old(c).wf(),
        ensures
            final(c).wf(),
            final(c).bytes() == old(c).bytes(),
            res_model(r) == spec_read_openpgpkey(stated_length, old(c).bytes(), old(c).position()),
            r is Ok ==> final(c).position() == old(c).position() + stated_length,
            r is Err ==> old(c).position() <= final(c).position(),
    {
        let key = c.read_bytes(stated_length as usize)?;
        Ok(OPENPGPKEY { key })
    }
}

} // verus!
