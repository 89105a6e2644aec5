//! The TXT record type.

use vstd::prelude::*;
use crate::wire::Cursor;
use crate::wire::WireError;
use crate::wire::clamp_u16;
use crate::wire::res_model;

verus! {

/// A **TXT** record, which holds arbitrary descriptive text.
#[derive(PartialEq, Eq, Debug, Clone)]
pub struct TXT {
    /// The character-strings of the record, in order.
    pub messages: Vec<Vec<u8>>,
}

/// The mathematical model of a TXT record.
pub struct TXTModel {
    /// The character-strings, in order.
    pub messages: Seq<Seq<u8>>,
}

impl View for TXT {
    type V = TXTModel;

    open spec fn view(&self) -> TXTModel {
        TXTModel { messages: self.messages.deep_view() }
    }
}

/// The character-strings that fill exactly `remaining` bytes starting at
/// `pos`: each is a length byte followed by that many bytes. A string
/// that would run past the remaining record data is a length mismatch
/// carrying the stated length and the length the strings would need.
pub open spec fn spec_read_strings(
    bytes: Seq<u8>,
    pos: int,
    remaining: int,
    stated_length: u16,
) -> Result<Seq<Seq<u8>>, WireError>
    decreases remaining,
{
    if remaining <= 0 {
        Ok(seq![])
    } else if pos >= bytes.len() {
        Err(WireError::IO)
    } else {
        let n = bytes[pos] as int;
        if 1 + n > remaining {
            Err(
                WireError::WrongLabelLength {
                    stated_length,
                    length_after_labels: clamp_u16(stated_length - remaining + 1 + n),
                },
            )
        } else if pos + 1 + n > bytes.len() {
            Err(WireError::IO)
        } else {
            match spec_read_strings(bytes, pos + 1 + n, remaining - 1 - n, stated_length) {
                Ok(rest) => Ok(seq![bytes.subrange(pos + 1, pos + 1 + n)] + rest),
                Err(e) => Err(e),
            }
        }
    }
}

/// What decoding a TXT record body yields: a function of the stated
/// length, the message bytes, and the position where the body starts.
pub open spec fn spec_read_txt(stated_length: u16, bytes: Seq<u8>, pos: int) -> Result<
    TXTModel,
    WireError,
> {
    match spec_read_strings(bytes, pos, stated_length as int, stated_length) {
        Ok(messages) => Ok(TXTModel { messages }),
        Err(e) => Err(e),
    }
}

/// Reads character-strings until exactly `remaining` bytes have been
/// consumed.
fn read_strings(c: &mut Cursor<'_>, remaining: u16, stated_length: u16) -> (r: Result<
    Vec<Vec<u8>>,
    WireError,
>)
    requires
        old(c).wf(),
        remaining <= stated_length,
    ensures
        final(c).wf(),
        final(c).bytes() == old(c).bytes(),
        match r {
            Ok(v) => spec_read_strings(
                old(c).bytes(),
                old(c).position(),
                remaining as int,
                stated_length,
            ) == Ok::<_, WireError>(v.deep_view())
                && final(c).position() == old(c).position() + remaining,
            Err(e) => spec_read_strings(
                old(c).bytes(),
                old(c).position(),
                remaining as int,
                stated_length,
            ) == Err::<Seq<Seq<u8>>, WireError>(e)
                && old(c).position() <= final(c).position(),
        },
    decreases remaining,
{
    if remaining == 0 {
        let v: Vec<Vec<u8>> = Vec::new();
        assert(v.deep_view() =~= Seq::<Seq<u8>>::empty());
        return Ok(v);
    }
    let n = c.read_u8()?;
    if 1 + (n as u32) > remaining as u32 {
        let over: u32 = (stated_length as u32) - (remaining as u32) + 1 + (n as u32);
        let clamped: u16 = if over > 65535 {
            65535
        } else {
            over as u16
        };
        return Err(
            WireError::WrongLabelLength { stated_length, length_after_labels: clamped },
        );
    }
    let s = c.read_bytes(n as usize)?;
    let ghost s_view = s@;
    match read_strings(c, remaining - 1 - (n as u16), stated_length) {
        Ok(mut rest) => {
            let ghost rest_dv = rest.deep_view();
            rest.insert(0, s);
            assert(rest.deep_view() =~~= seq![s_view] + rest_dv);
            Ok(rest)
        }
        Err(e) => Err(e),
    }
}

impl TXT {
    /// The record type number of TXT.
    pub const RR_TYPE: u16 = 16;

    /// Decodes a TXT record body of exactly `stated_length` bytes.
    pub fn read(stated_length: u16, c: &mut Cursor<'_>) -> (r: Result<TXT, WireError>)
        requires
            old(c).wf(),
        ensures
            final(c).wf(),
            final(c).bytes() == old(c).bytes(),
            res_model(r) == spec_read_txt(stated_length, old(c).bytes(), old(c).position()),
            r is Ok ==> final(c).position() == old(c).position() + stated_length,
            r is Err ==> old(c).position() <= final(c).position(),
    {
        let messages = match read_strings(c, stated_length, stated_length) {
            Ok(v) => v,
            Err(e) => {
                return Err(e);
            }
        };
        Ok(TXT { messages })
    }
}

} // verus!
