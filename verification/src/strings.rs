//! Domain names on the wire: sequences of length-prefixed labels,
//! terminated by a root label, with support for compression pointers that
//! refer back to an earlier offset of the same message.

use vstd::prelude::*;
use vstd::string::StringSliceAdditionalSpecFns;
use vstd::slice::slice_subrange;
use vstd::slice::slice_to_vec;
use crate::wire::Cursor;
use crate::wire::WireError;
use crate::wire::be_u16;

verus! {

/// How many compression pointers one name may follow.
pub const MAX_POINTER_CHAIN: u8 = 64;

/// A domain name: an ordered sequence of labels, each 1 to 63 bytes long.
/// The root name has no labels at all.
#[derive(PartialEq, Eq, Debug, Clone)]
pub struct Labels {
    /// The labels, in order, without the trailing root label.
    pub segments: Vec<Vec<u8>>,
}

impl View for Labels {
    type V = Seq<Seq<u8>>;

    open spec fn view(&self) -> Seq<Seq<u8>> {
        self.segments.deep_view()
    }
}

/// Every label is between 1 and 63 bytes long.
pub open spec fn segs_ok(segs: Seq<Seq<u8>>) -> bool
    decreases segs.len(),
{
    segs.len() == 0 || (1 <= segs[0].len() <= 63 && segs_ok(segs.skip(1)))
}

/// The length of a name on the wire when written without compression:
/// a length byte plus the label bytes for every label, and a root byte.
pub open spec fn encoded_len(segs: Seq<Seq<u8>>) -> int
    decreases segs.len(),
{
    if segs.len() == 0 {
        1
    } else {
        1 + segs[0].len() + encoded_len(segs.skip(1))
    }
}

/// A well-formed name: every label is 1 to 63 bytes, and the whole name
/// fits in 255 bytes on the wire.
pub open spec fn labels_wf(segs: Seq<Seq<u8>>) -> bool {
    segs_ok(segs) && encoded_len(segs) <= 255
}

/// The index of the first dot in `b`, or `b.len()` if there is none.
pub open spec fn first_dot(b: Seq<u8>) -> int
    decreases b.len(),
{
    if b.len() == 0 {
        0
    } else if b[0] == 46 {
        0
    } else {
        1 + first_dot(b.skip(1))
    }
}

/// `b` split at every dot; the dots themselves appear in no part.
pub open spec fn split_dots(b: Seq<u8>) -> Seq<Seq<u8>>
    decreases b.len(),
{
    let i = first_dot(b);
    if !(0 <= i < b.len()) {
        seq![b]
    } else {
        seq![b.take(i)] + split_dots(b.skip(i + 1))
    }
}

/// The first dot's index lies between 0 and the length of `b`, and the
/// bytes before it are not dots; if it lies before the end, it is a dot.
pub proof fn lemma_first_dot_range(b: Seq<u8>)
    ensures
        0 <= first_dot(b) <= b.len(),
        forall|j: int| 0 <= j < first_dot(b) ==> b[j] != 46,
        first_dot(b) < b.len() ==> b[first_dot(b)] == 46,
    decreases b.len(),
{
    if b.len() == 0 {
    } else if b[0] == 46 {
    } else {
        lemma_first_dot_range(b.skip(1));
        assert forall|j: int| 0 <= j < first_dot(b) implies b[j] != 46 by {
            if j > 0 {
                assert(b.skip(1)[j - 1] == b[j]);
            }
        }
        if first_dot(b) < b.len() {
            assert(b.skip(1)[first_dot(b) - 1] == b[first_dot(b)]);
        }
    }
}

/// A scan that stopped at position `i` — no dot before it, and either the
/// end of the bytes or a dot at it — found the first dot.
pub proof fn lemma_first_dot_agrees(b: Seq<u8>, i: int)
    requires
        0 <= i <= b.len(),
        forall|j: int| 0 <= j < i ==> b[j] != 46,
        i < b.len() ==> b[i] == 46,
    ensures
        first_dot(b) == i,
    decreases b.len(),
{
    if b.len() == 0 {
    } else if i == 0 {
        if b[0] != 46 {
            lemma_first_dot_range(b.skip(1));
        }
    } else {
        assert forall|j: int| 0 <= j < i - 1 implies b.skip(1)[j] != 46 by {
            assert(b.skip(1)[j] == b[j + 1]);
        }
        assert(i - 1 < b.skip(1).len() ==> b.skip(1)[i - 1] == 46);
        lemma_first_dot_agrees(b.skip(1), i - 1);
    }
}

impl Labels {
    /// Encodes a dotted name, such as `dns.lookup.dog`, into its labels.
    /// Returns `None` when the name is empty, when any part between dots
    /// is empty or longer than 63 bytes, or when the whole name does not
    /// fit in 255 bytes on the wire.
    pub fn encode(name: &str) -> (r: Option<Labels>)
        ensures
            ({
                let parts = split_dots(name.spec_bytes());
                match r {
                    Some(l) => labels_wf(parts) && l@ == parts,
                    None => !labels_wf(parts),
                }
            }),
    {
        let bytes: &[u8] = name.as_bytes();
        match Self::encode_parts(bytes) {
            None => None,
            Some(segments) => {
                let l = Labels { segments };
                if l.check_encoded_len() {
                    Some(l)
                } else {
                    None
                }
            }
        }
    }

    /// Splits `b` at its dots, checking each part's length.
    fn encode_parts(b: &[u8]) -> (r: Option<Vec<Vec<u8>>>)
        ensures
            match r {
                Some(v) => segs_ok(split_dots(b@)) && v.deep_view() == split_dots(b@),
                None => !segs_ok(split_dots(b@)),
            },
        decreases b@.len(),
    {
        let mut i: usize = 0;
        while i < b.len() && b[i] != 46
            invariant
                i <= b@.len(),
                forall|j: int| 0 <= j < i ==> b@[j] != 46,
            decreases b@.len() - i,
        {
            i = i + 1;
        }
        proof {
            lemma_first_dot_agrees(b@, i as int);
        }
        if i == b.len() {
            // no dot: the whole input is one label
            assert(split_dots(b@) =~= seq![b@]);
            if 1 <= i && i <= 63 {
                let lab = slice_to_vec(b);
                let mut v: Vec<Vec<u8>> = Vec::new();
                v.push(lab);
                assert(v.deep_view() =~~= seq![b@]);
                assert(segs_ok(seq![b@].skip(1)));
                Some(v)
            } else {
                assert(!segs_ok(seq![b@]));
                None
            }
        } else {
            let ghost parts = split_dots(b@);
            let ghost tail_parts = split_dots(b@.skip(i + 1));
            proof {
                assert(parts == seq![b@.take(i as int)] + tail_parts);
                assert(parts.skip(1) =~= tail_parts);
                assert(parts[0] == b@.take(i as int));
            }
            if i < 1 || i > 63 {
                assert(!segs_ok(parts));
                return None;
            }
            let lab = slice_to_vec(slice_subrange(b, 0, i));
            let tail = slice_subrange(b, i + 1, b.len());
            match Self::encode_parts(tail) {
                None => {
                    assert(!segs_ok(parts));
                    None
                }
                Some(mut v) => {
                    v.insert(0, lab);
                    assert(v.deep_view() =~~= parts);
                    Some(v)
                }
            }
        }
    }

    /// Whether the name fits in 255 bytes when written out uncompressed.
    fn check_encoded_len(&self) -> (r: bool)
        requires
            segs_ok(self@),
        ensures
            r == (encoded_len(self@) <= 255),
    {
        let mut i: usize = self.segments.len();
        let mut total: usize = 1;
        proof {
            assert(self@.skip(i as int) =~= Seq::<Seq<u8>>::empty());
        }
        while i > 0
            invariant
                segs_ok(self@),
                i <= self.segments.len(),
                total == encoded_len(self@.skip(i as int)),
                total <= 255 + 64,
            decreases i,
        {
            if total > 255 {
                proof {
                    lemma_encoded_len_skip_le(self@, i as int);
                }
                return false;
            }
            let seg_len = self.segments[i - 1].len();
            proof {
                lemma_segs_ok_index(self@, i - 1);
                assert(self@.skip(i - 1).skip(1) =~= self@.skip(i as int));
                assert(self@.skip(i - 1)[0] == self@[i - 1]);
            }
            total = total + 1 + seg_len;
            i = i - 1;
        }
        proof {
            assert(self@.skip(0) =~= self@);
        }
        total <= 255
    }
}

/// Dropping leading labels never lengthens a name.
proof fn lemma_encoded_len_skip_le(segs: Seq<Seq<u8>>, i: int)
    requires
        0 <= i <= segs.len(),
    ensures
        encoded_len(segs.skip(i)) <= encoded_len(segs),
    decreases i,
{
    if i > 0 {
        assert(segs.skip(1).skip(i - 1) =~= segs.skip(i));
        lemma_encoded_len_skip_le(segs.skip(1), i - 1);
    } else {
        assert(segs.skip(0) =~= segs);
    }
}

/// In a well-formed name, any one label is 1 to 63 bytes long.
pub proof fn lemma_labels_wf_index(segs: Seq<Seq<u8>>, k: int)
    requires
        labels_wf(segs),
        0 <= k < segs.len(),
    ensures
        1 <= segs[k].len() <= 63,
{
    lemma_segs_ok_index(segs, k);
}

/// In a name whose labels all pass `segs_ok`, any one label is 1 to 63
/// bytes long.
proof fn lemma_segs_ok_index(segs: Seq<Seq<u8>>, k: int)
    requires
        segs_ok(segs),
        0 <= k < segs.len(),
    ensures
        1 <= segs[k].len() <= 63,
    decreases k,
{
    if k > 0 {
        lemma_segs_ok_index(segs.skip(1), k - 1);
    }
}

/// Decodes the name that starts at `pos` in `bytes`: the labels read, and
/// the position just past the name at this level. A length byte of zero is
/// the root label and ends the name; a length byte of 1 to 63 prefixes a
/// label; a byte with both high bits set starts a two-byte pointer to a
/// strictly earlier offset, whose target supplies the rest of the name
/// while this level ends just after the pointer. `depth` bounds how many
/// pointers may still be followed, and `total` is the name length
/// accumulated so far.
pub open spec fn spec_name_at(bytes: Seq<u8>, pos: int, depth: int, total: int)
    -> Result<(Seq<Seq<u8>>, int), WireError>
    decreases depth, bytes.len() - pos,
{
    if !(0 <= pos < bytes.len()) {
        Err(WireError::IO)
    } else {
        let b = bytes[pos];
        if b == 0 {
            Ok((seq![], pos + 1))
        } else if b < 64 {
            if total + 1 + b > 254 {
                Err(WireError::NameTooLong)
            } else if pos + 1 + b > bytes.len() {
                Err(WireError::IO)
            } else {
                match spec_name_at(bytes, pos + 1 + b, depth, total + 1 + b) {
                    Ok((segs, end)) => Ok((seq![bytes.subrange(pos + 1, pos + 1 + b)] + segs, end)),
                    Err(e) => Err(e),
                }
            }
        } else if b >= 192 {
            if pos + 2 > bytes.len() {
                Err(WireError::IO)
            } else {
                let target = be_u16((b - 192) as u8, bytes[pos + 1]);
                if depth <= 0 {
                    Err(WireError::TooManyPointers)
                } else if target >= pos {
                    Err(WireError::ForwardPointer)
                } else {
                    match spec_name_at(bytes, target, depth - 1, total) {
                        Ok((segs, _end)) => Ok((segs, pos + 2)),
                        Err(e) => Err(e),
                    }
                }
            }
        } else {
            Err(WireError::MalformedLabel)
        }
    }
}

/// Decoding the name at `pos` in `bytes`: what `read_labels` computes.
pub open spec fn spec_read_name(bytes: Seq<u8>, pos: int) -> Result<(Seq<Seq<u8>>, int), WireError> {
    spec_name_at(bytes, pos, MAX_POINTER_CHAIN as int, 0)
}

/// A compression pointer must lead strictly backwards: a pointer aimed at
/// its own position or past it never decodes, whatever stands in the rest
/// of the buffer.
pub proof fn lemma_pointer_not_forward(bytes: Seq<u8>, pos: int, depth: int, total: int)
    requires
        0 <= pos,
        pos + 2 <= bytes.len(),
        bytes[pos] >= 192,
        be_u16((bytes[pos] - 192) as u8, bytes[pos + 1]) >= pos,
        depth >= 1,
    ensures
        spec_name_at(bytes, pos, depth, total) == Err::<(Seq<Seq<u8>>, int), WireError>(
            WireError::ForwardPointer,
        ),
{
}

/// Every name the decoder accepts is well-formed: labels of 1 to 63
/// bytes each, fitting the 255-byte limit together with whatever length
/// was already accumulated.
pub proof fn lemma_decoded_name_wf(
    bytes: Seq<u8>,
    pos: int,
    depth: int,
    total: int,
    segs: Seq<Seq<u8>>,
    end: int,
)
    requires
        0 <= total <= 254,
        spec_name_at(bytes, pos, depth, total) == Ok::<_, WireError>((segs, end)),
    ensures
        segs_ok(segs),
        encoded_len(segs) + total <= 255,
    decreases depth, bytes.len() - pos,
{
    let b = bytes[pos];
    if b == 0 {
    } else if b < 64 {
        match spec_name_at(bytes, pos + 1 + b, depth, total + 1 + b) {
            Ok(p) => {
                lemma_decoded_name_wf(bytes, pos + 1 + b, depth, total + 1 + b, p.0, p.1);
                assert(segs.skip(1) =~= p.0);
            }
            Err(_) => {}
        }
    } else {
        let target = be_u16((b - 192) as u8, bytes[pos + 1]);
        match spec_name_at(bytes, target, depth - 1, total) {
            Ok(p) => {
                lemma_decoded_name_wf(bytes, target, depth - 1, total, p.0, p.1);
            }
            Err(_) => {}
        }
    }
}

/// Exec mirror of `spec_name_at`.
fn read_name_at(buf: &[u8], pos: usize, depth: u8, total: u16) -> (r: Result<
    (Vec<Vec<u8>>, usize),
    WireError,
>)
    requires
        total <= 254,
    ensures
        match r {
            Ok(p) => spec_name_at(buf@, pos as int, depth as int, total as int)
                == Ok::<_, WireError>((p.0.deep_view(), p.1 as int))
                && pos < p.1 <= buf@.len()
                && p.1 <= pos + 256 - total,
            Err(e) => spec_name_at(buf@, pos as int, depth as int, total as int)
                == Err::<(Seq<Seq<u8>>, int), WireError>(e),
        },
    decreases depth, buf@.len() - pos,
{
    if pos >= buf.len() {
        return Err(WireError::IO);
    }
    let b = buf[pos];
    if b == 0 {
        let v: Vec<Vec<u8>> = Vec::new();
        assert(v.deep_view() =~= Seq::<Seq<u8>>::empty());
        Ok((v, pos + 1))
    } else if b < 64 {
        let lab_len = b as usize;
        if total + 1 + (b as u16) > 254 {
            return Err(WireError::NameTooLong);
        }
        if lab_len > buf.len() - (pos + 1) {
            return Err(WireError::IO);
        }
        let lab = slice_to_vec(slice_subrange(buf, pos + 1, pos + 1 + lab_len));
        match read_name_at(buf, pos + 1 + lab_len, depth, total + 1 + (b as u16)) {
            Ok((mut segs, end)) => {
                let ghost rec_dv = segs.deep_view();
                segs.insert(0, lab);
                assert(segs.deep_view() =~~= seq![buf@.subrange(pos + 1, pos + 1 + b)] + rec_dv);
                Ok((segs, end))
            }
            Err(e) => Err(e),
        }
    } else if b >= 192 {
        if buf.len() - pos < 2 {
            return Err(WireError::IO);
        }
        let b2 = buf[pos + 1];
        let target = ((b - 192) as usize) * 256 + (b2 as usize);
        if depth == 0 {
            return Err(WireError::TooManyPointers);
        }
        if target >= pos {
            return Err(WireError::ForwardPointer);
        }
        match read_name_at(buf, target, depth - 1, total) {
            Ok((segs, _end)) => Ok((segs, pos + 2)),
            Err(e) => Err(e),
        }
    } else {
        Err(WireError::MalformedLabel)
    }
}

impl<'a> Cursor<'a> {
    /// Decodes a domain name starting at the current position, following
    /// compression pointers, and returns it together with the number of
    /// bytes the name occupies at the current position — two for a
    /// pointer, or the label bytes plus the root byte when written out.
    pub fn read_labels(&mut self) -> (r: Result<(Labels, u16), WireError>)
        requires
            old(self).wf(),
        ensures
            final(self).wf(),
            final(self).bytes() == old(self).bytes(),
            match r {
                Ok(p) => spec_read_name(old(self).bytes(), old(self).position())
                    == Ok::<_, WireError>((p.0@, old(self).position() + p.1))
                    && labels_wf(p.0@)
                    && 1 <= p.1 <= 256
                    && final(self).position() == old(self).position() + p.1,
                Err(e) => spec_read_name(old(self).bytes(), old(self).position())
                    == Err::<(Seq<Seq<u8>>, int), WireError>(e)
                    && final(self).position() == old(self).position(),
            },
    {
        match read_name_at(self.buf, self.pos, MAX_POINTER_CHAIN, 0) {
            Ok((segs, end)) => {
                proof {
                    lemma_decoded_name_wf(
                        self.buf@,
                        self.pos as int,
                        MAX_POINTER_CHAIN as int,
                        0,
                        segs.deep_view(),
                        end as int,
                    );
                }
                let consumed = (end - self.pos) as u16;
                self.pos = end;
                Ok((Labels { segments: segs }, consumed))
            }
            Err(e) => Err(e),
        }
    }
}

} // verus!
