//! The HTTP side of DNS-over-HTTPS: building the request that carries a
//! DNS message as its body, and parsing the response's status line and
//! headers. Any status other than 200 is a transport error carrying the
//! status and its reason phrase; the body is never touched in that case.

use vstd::prelude::*;
use vstd::string::StringSliceAdditionalSpecFns;
use crate::transport::Error;

verus! {

/// Whether the four bytes at `i` are the blank line that ends the HTTP
/// headers.
pub open spec fn hdr_end_at(b: Seq<u8>, i: int) -> bool {
    0 <= i && i + 4 <= b.len() && b[i] == 13 && b[i + 1] == 10 && b[i + 2] == 13 && b[i + 3] == 10
}

/// The index of the first header terminator in `b`, or `b.len()` if
/// there is none.
pub open spec fn first_hdr_end(b: Seq<u8>) -> int
    decreases b.len(),
{
    if b.len() < 4 {
        b.len() as int
    } else if b[0] == 13 && b[1] == 10 && b[2] == 13 && b[3] == 10 {
        0
    } else {
        1 + first_hdr_end(b.skip(1))
    }
}

/// Whether the two bytes at `i` end a line.
pub open spec fn crlf_at(b: Seq<u8>, i: int) -> bool {
    0 <= i && i + 2 <= b.len() && b[i] == 13 && b[i + 1] == 10
}

/// The index of the first line end in `b`, or `b.len()` if there is
/// none.
pub open spec fn first_crlf(b: Seq<u8>) -> int
    decreases b.len(),
{
    if b.len() < 2 {
        b.len() as int
    } else if b[0] == 13 && b[1] == 10 {
        0
    } else {
        1 + first_crlf(b.skip(1))
    }
}

/// The index of the first space in `b`, or `b.len()` if there is none.
pub open spec fn first_space(b: Seq<u8>) -> int
    decreases b.len(),
{
    if b.len() == 0 {
        0
    } else if b[0] == 32 {
        0
    } else {
        1 + first_space(b.skip(1))
    }
}

/// A scan that found the header terminator at `i`, with none before it,
/// agrees with `first_hdr_end`.
proof fn lemma_first_hdr_end_agrees(b: Seq<u8>, i: int)
    requires
        forall|j: int| 0 <= j < i ==> !hdr_end_at(b, j),
        hdr_end_at(b, i),
    ensures
        first_hdr_end(b) == i,
    decreases b.len(),
{
    if i == 0 {
    } else {
        assert forall|j: int| 0 <= j < i - 1 implies !hdr_end_at(b.skip(1), j) by {
            if hdr_end_at(b.skip(1), j) {
                assert(b.skip(1)[j] == b[j + 1]);
                assert(b.skip(1)[j + 1] == b[j + 2]);
                assert(b.skip(1)[j + 2] == b[j + 3]);
                assert(b.skip(1)[j + 3] == b[j + 4]);
                assert(hdr_end_at(b, j + 1));
            }
        }
        assert(b.skip(1)[i - 1] == b[i]);
        assert(b.skip(1)[i] == b[i + 1]);
        assert(b.skip(1)[i + 1] == b[i + 2]);
        assert(b.skip(1)[i + 2] == b[i + 3]);
        assert(hdr_end_at(b.skip(1), i - 1));
        assert(!hdr_end_at(b, 0));
        lemma_first_hdr_end_agrees(b.skip(1), i - 1);
    }
}

/// When `b` holds no header terminator at all, `first_hdr_end` is
/// `b.len()`.
proof fn lemma_first_hdr_end_none(b: Seq<u8>)
    requires
        forall|j: int| !hdr_end_at(b, j),
    ensures
        first_hdr_end(b) == b.len(),
    decreases b.len(),
{
    if b.len() >= 4 {
        assert(!hdr_end_at(b, 0));
        assert forall|j: int| !hdr_end_at(b.skip(1), j) by {
            if hdr_end_at(b.skip(1), j) {
                assert(b.skip(1)[j] == b[j + 1]);
                assert(b.skip(1)[j + 1] == b[j + 2]);
                assert(b.skip(1)[j + 2] == b[j + 3]);
                assert(b.skip(1)[j + 3] == b[j + 4]);
                assert(hdr_end_at(b, j + 1));
            }
        }
        lemma_first_hdr_end_none(b.skip(1));
    }
}

/// A scan that found the line end at `i`, with none before it, agrees
/// with `first_crlf`.
proof fn lemma_first_crlf_agrees(b: Seq<u8>, i: int)
    requires
        forall|j: int| 0 <= j < i ==> !crlf_at(b, j),
        crlf_at(b, i),
    ensures
        first_crlf(b) == i,
    decreases b.len(),
{
    if i == 0 {
    } else {
        assert forall|j: int| 0 <= j < i - 1 implies !crlf_at(b.skip(1), j) by {
            if crlf_at(b.skip(1), j) {
                assert(b.skip(1)[j] == b[j + 1]);
                assert(b.skip(1)[j + 1] == b[j + 2]);
                assert(crlf_at(b, j + 1));
            }
        }
        assert(b.skip(1)[i - 1] == b[i]);
        assert(b.skip(1)[i] == b[i + 1]);
        assert(crlf_at(b.skip(1), i - 1));
        assert(!crlf_at(b, 0));
        lemma_first_crlf_agrees(b.skip(1), i - 1);
    }
}

/// A scan that found a space at `i`, with none before it, agrees with
/// `first_space`.
proof fn lemma_first_space_agrees(b: Seq<u8>, i: int)
    requires
        0 <= i <= b.len(),
        forall|j: int| 0 <= j < i ==> b[j] != 32,
        i < b.len() ==> b[i] == 32,
    ensures
        first_space(b) == i,
    decreases b.len(),
{
    if b.len() == 0 {
    } else if i == 0 {
        if b[0] != 32 {
            lemma_first_space_none_helper(b);
        }
    } else {
        assert forall|j: int| 0 <= j < i - 1 implies b.skip(1)[j] != 32 by {
            assert(b.skip(1)[j] == b[j + 1]);
        }
        assert(i - 1 < b.skip(1).len() ==> b.skip(1)[i - 1] == 32);
        lemma_first_space_agrees(b.skip(1), i - 1);
    }
}

/// `first_space` never runs past the end.
proof fn lemma_first_space_none_helper(b: Seq<u8>)
    ensures
        0 <= first_space(b) <= b.len(),
    decreases b.len(),
{
    if b.len() > 0 && b[0] != 32 {
        lemma_first_space_none_helper(b.skip(1));
    }
}

/// What parsing an HTTP response yields.
pub enum HttpOutcome {
    /// The response was not understood: no header terminator, no
    /// status, or a status that is not three digits.
    Malformed,

    /// The status was something other than 200, with the reason phrase
    /// if one was present.
    WrongStatus {
        /// The numeric status code.
        status: u16,
        /// The reason phrase bytes, if any.
        reason: Option<Seq<u8>>,
    },

    /// The status was 200; these are the body bytes after the headers.
    Body(Seq<u8>),
}

/// What parsing the raw bytes of an HTTP response yields: the body when
/// the status is 200, the status and reason when it is not, and
/// `Malformed` when the bytes do not parse as an HTTP response at all.
pub open spec fn spec_parse_http(b: Seq<u8>) -> HttpOutcome {
    let h = first_hdr_end(b);
    if h + 4 > b.len() {
        HttpOutcome::Malformed
    } else {
        let l = first_crlf(b);
        let s = first_space(b);
        if s + 4 > l {
            HttpOutcome::Malformed
        } else if !(48 <= b[s + 1] <= 57 && 48 <= b[s + 2] <= 57 && 48 <= b[s + 3] <= 57) {
            HttpOutcome::Malformed
        } else {
            let status = (b[s + 1] - 48) * 100 + (b[s + 2] - 48) * 10 + (b[s + 3] - 48);
            let reason: Option<Seq<u8>> = if s + 4 < l && b[s + 4] == 32 {
                Some(b.subrange(s + 5, l))
            } else {
                None
            };
            if status != 200 {
                HttpOutcome::WrongStatus { status: status as u16, reason }
            } else {
                HttpOutcome::Body(b.skip(h + 4))
            }
        }
    }
}

/// Parses the raw bytes of an HTTP response. A status of 200 yields the
/// body; any other status yields `WrongHttpStatus` carrying the status
/// and the reason phrase, without looking at the body; bytes that do
/// not parse as an HTTP response yield `HttpError`.
pub fn parse_http_response(raw: &[u8]) -> (r: Result<Vec<u8>, Error>)
    ensures
        match spec_parse_http(raw@) {
            HttpOutcome::Malformed => r == Err::<Vec<u8>, Error>(Error::HttpError),
            HttpOutcome::WrongStatus { status, reason } => {
                &&& r matches Err(Error::WrongHttpStatus(st, rs))
                &&& st == status
                &&& match (rs, reason) {
                    (Some(v), Some(sq)) => v@ == sq,
                    (None, None) => true,
                    _ => false,
                }
            },
            HttpOutcome::Body(body) => r matches Ok(v) && v@ == body,
        },
{
    if raw.len() < 4 {
        proof {
            lemma_first_hdr_end_none(raw@);
        }
        return Err(Error::HttpError);
    }
    // find the blank line that ends the headers
    let mut h: usize = 0;
    let mut found_h: bool = false;
    while !found_h && h <= raw.len() - 4
        invariant
            raw@.len() >= 4,
            h <= raw@.len(),
            forall|j: int| 0 <= j < h ==> !hdr_end_at(raw@, j),
            found_h ==> hdr_end_at(raw@, h as int),
        decreases
            raw@.len() - h,
            (if found_h {
                0int
            } else {
                1int
            }),
    {
        if raw[h] == 13 && raw[h + 1] == 10 && raw[h + 2] == 13 && raw[h + 3] == 10 {
            found_h = true;
        } else {
            h = h + 1;
        }
    }
    if !found_h {
        proof {
            assert forall|j: int| !hdr_end_at(raw@, j) by {
                if hdr_end_at(raw@, j) {
                    assert(0 <= j < h);
                }
            }
            lemma_first_hdr_end_none(raw@);
        }
        return Err(Error::HttpError);
    }
    proof {
        lemma_first_hdr_end_agrees(raw@, h as int);
    }

    // find the end of the status line; the header terminator guarantees
    // one exists
    let mut l: usize = 0;
    while !(raw[l] == 13 && raw[l + 1] == 10)
        invariant
            0 <= l <= h,
            hdr_end_at(raw@, h as int),
            h + 4 <= raw@.len(),
            forall|j: int| 0 <= j < l ==> !crlf_at(raw@, j),
        decreases h - l,
    {
        proof {
            if l == h {
                assert(crlf_at(raw@, h as int));
            }
        }
        l = l + 1;
    }
    proof {
        lemma_first_crlf_agrees(raw@, l as int);
    }

    // find the space before the status code
    let mut s: usize = 0;
    while s < raw.len() && raw[s] != 32
        invariant
            0 <= s <= raw@.len(),
            forall|j: int| 0 <= j < s ==> raw@[j] != 32,
        decreases raw@.len() - s,
    {
        s = s + 1;
    }
    proof {
        lemma_first_space_agrees(raw@, s as int);
    }

    if l < 4 || s > l - 4 {
        return Err(Error::HttpError);
    }
    let d0 = raw[s + 1];
    let d1 = raw[s + 2];
    let d2 = raw[s + 3];
    if !(48 <= d0 && d0 <= 57 && 48 <= d1 && d1 <= 57 && 48 <= d2 && d2 <= 57) {
        return Err(Error::HttpError);
    }
    let status: u16 = ((d0 - 48) as u16) * 100 + ((d1 - 48) as u16) * 10 + ((d2 - 48) as u16);

    if status != 200 {
        let reason: Option<Vec<u8>> = if s + 4 < l && raw[s + 4] == 32 {
            Some(
                vstd::slice::slice_to_vec(vstd::slice::slice_subrange(raw, s + 5, l)),
            )
        } else {
            None
        };
        return Err(Error::WrongHttpStatus(status, reason));
    }

    Ok(vstd::slice::slice_to_vec(vstd::slice::slice_subrange(raw, h + 4, raw.len())))
}

/// The bytes of the request that carries a DNS message to a
/// DNS-over-HTTPS server: a POST of the message to the given path on
/// the given host, with the DNS message content type and the body's
/// exact length.
pub open spec fn spec_http_request(host: Seq<u8>, path: Seq<u8>, body: Seq<u8>) -> Seq<u8> {
    "POST ".spec_bytes() + path + " HTTP/1.1\r\nHost: ".spec_bytes() + host
        + "\r\nContent-Type: application/dns-message\r\nAccept: application/dns-message\r\nContent-Length: ".spec_bytes()
        + crate::text::dec_ascii(body.len() as int) + "\r\nConnection: close\r\n\r\n".spec_bytes()
        + body
}

/// Appends a string's bytes.
fn push_str_bytes(out: &mut Vec<u8>, s: &str)
    ensures
        final(out)@ == old(out)@ + s.spec_bytes(),
{
    let b: &[u8] = s.as_bytes();
    let mut i: usize = 0;
    while i < b.len()
        invariant
            i <= b@.len(),
            b@ == s.spec_bytes(),
            out@ == old(out)@ + b@.subrange(0, i as int),
        decreases b@.len() - i,
    {
        out.push(b[i]);
        proof {
            assert(out@ =~= old(out)@ + b@.subrange(0, i + 1));
        }
        i = i + 1;
    }
    proof {
        assert(b@.subrange(0, b@.len() as int) =~= b@);
    }
}

/// Appends a byte slice.
fn push_bytes(out: &mut Vec<u8>, b: &[u8])
    ensures
        final(out)@ == old(out)@ + b@,
{
    let mut i: usize = 0;
    while i < b.len()
        invariant
            i <= b@.len(),
            out@ == old(out)@ + b@.subrange(0, i as int),
        decreases b@.len() - i,
    {
        out.push(b[i]);
        proof {
            assert(out@ =~= old(out)@ + b@.subrange(0, i + 1));
        }
        i = i + 1;
    }
    proof {
        assert(b@.subrange(0, b@.len() as int) =~= b@);
    }
}

/// Builds the HTTP request that sends a DNS message to a DNS-over-HTTPS
/// server.
pub fn build_http_request(host: &str, path: &str, body: &Vec<u8>) -> (r: Vec<u8>)
    requires
        body@.len() <= 65535,
    ensures
        r@ == spec_http_request(host.spec_bytes(), path.spec_bytes(), body@),
{
    let mut out: Vec<u8> = Vec::new();
    push_str_bytes(&mut out, "POST ");
    push_str_bytes(&mut out, path);
    push_str_bytes(&mut out, " HTTP/1.1\r\nHost: ");
    push_str_bytes(&mut out, host);
    push_str_bytes(
        &mut out,
        "\r\nContent-Type: application/dns-message\r\nAccept: application/dns-message\r\nContent-Length: ",
    );
    crate::text::push_dec_u32(body.len() as u32, &mut out);
    push_str_bytes(&mut out, "\r\nConnection: close\r\n\r\n");
    push_bytes(&mut out, body.as_slice());
    proof {
        assert(out@ =~= spec_http_request(host.spec_bytes(), path.spec_bytes(), body@));
    }
    out
}

} // verus!
