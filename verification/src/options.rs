//! The inputs that a run of queries is generated from, and the helpers
//! that classify and transform command-line words. The walking of the
//! command line itself stays outside this library; it hands plain
//! strings in and takes the collected inputs back.

use vstd::prelude::*;
use vstd::string::StringSliceAdditionalSpecFns;
use vstd::string::StringExecFns;
use crate::record::RecordType;
use crate::text::ascii_chars;
use crate::text::ascii_to_string;
use crate::text::dec_ascii;
use crate::text::hex_digit_code;
use crate::text::push_ascii;
use crate::text::push_dec_ascii;

verus! {

/// The reason that help is being displayed.
#[derive(PartialEq, Eq, Structural, Debug, Copy, Clone)]
pub enum HelpReason {
    /// Help was requested with the help flag.
    Flag,

    /// There were no domains being queried, so display help instead.
    NoDomains,
}

/// Something wrong with the combination of options the user has picked.
#[derive(PartialEq, Eq, Debug, Clone)]
pub enum OptionsError {
    /// The query type is invalid.
    InvalidQueryType(String),
}

/// Which things the user has specified they want queried.
#[derive(PartialEq, Debug)]
pub struct Inputs {
    /// The list of domain names to query.
    pub domains: Vec<String>,

    /// The list of DNS record types to query for.
    pub record_types: Vec<RecordType>,

    /// Whether the user requested an `ANY` query.
    pub any_query: bool,
}

/// The record types that an `ANY` query expands to, in order.
pub open spec fn spec_any_record_types() -> Seq<RecordType> {
    seq![
        RecordType::A,
        RecordType::AAAA,
        RecordType::CAA,
        RecordType::CNAME,
        RecordType::DNSKEY,
        RecordType::DS,
        RecordType::MX,
        RecordType::NS,
        RecordType::PTR,
        RecordType::SOA,
        RecordType::SRV,
        RecordType::SSHFP,
        RecordType::TLSA,
        RecordType::TXT,
        RecordType::RRSIG,
    ]
}

impl Default for Inputs {
    /// Inputs with nothing specified yet.
    fn default() -> (r: Inputs)
        ensures
            r.domains@.len() == 0,
            r.record_types@.len() == 0,
            !r.any_query,
    {
        Inputs { domains: Vec::new(), record_types: Vec::new(), any_query: false }
    }
}

impl Inputs {
    /// Adds a domain to the list of domains to query.
    pub fn add_domain(&mut self, input: &str)
        ensures
            final(self).domains@.len() == old(self).domains@.len() + 1,
            final(self).domains@.last()@ == input@,
            final(self).domains@.subrange(0, old(self).domains@.len() as int) == old(
                self,
            ).domains@,
            final(self).record_types@ == old(self).record_types@,
            final(self).any_query == old(self).any_query,
    {
        self.domains.push(String::from_str(input));
        proof {
            assert(self.domains@.subrange(0, old(self).domains@.len() as int) =~= old(
                self,
            ).domains@);
        }
    }

    /// Adds a record type to the list of record types to query.
    pub fn add_type(&mut self, rt: RecordType)
        ensures
            final(self).record_types@ == old(self).record_types@.push(rt),
            final(self).domains@ == old(self).domains@,
            final(self).any_query == old(self).any_query,
    {
        self.record_types.push(rt);
    }

    /// Adds the common record types that an `ANY` query stands for, and
    /// notes that such a query was asked for.
    pub fn add_any_record_types(&mut self)
        ensures
            final(self).record_types@ == old(self).record_types@ + spec_any_record_types(),
            final(self).domains@ == old(self).domains@,
            final(self).any_query,
    {
        self.any_query = true;
        self.record_types.push(RecordType::A);
        self.record_types.push(RecordType::AAAA);
        self.record_types.push(RecordType::CAA);
        self.record_types.push(RecordType::CNAME);
        self.record_types.push(RecordType::DNSKEY);
        self.record_types.push(RecordType::DS);
        self.record_types.push(RecordType::MX);
        self.record_types.push(RecordType::NS);
        self.record_types.push(RecordType::PTR);
        self.record_types.push(RecordType::SOA);
        self.record_types.push(RecordType::SRV);
        self.record_types.push(RecordType::SSHFP);
        self.record_types.push(RecordType::TLSA);
        self.record_types.push(RecordType::TXT);
        self.record_types.push(RecordType::RRSIG);
        proof {
            assert(self.record_types@ =~= old(self).record_types@ + spec_any_record_types());
        }
    }

    /// Falls back to an `A` query when no record type was named.
    pub fn load_fallbacks(&mut self)
        ensures
            old(self).record_types@.len() == 0 ==> final(self).record_types@ == seq![
                RecordType::A,
            ],
            old(self).record_types@.len() > 0 ==> final(self).record_types@ == old(
                self,
            ).record_types@,
            final(self).domains@ == old(self).domains@,
            final(self).any_query == old(self).any_query,
    {
        if self.record_types.is_empty() {
            self.record_types.push(RecordType::A);
            proof {
                assert(self.record_types@ =~= seq![RecordType::A]);
            }
        }
    }
}

/// Whether the bytes look like a record-type constant: non-empty, an
/// ASCII letter first, and ASCII letters and digits throughout.
pub open spec fn spec_is_constant_name(b: Seq<u8>) -> bool {
    &&& b.len() > 0
    &&& (65 <= b[0] <= 90 || 97 <= b[0] <= 122)
    &&& forall|i: int|
        0 <= i < b.len() ==> (65 <= #[trigger] b[i] <= 90 || 97 <= b[i] <= 122 || 48 <= b[i]
            <= 57)
}

/// Returns `true` if the argument is a constant-like name: one that
/// starts with an ASCII letter and holds only ASCII letters and digits,
/// such as a record type.
pub fn is_constant_name(argument: &str) -> (r: bool)
    ensures
        r == spec_is_constant_name(argument.spec_bytes()),
{
    let bytes: &[u8] = argument.as_bytes();
    if bytes.len() == 0 {
        return false;
    }
    let first = bytes[0];
    if !((65 <= first && first <= 90) || (97 <= first && first <= 122)) {
        return false;
    }
    let mut i: usize = 0;
    while i < bytes.len()
        invariant
            i <= bytes@.len(),
            bytes@ == argument.spec_bytes(),
            forall|j: int|
                0 <= j < i ==> (65 <= #[trigger] bytes@[j] <= 90 || 97 <= bytes@[j] <= 122 || 48
                    <= bytes@[j] <= 57),
        decreases bytes@.len() - i,
    {
        let b = bytes[i];
        if !((65 <= b && b <= 90) || (97 <= b && b <= 122) || (48 <= b && b <= 57)) {
            proof {
                let ghost sb = argument.spec_bytes();
                assert(sb == bytes@);
                assert(!(65 <= sb[i as int] <= 90 || 97 <= sb[i as int] <= 122 || 48 <= sb[i as int]
                    <= 57));
                assert(!spec_is_constant_name(sb));
            }
            return false;
        }
        i = i + 1;
    }
    true
}

/// The ASCII bytes of the reverse-lookup domain of an IPv4 address: the
/// four octets in reverse order, in decimal, under `in-addr.arpa`.
pub open spec fn spec_reverse_v4(a: u8, b: u8, c: u8, d: u8) -> Seq<u8> {
    dec_ascii(d as int) + seq![46u8] + dec_ascii(c as int) + seq![46u8] + dec_ascii(b as int)
        + seq![46u8] + dec_ascii(a as int) + ".in-addr.arpa".spec_bytes()
}

/// Returns the domain that a reverse lookup of the IPv4 address
/// `a.b.c.d` queries.
pub fn reverse_lookup_domain_v4(a: u8, b: u8, c: u8, d: u8) -> (r: String)
    ensures
        r@ == ascii_chars(spec_reverse_v4(a, b, c, d)),
{
    let mut out: Vec<u8> = Vec::new();
    push_dec_ascii(d as u32, &mut out);
    push_ascii(&mut out, 46);
    push_dec_ascii(c as u32, &mut out);
    push_ascii(&mut out, 46);
    push_dec_ascii(b as u32, &mut out);
    push_ascii(&mut out, 46);
    push_dec_ascii(a as u32, &mut out);
    proof {
        reveal_strlit(".in-addr.arpa");
    }
    push_ascii_str(&mut out, ".in-addr.arpa");
    proof {
        assert(out@ =~= spec_reverse_v4(a, b, c, d));
    }
    ascii_to_string(out)
}

/// The ASCII bytes of the nibble labels of an IPv6 address read from
/// the first octet on: each octet contributes its low nibble, a dot,
/// its high nibble, and a dot, and later octets come first.
pub open spec fn spec_v6_labels(o: Seq<u8>) -> Seq<u8>
    decreases o.len(),
{
    if o.len() == 0 {
        Seq::<u8>::empty()
    } else {
        spec_v6_labels(o.skip(1)) + seq![
            hex_digit_code(o[0] as int % 16),
            46u8,
            hex_digit_code(o[0] as int / 16),
            46u8,
        ]
    }
}

/// The ASCII bytes of the reverse-lookup domain of an IPv6 address: the
/// 32 nibbles in reverse order, in hexadecimal, under `ip6.arpa`.
pub open spec fn spec_reverse_v6(o: Seq<u8>) -> Seq<u8> {
    spec_v6_labels(o) + "ip6.arpa".spec_bytes()
}

/// Returns the domain that a reverse lookup of the IPv6 address with
/// the given sixteen octets queries.
pub fn reverse_lookup_domain_v6(octets: &[u8]) -> (r: String)
    requires
        octets@.len() == 16,
    ensures
        r@ == ascii_chars(spec_reverse_v6(octets@)),
{
    let mut out: Vec<u8> = Vec::new();
    let mut i: usize = 16;
    proof {
        assert(octets@.skip(16) =~= Seq::<u8>::empty());
    }
    while i > 0
        invariant
            i <= 16,
            octets@.len() == 16,
            out@ == spec_v6_labels(octets@.skip(i as int)),
            forall|j: int| 0 <= j < out@.len() ==> out@[j] < 128,
        decreases i,
    {
        let oct = octets[i - 1];
        push_ascii(&mut out, hex_digit(oct % 16));
        push_ascii(&mut out, 46);
        push_ascii(&mut out, hex_digit(oct / 16));
        push_ascii(&mut out, 46);
        proof {
            assert(octets@.skip(i - 1)[0] == octets@[i - 1]);
            assert(octets@.skip(i - 1).skip(1) =~= octets@.skip(i as int));
            assert(out@ =~= spec_v6_labels(octets@.skip(i - 1)));
        }
        i = i - 1;
    }
    proof {
        assert(octets@.skip(0) =~= octets@);
    }
    proof {
        reveal_strlit("ip6.arpa");
    }
    push_ascii_str(&mut out, "ip6.arpa");
    proof {
        assert(out@ =~= spec_reverse_v6(octets@));
    }
    ascii_to_string(out)
}

/// One hexadecimal digit, lower case.
fn hex_digit(d: u8) -> (r: u8)
    requires
        d < 16,
    ensures
        r == hex_digit_code(d as int),
        r < 128,
{
    if d < 10 {
        48 + d
    } else {
        87 + d
    }
}

/// Appends the bytes of an ASCII string literal, keeping the
/// all-ASCII bookkeeping.
fn push_ascii_str(out: &mut Vec<u8>, s: &str)
    requires
        forall|i: int| 0 <= i < old(out)@.len() ==> old(out)@[i] < 128,
        s.is_ascii(),
    ensures
        final(out)@ == old(out)@ + s.spec_bytes(),
        forall|i: int| 0 <= i < final(out)@.len() ==> final(out)@[i] < 128,
{
    let b: &[u8] = s.as_bytes();
    proof {
        vstd::string::is_ascii_spec_bytes(s);
    }
    let mut i: usize = 0;
    while i < b.len()
        invariant
            i <= b@.len(),
            b@ == s.spec_bytes(),
            forall|j: int| 0 <= j < b@.len() ==> b@[j] < 128,
            out@ == old(out)@ + b@.subrange(0, i as int),
            forall|j: int| 0 <= j < out@.len() ==> out@[j] < 128,
        decreases b@.len() - i,
    {
        out.push(b[i]);
        proof {
            assert(out@ =~= old(out)@ + b@.subrange(0, i + 1));
        }
        i = i + 1;
    }
    proof {
        assert(b@.subrange(0, b@.len() as int) =~= b@);
    }
}

} // verus!
