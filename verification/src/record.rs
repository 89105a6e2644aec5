//! All the DNS record types, as well as how to parse each type.

use vstd::prelude::*;
use vstd::string::StringSliceAdditionalSpecFns;
use crate::wire::Cursor;
use crate::wire::WireError;
use crate::wire::res_model;

mod a;
pub use self::a::A;
pub use self::a::AModel;
pub use self::a::spec_read_a;

mod aaaa;
pub use self::aaaa::AAAA;
pub use self::aaaa::AAAAModel;
pub use self::aaaa::spec_read_aaaa;

mod caa;
pub use self::caa::CAA;
pub use self::caa::CAAModel;
pub use self::caa::spec_read_caa;

mod cname;
pub use self::cname::CNAME;
pub use self::cname::CNAMEModel;
pub use self::cname::spec_read_cname;

mod dhcid;
pub use self::dhcid::DHCID;
pub use self::dhcid::DHCIDModel;
pub use self::dhcid::spec_read_dhcid;

mod dnskey;
pub use self::dnskey::DNSKEY;
pub use self::dnskey::DNSKEYModel;
pub use self::dnskey::spec_read_dnskey;

mod ds;
pub use self::ds::DS;
pub use self::ds::DSModel;
pub use self::ds::spec_read_ds;

mod eui48;
pub use self::eui48::EUI48;
pub use self::eui48::EUI48Model;
pub use self::eui48::spec_read_eui48;

mod eui64;
pub use self::eui64::EUI64;
pub use self::eui64::EUI64Model;
pub use self::eui64::spec_read_eui64;

mod hinfo;
pub use self::hinfo::HINFO;
pub use self::hinfo::HINFOModel;
pub use self::hinfo::spec_read_hinfo;

mod ipseckey;
pub use self::ipseckey::IPSECKEY;
pub use self::ipseckey::IPSECKEYModel;
pub use self::ipseckey::spec_read_ipseckey;

mod loc;
pub use self::loc::LOC;
pub use self::loc::LOCModel;
pub use self::loc::spec_read_loc;

mod mx;
pub use self::mx::MX;
pub use self::mx::MXModel;
pub use self::mx::spec_read_mx;

mod naptr;
pub use self::naptr::NAPTR;
pub use self::naptr::NAPTRModel;
pub use self::naptr::spec_read_naptr;

mod ns;
pub use self::ns::NS;
pub use self::ns::NSModel;
pub use self::ns::spec_read_ns;

mod nsec;
pub use self::nsec::NSEC;
pub use self::nsec::NSECModel;
pub use self::nsec::spec_read_nsec;

mod nsec3;
pub use self::nsec3::NSEC3;
pub use self::nsec3::NSEC3Model;
pub use self::nsec3::spec_read_nsec3;

mod nsec3param;
pub use self::nsec3param::NSEC3PARAM;
pub use self::nsec3param::NSEC3PARAMModel;
pub use self::nsec3param::spec_read_nsec3param;

mod openpgpkey;
pub use self::openpgpkey::OPENPGPKEY;
pub use self::openpgpkey::OPENPGPKEYModel;
pub use self::openpgpkey::spec_read_openpgpkey;

mod ptr;
pub use self::ptr::PTR;
pub use self::ptr::PTRModel;
pub use self::ptr::spec_read_ptr;

mod rrsig;
pub use self::rrsig::RRSIG;
pub use self::rrsig::RRSIGModel;
pub use self::rrsig::spec_read_rrsig;

mod smimea;
pub use self::smimea::SMIMEA;
pub use self::smimea::SMIMEAModel;
pub use self::smimea::spec_read_smimea;

mod soa;
pub use self::soa::SOA;
pub use self::soa::SOAModel;
pub use self::soa::spec_read_soa;

mod srv;
pub use self::srv::SRV;
pub use self::srv::SRVModel;
pub use self::srv::spec_read_srv;

mod sshfp;
pub use self::sshfp::SSHFP;
pub use self::sshfp::SSHFPModel;
pub use self::sshfp::spec_read_sshfp;

mod tlsa;
pub use self::tlsa::TLSA;
pub use self::tlsa::TLSAModel;
pub use self::tlsa::spec_read_tlsa;

mod txt;
pub use self::txt::TXT;
pub use self::txt::TXTModel;
pub use self::txt::spec_read_txt;

mod uri;
pub use self::uri::URI;
pub use self::uri::URIModel;
pub use self::uri::spec_read_uri;

verus! {

/// The type number of a record type that this library does not model.
#[derive(PartialEq, Eq, Structural, Debug, Copy, Clone)]
pub struct UnknownQtype(pub u16);

impl UnknownQtype {
    /// Returns the type number this stands for.
    pub fn type_number(self) -> (n: u16)
        ensures
            n == self.0,
    {
        self.0
    }
}

/// A record that has been parsed from a byte buffer.
#[derive(PartialEq, Eq, Debug)]
#[allow(missing_docs)]
pub enum Record {
    A(A),
    AAAA(AAAA),
    CAA(CAA),
    CNAME(CNAME),
    EUI48(EUI48),
    EUI64(EUI64),
    HINFO(HINFO),
    LOC(LOC),
    MX(MX),
    NAPTR(NAPTR),
    NS(NS),
    OPENPGPKEY(OPENPGPKEY),
    // OPT is not included here.
    PTR(PTR),
    SSHFP(SSHFP),
    SOA(SOA),
    SRV(SRV),
    TLSA(TLSA),
    TXT(TXT),
    URI(URI),
    SMIMEA(SMIMEA),
    DS(DS),
    RRSIG(RRSIG),
    NSEC(NSEC),
    DNSKEY(DNSKEY),
    DHCID(DHCID),
    NSEC3(NSEC3),
    NSEC3PARAM(NSEC3PARAM),
    IPSECKEY(IPSECKEY),

    /// A record with a type that we don't recognise.
    Other {
        /// The number that's meant to represent the record type.
        type_number: UnknownQtype,
        /// The undecoded bytes that were in this record.
        bytes: Vec<u8>,
    },
}

/// The mathematical model of a parsed record.
#[allow(missing_docs)]
pub enum RecordModel {
    A(AModel),
    AAAA(AAAAModel),
    CAA(CAAModel),
    CNAME(CNAMEModel),
    EUI48(EUI48Model),
    EUI64(EUI64Model),
    HINFO(HINFOModel),
    LOC(LOCModel),
    MX(MXModel),
    NAPTR(NAPTRModel),
    NS(NSModel),
    OPENPGPKEY(OPENPGPKEYModel),
    PTR(PTRModel),
    SSHFP(SSHFPModel),
    SOA(SOAModel),
    SRV(SRVModel),
    TLSA(TLSAModel),
    TXT(TXTModel),
    URI(URIModel),
    SMIMEA(SMIMEAModel),
    DS(DSModel),
    RRSIG(RRSIGModel),
    NSEC(NSECModel),
    DNSKEY(DNSKEYModel),
    DHCID(DHCIDModel),
    NSEC3(NSEC3Model),
    NSEC3PARAM(NSEC3PARAMModel),
    IPSECKEY(IPSECKEYModel),
    Other { type_number: u16, bytes: Seq<u8> },
}

impl View for Record {
    type V = RecordModel;

    open spec fn view(&self) -> RecordModel {
        match self {
            Record::A(r) => RecordModel::A(r@),
            Record::AAAA(r) => RecordModel::AAAA(r@),
            Record::CAA(r) => RecordModel::CAA(r@),
            Record::CNAME(r) => RecordModel::CNAME(r@),
            Record::EUI48(r) => RecordModel::EUI48(r@),
            Record::EUI64(r) => RecordModel::EUI64(r@),
            Record::HINFO(r) => RecordModel::HINFO(r@),
            Record::LOC(r) => RecordModel::LOC(r@),
            Record::MX(r) => RecordModel::MX(r@),
            Record::NAPTR(r) => RecordModel::NAPTR(r@),
            Record::NS(r) => RecordModel::NS(r@),
            Record::OPENPGPKEY(r) => RecordModel::OPENPGPKEY(r@),
            Record::PTR(r) => RecordModel::PTR(r@),
            Record::SSHFP(r) => RecordModel::SSHFP(r@),
            Record::SOA(r) => RecordModel::SOA(r@),
            Record::SRV(r) => RecordModel::SRV(r@),
            Record::TLSA(r) => RecordModel::TLSA(r@),
            Record::TXT(r) => RecordModel::TXT(r@),
            Record::URI(r) => RecordModel::URI(r@),
            Record::SMIMEA(r) => RecordModel::SMIMEA(r@),
            Record::DS(r) => RecordModel::DS(r@),
            Record::RRSIG(r) => RecordModel::RRSIG(r@),
            Record::NSEC(r) => RecordModel::NSEC(r@),
            Record::DNSKEY(r) => RecordModel::DNSKEY(r@),
            Record::DHCID(r) => RecordModel::DHCID(r@),
            Record::NSEC3(r) => RecordModel::NSEC3(r@),
            Record::NSEC3PARAM(r) => RecordModel::NSEC3PARAM(r@),
            Record::IPSECKEY(r) => RecordModel::IPSECKEY(r@),
            Record::Other { type_number, bytes } => RecordModel::Other {
                type_number: type_number.0,
                bytes: bytes@,
            },
        }
    }
}

/// The type of a record that may or may not be one of the known ones.
/// Has no data associated with it other than what type of record it is.
#[derive(PartialEq, Eq, Structural, Debug, Copy, Clone)]
#[allow(missing_docs)]
pub enum RecordType {
    A,
    AAAA,
    CAA,
    CNAME,
    EUI48,
    EUI64,
    HINFO,
    LOC,
    MX,
    NAPTR,
    NS,
    OPENPGPKEY,
    PTR,
    SSHFP,
    SOA,
    SRV,
    TLSA,
    TXT,
    URI,
    SMIMEA,
    DS,
    RRSIG,
    NSEC,
    DNSKEY,
    DHCID,
    NSEC3,
    NSEC3PARAM,
    IPSECKEY,

    /// A record type we don't recognise.
    Other(UnknownQtype),
}

/// The type number that each record type stands for.
pub open spec fn spec_type_number(rt: RecordType) -> u16 {
    match rt {
        RecordType::A => 1,
        RecordType::NS => 2,
        RecordType::CNAME => 5,
        RecordType::SOA => 6,
        RecordType::PTR => 12,
        RecordType::HINFO => 13,
        RecordType::MX => 15,
        RecordType::TXT => 16,
        RecordType::AAAA => 28,
        RecordType::LOC => 29,
        RecordType::SRV => 33,
        RecordType::NAPTR => 35,
        RecordType::DS => 43,
        RecordType::SSHFP => 44,
        RecordType::IPSECKEY => 45,
        RecordType::RRSIG => 46,
        RecordType::NSEC => 47,
        RecordType::DNSKEY => 48,
        RecordType::DHCID => 49,
        RecordType::NSEC3 => 50,
        RecordType::NSEC3PARAM => 51,
        RecordType::TLSA => 52,
        RecordType::SMIMEA => 53,
        RecordType::OPENPGPKEY => 61,
        RecordType::EUI48 => 108,
        RecordType::EUI64 => 109,
        RecordType::URI => 256,
        RecordType::CAA => 257,
        RecordType::Other(o) => o.0,
    }
}

/// The record type that each type number stands for; one this library
/// does not model maps to `Other`.
pub open spec fn spec_from_type_number(n: u16) -> RecordType {
    if n == 1 {
        RecordType::A
    } else if n == 2 {
        RecordType::NS
    } else if n == 5 {
        RecordType::CNAME
    } else if n == 6 {
        RecordType::SOA
    } else if n == 12 {
        RecordType::PTR
    } else if n == 13 {
        RecordType::HINFO
    } else if n == 15 {
        RecordType::MX
    } else if n == 16 {
        RecordType::TXT
    } else if n == 28 {
        RecordType::AAAA
    } else if n == 29 {
        RecordType::LOC
    } else if n == 33 {
        RecordType::SRV
    } else if n == 35 {
        RecordType::NAPTR
    } else if n == 43 {
        RecordType::DS
    } else if n == 44 {
        RecordType::SSHFP
    } else if n == 45 {
        RecordType::IPSECKEY
    } else if n == 46 {
        RecordType::RRSIG
    } else if n == 47 {
        RecordType::NSEC
    } else if n == 48 {
        RecordType::DNSKEY
    } else if n == 49 {
        RecordType::DHCID
    } else if n == 50 {
        RecordType::NSEC3
    } else if n == 51 {
        RecordType::NSEC3PARAM
    } else if n == 52 {
        RecordType::TLSA
    } else if n == 53 {
        RecordType::SMIMEA
    } else if n == 61 {
        RecordType::OPENPGPKEY
    } else if n == 108 {
        RecordType::EUI48
    } else if n == 109 {
        RecordType::EUI64
    } else if n == 256 {
        RecordType::URI
    } else if n == 257 {
        RecordType::CAA
    } else {
        RecordType::Other(UnknownQtype(n))
    }
}

/// The byte, upper-cased if it is an ASCII lower-case letter.
pub open spec fn spec_to_upper(b: u8) -> u8 {
    if 97 <= b <= 122 {
        (b - 32) as u8
    } else {
        b
    }
}

/// The bytes, upper-cased letter by letter.
pub open spec fn spec_upper_bytes(s: Seq<u8>) -> Seq<u8> {
    s.map_values(|b: u8| spec_to_upper(b))
}

/// The record type whose canonical name matches the given bytes,
/// compared without regard to ASCII case.
pub open spec fn spec_from_type_name(s: Seq<u8>) -> Option<RecordType> {
    let u = spec_upper_bytes(s);
    if u == seq![65u8] {
        Some(RecordType::A)
    } else if u == seq![65u8, 65u8, 65u8, 65u8] {
        Some(RecordType::AAAA)
    } else if u == seq![67u8, 65u8, 65u8] {
        Some(RecordType::CAA)
    } else if u == seq![67u8, 78u8, 65u8, 77u8, 69u8] {
        Some(RecordType::CNAME)
    } else if u == seq![69u8, 85u8, 73u8, 52u8, 56u8] {
        Some(RecordType::EUI48)
    } else if u == seq![69u8, 85u8, 73u8, 54u8, 52u8] {
        Some(RecordType::EUI64)
    } else if u == seq![72u8, 73u8, 78u8, 70u8, 79u8] {
        Some(RecordType::HINFO)
    } else if u == seq![76u8, 79u8, 67u8] {
        Some(RecordType::LOC)
    } else if u == seq![77u8, 88u8] {
        Some(RecordType::MX)
    } else if u == seq![78u8, 65u8, 80u8, 84u8, 82u8] {
        Some(RecordType::NAPTR)
    } else if u == seq![78u8, 83u8] {
        Some(RecordType::NS)
    } else if u == seq![79u8, 80u8, 69u8, 78u8, 80u8, 71u8, 80u8, 75u8, 69u8, 89u8] {
        Some(RecordType::OPENPGPKEY)
    } else if u == seq![80u8, 84u8, 82u8] {
        Some(RecordType::PTR)
    } else if u == seq![83u8, 83u8, 72u8, 70u8, 80u8] {
        Some(RecordType::SSHFP)
    } else if u == seq![83u8, 79u8, 65u8] {
        Some(RecordType::SOA)
    } else if u == seq![83u8, 82u8, 86u8] {
        Some(RecordType::SRV)
    } else if u == seq![84u8, 76u8, 83u8, 65u8] {
        Some(RecordType::TLSA)
    } else if u == seq![84u8, 88u8, 84u8] {
        Some(RecordType::TXT)
    } else if u == seq![85u8, 82u8, 73u8] {
        Some(RecordType::URI)
    } else if u == seq![83u8, 77u8, 73u8, 77u8, 69u8, 65u8] {
        Some(RecordType::SMIMEA)
    } else if u == seq![68u8, 83u8] {
        Some(RecordType::DS)
    } else if u == seq![82u8, 82u8, 83u8, 73u8, 71u8] {
        Some(RecordType::RRSIG)
    } else if u == seq![78u8, 83u8, 69u8, 67u8] {
        Some(RecordType::NSEC)
    } else if u == seq![68u8, 78u8, 83u8, 75u8, 69u8, 89u8] {
        Some(RecordType::DNSKEY)
    } else if u == seq![68u8, 72u8, 67u8, 73u8, 68u8] {
        Some(RecordType::DHCID)
    } else if u == seq![78u8, 83u8, 69u8, 67u8, 51u8] {
        Some(RecordType::NSEC3)
    } else if u == seq![78u8, 83u8, 69u8, 67u8, 51u8, 80u8, 65u8, 82u8, 65u8, 77u8] {
        Some(RecordType::NSEC3PARAM)
    } else if u == seq![73u8, 80u8, 83u8, 69u8, 67u8, 75u8, 69u8, 89u8] {
        Some(RecordType::IPSECKEY)
    } else {
        None
    }
}

/// Compares two byte strings for equality.
fn bytes_eq(a: &Vec<u8>, b: &[u8]) -> (r: bool)
    ensures
        r == (a@ == b@),
{
    if a.len() != b.len() {
        return false;
    }
    let mut i: usize = 0;
    while i < a.len()
        invariant
            i <= a@.len(),
            a@.len() == b@.len(),
            forall|j: int| 0 <= j < i ==> a@[j] == b@[j],
        decreases a@.len() - i,
    {
        if a[i] != b[i] {
            return false;
        }
        i = i + 1;
    }
    proof {
        assert(a@ =~= b@);
    }
    true
}

impl RecordType {
    /// Returns a list of all supported record types.
    pub fn all_record_types() -> (r: Vec<RecordType>)
        ensures
            r@ == spec_all_record_types(),
    {
        let mut v: Vec<RecordType> = Vec::new();
        v.push(RecordType::A);
        v.push(RecordType::AAAA);
        v.push(RecordType::CAA);
        v.push(RecordType::CNAME);
        v.push(RecordType::EUI48);
        v.push(RecordType::EUI64);
        v.push(RecordType::HINFO);
        v.push(RecordType::LOC);
        v.push(RecordType::MX);
        v.push(RecordType::NAPTR);
        v.push(RecordType::NS);
        v.push(RecordType::OPENPGPKEY);
        v.push(RecordType::PTR);
        v.push(RecordType::SSHFP);
        v.push(RecordType::SOA);
        v.push(RecordType::SRV);
        v.push(RecordType::TLSA);
        v.push(RecordType::TXT);
        v.push(RecordType::URI);
        v.push(RecordType::SMIMEA);
        v.push(RecordType::DS);
        v.push(RecordType::RRSIG);
        v.push(RecordType::NSEC);
        v.push(RecordType::DNSKEY);
        v.push(RecordType::DHCID);
        v.push(RecordType::NSEC3);
        v.push(RecordType::NSEC3PARAM);
        v.push(RecordType::IPSECKEY);
        proof {
            assert(v@ =~= spec_all_record_types());
        }
        v
    }

    /// Determines the record type with a given name, or `None` if none
    /// is known. Matches names case-insensitively.
    pub fn from_type_name(name: &str) -> (r: Option<Self>)
        ensures
            r == spec_from_type_name(name.spec_bytes()),
    {
        let bytes: &[u8] = name.as_bytes();
        let mut up: Vec<u8> = Vec::new();
        let mut i: usize = 0;
        while i < bytes.len()
            invariant
                i <= bytes@.len(),
                up@.len() == i,
                forall|j: int| 0 <= j < i ==> up@[j] == spec_to_upper(bytes@[j]),
            decreases bytes@.len() - i,
        {
            let b = bytes[i];
            if 97 <= b && b <= 122 {
                up.push(b - 32);
            } else {
                up.push(b);
            }
            i = i + 1;
        }
        proof {
            assert(up@ =~= spec_upper_bytes(bytes@));
        }

        let table = known_names();
        let mut k: usize = 0;
        while k < table.len()
            invariant
                k <= table@.len(),
                table@.len() == spec_known_names().len(),
                forall|j: int| 0 <= j < table@.len() ==> (#[trigger] table@[j]).0@
                    == spec_known_names()[j].0 && table@[j].1 == spec_known_names()[j].1,
                up@ == spec_upper_bytes(name.spec_bytes()),
                forall|j: int| 0 <= j < k ==> up@ != (#[trigger] spec_known_names()[j]).0,
            decreases table@.len() - k,
        {
            if bytes_eq(&up, table[k].0.as_slice()) {
                proof {
                    lemma_known_names_sound(up@, k as int);
                }
                return Some(table[k].1);
            }
            k = k + 1;
        }
        proof {
            lemma_known_names_complete(up@);
        }
        None
    }

    /// Returns the record type number associated with this record type.
    pub fn type_number(self) -> (n: u16)
        ensures
            n == spec_type_number(self),
    {
        match self {
            Self::A => 1,
            Self::NS => 2,
            Self::CNAME => 5,
            Self::SOA => 6,
            Self::PTR => 12,
            Self::HINFO => 13,
            Self::MX => 15,
            Self::TXT => 16,
            Self::AAAA => 28,
            Self::LOC => 29,
            Self::SRV => 33,
            Self::NAPTR => 35,
            Self::DS => 43,
            Self::SSHFP => 44,
            Self::IPSECKEY => 45,
            Self::RRSIG => 46,
            Self::NSEC => 47,
            Self::DNSKEY => 48,
            Self::DHCID => 49,
            Self::NSEC3 => 50,
            Self::NSEC3PARAM => 51,
            Self::TLSA => 52,
            Self::SMIMEA => 53,
            Self::OPENPGPKEY => 61,
            Self::EUI48 => 108,
            Self::EUI64 => 109,
            Self::URI => 256,
            Self::CAA => 257,
            Self::Other(o) => o.type_number(),
        }
    }

    /// Determines the record type that a type number stands for, falling
    /// back to `Other` for numbers this library does not model.
    pub fn from_type_number(n: u16) -> (r: Self)
        ensures
            r == spec_from_type_number(n),
    {
        match n {
            1 => Self::A,
            2 => Self::NS,
            5 => Self::CNAME,
            6 => Self::SOA,
            12 => Self::PTR,
            13 => Self::HINFO,
            15 => Self::MX,
            16 => Self::TXT,
            28 => Self::AAAA,
            29 => Self::LOC,
            33 => Self::SRV,
            35 => Self::NAPTR,
            43 => Self::DS,
            44 => Self::SSHFP,
            45 => Self::IPSECKEY,
            46 => Self::RRSIG,
            47 => Self::NSEC,
            48 => Self::DNSKEY,
            49 => Self::DHCID,
            50 => Self::NSEC3,
            51 => Self::NSEC3PARAM,
            52 => Self::TLSA,
            53 => Self::SMIMEA,
            61 => Self::OPENPGPKEY,
            108 => Self::EUI48,
            109 => Self::EUI64,
            256 => Self::URI,
            257 => Self::CAA,
            _ => Self::Other(UnknownQtype(n)),
        }
    }
}

/// The supported record types, in the order `all_record_types` lists
/// them.
pub open spec fn spec_all_record_types() -> Seq<RecordType> {
    seq![
        RecordType::A,
        RecordType::AAAA,
        RecordType::CAA,
        RecordType::CNAME,
        RecordType::EUI48,
        RecordType::EUI64,
        RecordType::HINFO,
        RecordType::LOC,
        RecordType::MX,
        RecordType::NAPTR,
        RecordType::NS,
        RecordType::OPENPGPKEY,
        RecordType::PTR,
        RecordType::SSHFP,
        RecordType::SOA,
        RecordType::SRV,
        RecordType::TLSA,
        RecordType::TXT,
        RecordType::URI,
        RecordType::SMIMEA,
        RecordType::DS,
        RecordType::RRSIG,
        RecordType::NSEC,
        RecordType::DNSKEY,
        RecordType::DHCID,
        RecordType::NSEC3,
        RecordType::NSEC3PARAM,
        RecordType::IPSECKEY,
    ]
}

/// Turning a known record type's number back into a record type gives
/// the type itself: the registry is a bijection away from `Other`.
pub proof fn lemma_type_number_round_trip(rt: RecordType)
    requires
        !(rt is Other),
    ensures
        spec_from_type_number(spec_type_number(rt)) == rt,
{
}

/// The canonical names and their record types.
spec fn spec_known_names() -> Seq<(Seq<u8>, RecordType)> {
    seq![
        (seq![65u8], RecordType::A),
        (seq![65u8, 65u8, 65u8, 65u8], RecordType::AAAA),
        (seq![67u8, 65u8, 65u8], RecordType::CAA),
        (seq![67u8, 78u8, 65u8, 77u8, 69u8], RecordType::CNAME),
        (seq![69u8, 85u8, 73u8, 52u8, 56u8], RecordType::EUI48),
        (seq![69u8, 85u8, 73u8, 54u8, 52u8], RecordType::EUI64),
        (seq![72u8, 73u8, 78u8, 70u8, 79u8], RecordType::HINFO),
        (seq![76u8, 79u8, 67u8], RecordType::LOC),
        (seq![77u8, 88u8], RecordType::MX),
        (seq![78u8, 65u8, 80u8, 84u8, 82u8], RecordType::NAPTR),
        (seq![78u8, 83u8], RecordType::NS),
        (seq![79u8, 80u8, 69u8, 78u8, 80u8, 71u8, 80u8, 75u8, 69u8, 89u8], RecordType::OPENPGPKEY),
        (seq![80u8, 84u8, 82u8], RecordType::PTR),
        (seq![83u8, 83u8, 72u8, 70u8, 80u8], RecordType::SSHFP),
        (seq![83u8, 79u8, 65u8], RecordType::SOA),
        (seq![83u8, 82u8, 86u8], RecordType::SRV),
        (seq![84u8, 76u8, 83u8, 65u8], RecordType::TLSA),
        (seq![84u8, 88u8, 84u8], RecordType::TXT),
        (seq![85u8, 82u8, 73u8], RecordType::URI),
        (seq![83u8, 77u8, 73u8, 77u8, 69u8, 65u8], RecordType::SMIMEA),
        (seq![68u8, 83u8], RecordType::DS),
        (seq![82u8, 82u8, 83u8, 73u8, 71u8], RecordType::RRSIG),
        (seq![78u8, 83u8, 69u8, 67u8], RecordType::NSEC),
        (seq![68u8, 78u8, 83u8, 75u8, 69u8, 89u8], RecordType::DNSKEY),
        (seq![68u8, 72u8, 67u8, 73u8, 68u8], RecordType::DHCID),
        (seq![78u8, 83u8, 69u8, 67u8, 51u8], RecordType::NSEC3),
        (seq![78u8, 83u8, 69u8, 67u8, 51u8, 80u8, 65u8, 82u8, 65u8, 77u8], RecordType::NSEC3PARAM),
        (seq![73u8, 80u8, 83u8, 69u8, 67u8, 75u8, 69u8, 89u8], RecordType::IPSECKEY),
    ]
}

/// The name table, as vectors the code can walk.
fn known_names() -> (r: Vec<(Vec<u8>, RecordType)>)
    ensures
        r@.len() == spec_known_names().len(),
        forall|j: int| 0 <= j < r@.len() ==> (#[trigger] r@[j]).0@ == spec_known_names()[j].0
            && r@[j].1 == spec_known_names()[j].1,
{
    let mut v: Vec<(Vec<u8>, RecordType)> = Vec::new();
    v.push((vec_of(&[65]), RecordType::A));
    v.push((vec_of(&[65, 65, 65, 65]), RecordType::AAAA));
    v.push((vec_of(&[67, 65, 65]), RecordType::CAA));
    v.push((vec_of(&[67, 78, 65, 77, 69]), RecordType::CNAME));
    v.push((vec_of(&[69, 85, 73, 52, 56]), RecordType::EUI48));
    v.push((vec_of(&[69, 85, 73, 54, 52]), RecordType::EUI64));
    v.push((vec_of(&[72, 73, 78, 70, 79]), RecordType::HINFO));
    v.push((vec_of(&[76, 79, 67]), RecordType::LOC));
    v.push((vec_of(&[77, 88]), RecordType::MX));
    v.push((vec_of(&[78, 65, 80, 84, 82]), RecordType::NAPTR));
    v.push((vec_of(&[78, 83]), RecordType::NS));
    v.push((vec_of(&[79, 80, 69, 78, 80, 71, 80, 75, 69, 89]), RecordType::OPENPGPKEY));
    v.push((vec_of(&[80, 84, 82]), RecordType::PTR));
    v.push((vec_of(&[83, 83, 72, 70, 80]), RecordType::SSHFP));
    v.push((vec_of(&[83, 79, 65]), RecordType::SOA));
    v.push((vec_of(&[83, 82, 86]), RecordType::SRV));
    v.push((vec_of(&[84, 76, 83, 65]), RecordType::TLSA));
    v.push((vec_of(&[84, 88, 84]), RecordType::TXT));
    v.push((vec_of(&[85, 82, 73]), RecordType::URI));
    v.push((vec_of(&[83, 77, 73, 77, 69, 65]), RecordType::SMIMEA));
    v.push((vec_of(&[68, 83]), RecordType::DS));
    v.push((vec_of(&[82, 82, 83, 73, 71]), RecordType::RRSIG));
    v.push((vec_of(&[78, 83, 69, 67]), RecordType::NSEC));
    v.push((vec_of(&[68, 78, 83, 75, 69, 89]), RecordType::DNSKEY));
    v.push((vec_of(&[68, 72, 67, 73, 68]), RecordType::DHCID));
    v.push((vec_of(&[78, 83, 69, 67, 51]), RecordType::NSEC3));
    v.push((vec_of(&[78, 83, 69, 67, 51, 80, 65, 82, 65, 77]), RecordType::NSEC3PARAM));
    v.push((vec_of(&[73, 80, 83, 69, 67, 75, 69, 89]), RecordType::IPSECKEY));
    v
}

/// Copies a byte slice into an owned vector.
fn vec_of(b: &[u8]) -> (r: Vec<u8>)
    ensures
        r@ == b@,
{
    vstd::slice::slice_to_vec(b)
}

/// A name that matches the table at entry `k` is recognised, and maps to
/// that entry's record type.
proof fn lemma_known_names_sound(u: Seq<u8>, k: int)
    requires
        0 <= k < spec_known_names().len(),
        u == spec_known_names()[k].0,
        forall|j: int| 0 <= j < k ==> u != (#[trigger] spec_known_names()[j]).0,
    ensures
        forall|s: Seq<u8>| spec_upper_bytes(s) == u ==> spec_from_type_name(s) == Some(
            spec_known_names()[k].1,
        ),
{
}

/// A name that matches no table entry is not recognised.
proof fn lemma_known_names_complete(u: Seq<u8>)
    requires
        forall|j: int| 0 <= j < spec_known_names().len() ==> u != (
        #[trigger] spec_known_names()[j]).0,
    ensures
        forall|s: Seq<u8>| spec_upper_bytes(s) == u ==> spec_from_type_name(s) is None,
{
    let ks = spec_known_names();
    assert(u != ks[0].0);
    assert(u != ks[1].0);
    assert(u != ks[2].0);
    assert(u != ks[3].0);
    assert(u != ks[4].0);
    assert(u != ks[5].0);
    assert(u != ks[6].0);
    assert(u != ks[7].0);
    assert(u != ks[8].0);
    assert(u != ks[9].0);
    assert(u != ks[10].0);
    assert(u != ks[11].0);
    assert(u != ks[12].0);
    assert(u != ks[13].0);
    assert(u != ks[14].0);
    assert(u != ks[15].0);
    assert(u != ks[16].0);
    assert(u != ks[17].0);
    assert(u != ks[18].0);
    assert(u != ks[19].0);
    assert(u != ks[20].0);
    assert(u != ks[21].0);
    assert(u != ks[22].0);
    assert(u != ks[23].0);
    assert(u != ks[24].0);
    assert(u != ks[25].0);
    assert(u != ks[26].0);
    assert(u != ks[27].0);
}

/// What decoding a record body of the given type number yields: records
/// of a known type go to that type's decoder; all others are kept as
/// their raw bytes.
pub open spec fn spec_read_record_data(
    type_number: u16,
    stated_length: u16,
    bytes: Seq<u8>,
    pos: int,
) -> Result<RecordModel, WireError> {
    if type_number == 1 {
        match spec_read_a(stated_length, bytes, pos) {
            Ok(m) => Ok(RecordModel::A(m)),
            Err(e) => Err(e),
        }
    } else if type_number == 2 {
        match spec_read_ns(stated_length, bytes, pos) {
            Ok(m) => Ok(RecordModel::NS(m)),
            Err(e) => Err(e),
        }
    } else if type_number == 5 {
        match spec_read_cname(stated_length, bytes, pos) {
            Ok(m) => Ok(RecordModel::CNAME(m)),
            Err(e) => Err(e),
        }
    } else if type_number == 6 {
        match spec_read_soa(stated_length, bytes, pos) {
            Ok(m) => Ok(RecordModel::SOA(m)),
            Err(e) => Err(e),
        }
    } else if type_number == 12 {
        match spec_read_ptr(stated_length, bytes, pos) {
            Ok(m) => Ok(RecordModel::PTR(m)),
            Err(e) => Err(e),
        }
    } else if type_number == 13 {
        match spec_read_hinfo(stated_length, bytes, pos) {
            Ok(m) => Ok(RecordModel::HINFO(m)),
            Err(e) => Err(e),
        }
    } else if type_number == 15 {
        match spec_read_mx(stated_length, bytes, pos) {
            Ok(m) => Ok(RecordModel::MX(m)),
            Err(e) => Err(e),
        }
    } else if type_number == 16 {
        match spec_read_txt(stated_length, bytes, pos) {
            Ok(m) => Ok(RecordModel::TXT(m)),
            Err(e) => Err(e),
        }
    } else if type_number == 28 {
        match spec_read_aaaa(stated_length, bytes, pos) {
            Ok(m) => Ok(RecordModel::AAAA(m)),
            Err(e) => Err(e),
        }
    } else if type_number == 29 {
        match spec_read_loc(stated_length, bytes, pos) {
            Ok(m) => Ok(RecordModel::LOC(m)),
            Err(e) => Err(e),
        }
    } else if type_number == 33 {
        match spec_read_srv(stated_length, bytes, pos) {
            Ok(m) => Ok(RecordModel::SRV(m)),
            Err(e) => Err(e),
        }
    } else if type_number == 35 {
        match spec_read_naptr(stated_length, bytes, pos) {
            Ok(m) => Ok(RecordModel::NAPTR(m)),
            Err(e) => Err(e),
        }
    } else if type_number == 43 {
        match spec_read_ds(stated_length, bytes, pos) {
            Ok(m) => Ok(RecordModel::DS(m)),
            Err(e) => Err(e),
        }
    } else if type_number == 44 {
        match spec_read_sshfp(stated_length, bytes, pos) {
            Ok(m) => Ok(RecordModel::SSHFP(m)),
            Err(e) => Err(e),
        }
    } else if type_number == 45 {
        match spec_read_ipseckey(stated_length, bytes, pos) {
            Ok(m) => Ok(RecordModel::IPSECKEY(m)),
            Err(e) => Err(e),
        }
    } else if type_number == 46 {
        match spec_read_rrsig(stated_length, bytes, pos) {
            Ok(m) => Ok(RecordModel::RRSIG(m)),
            Err(e) => Err(e),
        }
    } else if type_number == 47 {
        match spec_read_nsec(stated_length, bytes, pos) {
            Ok(m) => Ok(RecordModel::NSEC(m)),
            Err(e) => Err(e),
        }
    } else if type_number == 48 {
        match spec_read_dnskey(stated_length, bytes, pos) {
            Ok(m) => Ok(RecordModel::DNSKEY(m)),
            Err(e) => Err(e),
        }
    } else if type_number == 49 {
        match spec_read_dhcid(stated_length, bytes, pos) {
            Ok(m) => Ok(RecordModel::DHCID(m)),
            Err(e) => Err(e),
        }
    } else if type_number == 50 {
        match spec_read_nsec3(stated_length, bytes, pos) {
            Ok(m) => Ok(RecordModel::NSEC3(m)),
            Err(e) => Err(e),
        }
    } else if type_number == 51 {
        match spec_read_nsec3param(stated_length, bytes, pos) {
            Ok(m) => Ok(RecordModel::NSEC3PARAM(m)),
            Err(e) => Err(e),
        }
    } else if type_number == 52 {
        match spec_read_tlsa(stated_length, bytes, pos) {
            Ok(m) => Ok(RecordModel::TLSA(m)),
            Err(e) => Err(e),
        }
    } else if type_number == 53 {
        match spec_read_smimea(stated_length, bytes, pos) {
            Ok(m) => Ok(RecordModel::SMIMEA(m)),
            Err(e) => Err(e),
        }
    } else if type_number == 61 {
        match spec_read_openpgpkey(stated_length, bytes, pos) {
            Ok(m) => Ok(RecordModel::OPENPGPKEY(m)),
            Err(e) => Err(e),
        }
    } else if type_number == 108 {
        match spec_read_eui48(stated_length, bytes, pos) {
            Ok(m) => Ok(RecordModel::EUI48(m)),
            Err(e) => Err(e),
        }
    } else if type_number == 109 {
        match spec_read_eui64(stated_length, bytes, pos) {
            Ok(m) => Ok(RecordModel::EUI64(m)),
            Err(e) => Err(e),
        }
    } else if type_number == 256 {
        match spec_read_uri(stated_length, bytes, pos) {
            Ok(m) => Ok(RecordModel::URI(m)),
            Err(e) => Err(e),
        }
    } else if type_number == 257 {
        match spec_read_caa(stated_length, bytes, pos) {
            Ok(m) => Ok(RecordModel::CAA(m)),
            Err(e) => Err(e),
        }
    } else {
        if pos + stated_length > bytes.len() {
            Err(WireError::IO)
        } else {
            Ok(
                RecordModel::Other {
                    type_number,
                    bytes: bytes.subrange(pos, pos + stated_length),
                },
            )
        }
    }
}

/// Decoding record data is a pure function of the type number, the
/// stated length, the message bytes and the starting position: the same
/// inputs always yield the same record or the same error.
pub proof fn lemma_record_read_deterministic(
    type_number: u16,
    stated_length: u16,
    bytes: Seq<u8>,
    pos: int,
    r1: Result<RecordModel, WireError>,
    r2: Result<RecordModel, WireError>,
)
    requires
        r1 == spec_read_record_data(type_number, stated_length, bytes, pos),
        r2 == spec_read_record_data(type_number, stated_length, bytes, pos),
    ensures
        r1 == r2,
{
}

/// Decodes a record body of exactly `stated_length` bytes, dispatching
/// on the record's type number.
pub fn read_record_data(type_number: u16, stated_length: u16, c: &mut Cursor<'_>) -> (r: Result<
    Record,
    WireError,
>)
    requires
        old(c).wf(),
    ensures
        final(c).wf(),
        final(c).bytes() == old(c).bytes(),
        res_model(r) == spec_read_record_data(
            type_number,
            stated_length,
            old(c).bytes(),
            old(c).position(),
        ),
        r is Ok ==> final(c).position() == old(c).position() + stated_length,
        r is Err ==> old(c).position() <= final(c).position(),
{
    match type_number {
        1 => match A::read(stated_length, c) {
            Ok(rec) => Ok(Record::A(rec)),
            Err(e) => Err(e),
        },
        2 => match NS::read(stated_length, c) {
            Ok(rec) => Ok(Record::NS(rec)),
            Err(e) => Err(e),
        },
        5 => match CNAME::read(stated_length, c) {
            Ok(rec) => Ok(Record::CNAME(rec)),
            Err(e) => Err(e),
        },
        6 => match SOA::read(stated_length, c) {
            Ok(rec) => Ok(Record::SOA(rec)),
            Err(e) => Err(e),
        },
        12 => match PTR::read(stated_length, c) {
            Ok(rec) => Ok(Record::PTR(rec)),
            Err(e) => Err(e),
        },
        13 => match HINFO::read(stated_length, c) {
            Ok(rec) => Ok(Record::HINFO(rec)),
            Err(e) => Err(e),
        },
        15 => match MX::read(stated_length, c) {
            Ok(rec) => Ok(Record::MX(rec)),
            Err(e) => Err(e),
        },
        16 => match TXT::read(stated_length, c) {
            Ok(rec) => Ok(Record::TXT(rec)),
            Err(e) => Err(e),
        },
        28 => match AAAA::read(stated_length, c) {
            Ok(rec) => Ok(Record::AAAA(rec)),
            Err(e) => Err(e),
        },
        29 => match LOC::read(stated_length, c) {
            Ok(rec) => Ok(Record::LOC(rec)),
            Err(e) => Err(e),
        },
        33 => match SRV::read(stated_length, c) {
            Ok(rec) => Ok(Record::SRV(rec)),
            Err(e) => Err(e),
        },
        35 => match NAPTR::read(stated_length, c) {
            Ok(rec) => Ok(Record::NAPTR(rec)),
            Err(e) => Err(e),
        },
        43 => match DS::read(stated_length, c) {
            Ok(rec) => Ok(Record::DS(rec)),
            Err(e) => Err(e),
        },
        44 => match SSHFP::read(stated_length, c) {
            Ok(rec) => Ok(Record::SSHFP(rec)),
            Err(e) => Err(e),
        },
        45 => match IPSECKEY::read(stated_length, c) {
            Ok(rec) => Ok(Record::IPSECKEY(rec)),
            Err(e) => Err(e),
        },
        46 => match RRSIG::read(stated_length, c) {
            Ok(rec) => Ok(Record::RRSIG(rec)),
            Err(e) => Err(e),
        },
        47 => match NSEC::read(stated_length, c) {
            Ok(rec) => Ok(Record::NSEC(rec)),
            Err(e) => Err(e),
        },
        48 => match DNSKEY::read(stated_length, c) {
            Ok(rec) => Ok(Record::DNSKEY(rec)),
            Err(e) => Err(e),
        },
        49 => match DHCID::read(stated_length, c) {
            Ok(rec) => Ok(Record::DHCID(rec)),
            Err(e) => Err(e),
        },
        50 => match NSEC3::read(stated_length, c) {
            Ok(rec) => Ok(Record::NSEC3(rec)),
            Err(e) => Err(e),
        },
        51 => match NSEC3PARAM::read(stated_length, c) {
            Ok(rec) => Ok(Record::NSEC3PARAM(rec)),
            Err(e) => Err(e),
        },
        52 => match TLSA::read(stated_length, c) {
            Ok(rec) => Ok(Record::TLSA(rec)),
            Err(e) => Err(e),
        },
        53 => match SMIMEA::read(stated_length, c) {
            Ok(rec) => Ok(Record::SMIMEA(rec)),
            Err(e) => Err(e),
        },
        61 => match OPENPGPKEY::read(stated_length, c) {
            Ok(rec) => Ok(Record::OPENPGPKEY(rec)),
            Err(e) => Err(e),
        },
        108 => match EUI48::read(stated_length, c) {
            Ok(rec) => Ok(Record::EUI48(rec)),
            Err(e) => Err(e),
        },
        109 => match EUI64::read(stated_length, c) {
            Ok(rec) => Ok(Record::EUI64(rec)),
            Err(e) => Err(e),
        },
        256 => match URI::read(stated_length, c) {
            Ok(rec) => Ok(Record::URI(rec)),
            Err(e) => Err(e),
        },
        257 => match CAA::read(stated_length, c) {
            Ok(rec) => Ok(Record::CAA(rec)),
            Err(e) => Err(e),
        },
        _ => match c.read_bytes(stated_length as usize) {
            Ok(bytes) => Ok(Record::Other { type_number: UnknownQtype(type_number), bytes }),
            Err(e) => Err(e),
        },
    }
}

} // verus!
