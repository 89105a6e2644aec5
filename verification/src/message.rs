//! Whole DNS messages: the header with its packed flags, the question
//! section, and the three record sections, together with the query
//! serializer.

use vstd::prelude::*;
use crate::record::Record;
use crate::record::RecordModel;
use crate::record::spec_read_record_data;
use crate::record::read_record_data;
use crate::strings::Labels;
use crate::strings::labels_wf;
use crate::strings::spec_read_name;
use crate::wire::Cursor;
use crate::wire::WireError;
use crate::wire::be_u16;
use crate::wire::be_u32;

verus! {

/// The flags field of a DNS header, unpacked.
#[derive(PartialEq, Eq, Structural, Debug, Copy, Clone)]
pub struct Flags {
    /// Whether this message is a response.
    pub response: bool,

    /// The operation being performed.
    pub opcode: u8,

    /// In a response, whether the server is the authority for the
    /// queried domain.
    pub authoritative: bool,

    /// In a response, whether this message was truncated because it did
    /// not fit the transport; the client should retry over a stream
    /// transport.
    pub truncated: bool,

    /// In a query, whether the server may answer recursively.
    pub recursion_desired: bool,

    /// In a response, whether the server offers recursive queries.
    pub recursion_available: bool,

    /// Whether the data in this message has been verified.
    pub authentic_data: bool,

    /// Whether non-verified data is acceptable.
    pub checking_disabled: bool,

    /// The response code.
    pub error_code: u8,
}

/// The flags that the packed 16-bit field carries.
pub open spec fn spec_flags_from_u16(x: u16) -> Flags {
    Flags {
        response: (x / 0x8000) % 2 == 1,
        opcode: ((x / 0x800) % 16) as u8,
        authoritative: (x / 0x400) % 2 == 1,
        truncated: (x / 0x200) % 2 == 1,
        recursion_desired: (x / 0x100) % 2 == 1,
        recursion_available: (x / 0x80) % 2 == 1,
        authentic_data: (x / 0x20) % 2 == 1,
        checking_disabled: (x / 0x10) % 2 == 1,
        error_code: (x % 16) as u8,
    }
}

/// The packed 16-bit field that carries the flags.
pub open spec fn spec_flags_to_u16(f: Flags) -> int {
    (if f.response {
        0x8000int
    } else {
        0int
    }) + f.opcode * 0x800 + (if f.authoritative {
        0x400int
    } else {
        0int
    }) + (if f.truncated {
        0x200int
    } else {
        0int
    }) + (if f.recursion_desired {
        0x100int
    } else {
        0int
    }) + (if f.recursion_available {
        0x80int
    } else {
        0int
    }) + (if f.authentic_data {
        0x20int
    } else {
        0int
    }) + (if f.checking_disabled {
        0x10int
    } else {
        0int
    }) + f.error_code
}

impl Flags {
    /// Unpacks the 16-bit flags field.
    pub fn from_u16(x: u16) -> (f: Flags)
        ensures
            f == spec_flags_from_u16(x),
    {
        Flags {
            response: (x / 0x8000) % 2 == 1,
            opcode: ((x / 0x800) % 16) as u8,
            authoritative: (x / 0x400) % 2 == 1,
            truncated: (x / 0x200) % 2 == 1,
            recursion_desired: (x / 0x100) % 2 == 1,
            recursion_available: (x / 0x80) % 2 == 1,
            authentic_data: (x / 0x20) % 2 == 1,
            checking_disabled: (x / 0x10) % 2 == 1,
            error_code: (x % 16) as u8,
        }
    }

    /// Packs the flags into their 16-bit field.
    pub fn to_u16(self) -> (x: u16)
        requires
            self.opcode < 16,
            self.error_code < 16,
        ensures
            x == spec_flags_to_u16(self),
    {
        (if self.response {
            0x8000u16
        } else {
            0u16
        }) + (self.opcode as u16) * 0x800 + (if self.authoritative {
            0x400u16
        } else {
            0u16
        }) + (if self.truncated {
            0x200u16
        } else {
            0u16
        }) + (if self.recursion_desired {
            0x100u16
        } else {
            0u16
        }) + (if self.recursion_available {
            0x80u16
        } else {
            0u16
        }) + (if self.authentic_data {
            0x20u16
        } else {
            0u16
        }) + (if self.checking_disabled {
            0x10u16
        } else {
            0u16
        }) + (self.error_code as u16)
    }

    /// The flags of an ordinary query: not a response, a standard query,
    /// recursion desired, everything else clear.
    pub fn query() -> (f: Flags)
        ensures
            f == (Flags {
                response: false,
                opcode: 0,
                authoritative: false,
                truncated: false,
                recursion_desired: true,
                recursion_available: false,
                authentic_data: false,
                checking_disabled: false,
                error_code: 0,
            }),
    {
        Flags {
            response: false,
            opcode: 0,
            authoritative: false,
            truncated: false,
            recursion_desired: true,
            recursion_available: false,
            authentic_data: false,
            checking_disabled: false,
            error_code: 0,
        }
    }
}

/// Unpacking a packed flags field gives back the flags that were packed:
/// the sixteen bits hold them all.
pub proof fn lemma_flags_round_trip(f: Flags)
    requires
        f.opcode < 16,
        f.error_code < 16,
    ensures
        spec_flags_from_u16(spec_flags_to_u16(f) as u16) == f,
{
    let x = spec_flags_to_u16(f);
    assert(0 <= x < 0x10000);
    assert(spec_flags_from_u16(x as u16) == f) by (nonlinear_arith)
        requires
            x == spec_flags_to_u16(f),
            f.opcode < 16,
            f.error_code < 16,
    ;
}

/// The header of a DNS message: the transaction id, the flags, and the
/// four section counts.
#[derive(PartialEq, Eq, Structural, Debug, Copy, Clone)]
pub struct Header {
    /// The transaction id, used to match responses to queries.
    pub transaction_id: u16,

    /// The unpacked flags field.
    pub flags: Flags,

    /// How many questions the question section holds.
    pub qdcount: u16,

    /// How many records the answer section holds.
    pub ancount: u16,

    /// How many records the authority section holds.
    pub nscount: u16,

    /// How many records the additional section holds.
    pub arcount: u16,
}

/// What decoding the twelve header bytes at `pos` yields.
pub open spec fn spec_read_header(bytes: Seq<u8>, pos: int) -> Result<Header, WireError> {
    if pos + 12 > bytes.len() {
        Err(WireError::IO)
    } else {
        Ok(
            Header {
                transaction_id: be_u16(bytes[pos], bytes[pos + 1]) as u16,
                flags: spec_flags_from_u16(be_u16(bytes[pos + 2], bytes[pos + 3]) as u16),
                qdcount: be_u16(bytes[pos + 4], bytes[pos + 5]) as u16,
                ancount: be_u16(bytes[pos + 6], bytes[pos + 7]) as u16,
                nscount: be_u16(bytes[pos + 8], bytes[pos + 9]) as u16,
                arcount: be_u16(bytes[pos + 10], bytes[pos + 11]) as u16,
            },
        )
    }
}

impl Header {
    /// Decodes the twelve-byte header at the cursor's position.
    pub fn read(c: &mut Cursor<'_>) -> (r: Result<Header, WireError>)
        requires
            old(c).wf(),
        ensures
            final(c).wf(),
            final(c).bytes() == old(c).bytes(),
            r == spec_read_header(old(c).bytes(), old(c).position()),
            r is Ok ==> final(c).position() == old(c).position() + 12,
            r is Err ==> old(c).position() <= final(c).position(),
    {
        let transaction_id = c.read_u16()?;
        let raw_flags = c.read_u16()?;
        let qdcount = c.read_u16()?;
        let ancount = c.read_u16()?;
        let nscount = c.read_u16()?;
        let arcount = c.read_u16()?;
        Ok(
            Header {
                transaction_id,
                flags: Flags::from_u16(raw_flags),
                qdcount,
                ancount,
                nscount,
                arcount,
            },
        )
    }
}

/// One entry of the question section: a name, a type, and a class.
#[derive(PartialEq, Eq, Debug, Clone)]
pub struct Question {
    /// The domain name being queried.
    pub qname: Labels,

    /// The record type number being queried.
    pub qtype: u16,

    /// The network class being queried; `1` is the Internet.
    pub qclass: u16,
}

/// The mathematical model of a question.
pub struct QuestionModel {
    /// The labels of the queried name.
    pub qname: Seq<Seq<u8>>,
    /// The queried record type number.
    pub qtype: u16,
    /// The queried class.
    pub qclass: u16,
}

impl View for Question {
    type V = QuestionModel;

    open spec fn view(&self) -> QuestionModel {
        QuestionModel { qname: self.qname@, qtype: self.qtype, qclass: self.qclass }
    }
}

/// What decoding the question at `pos` yields: the question and the
/// position just past it.
pub open spec fn spec_read_question(bytes: Seq<u8>, pos: int) -> Result<
    (QuestionModel, int),
    WireError,
> {
    match spec_read_name(bytes, pos) {
        Err(e) => Err(e),
        Ok(p) => {
            if p.1 + 4 > bytes.len() {
                Err(WireError::IO)
            } else {
                Ok(
                    (
                        QuestionModel {
                            qname: p.0,
                            qtype: be_u16(bytes[p.1], bytes[p.1 + 1]) as u16,
                            qclass: be_u16(bytes[p.1 + 2], bytes[p.1 + 3]) as u16,
                        },
                        p.1 + 4,
                    ),
                )
            }
        }
    }
}

/// What decoding `count` questions in a row yields: the questions and
/// the position just past the last one. The first failure ends the
/// decode with that error.
pub open spec fn spec_read_questions(bytes: Seq<u8>, pos: int, count: int) -> Result<
    (Seq<QuestionModel>, int),
    WireError,
>
    decreases count,
{
    if count <= 0 {
        Ok((seq![], pos))
    } else {
        match spec_read_question(bytes, pos) {
            Err(e) => Err(e),
            Ok(p) => match spec_read_questions(bytes, p.1, count - 1) {
                Err(e) => Err(e),
                Ok(rest) => Ok((seq![p.0] + rest.0, rest.1)),
            },
        }
    }
}

/// A record read from one of the three record sections: the owner name
/// and envelope fields, and the decoded record data.
#[derive(PartialEq, Eq, Debug)]
pub struct Answer {
    /// The name the record belongs to.
    pub name: Labels,

    /// The record's network class.
    pub class: u16,

    /// How long the record may be cached, in seconds.
    pub ttl: u32,

    /// The record data itself.
    pub data: Record,
}

/// The mathematical model of a section record.
pub struct AnswerModel {
    /// The labels of the owner name.
    pub name: Seq<Seq<u8>>,
    /// The record's class.
    pub class: u16,
    /// The record's time to live.
    pub ttl: u32,
    /// The decoded record data.
    pub data: RecordModel,
}

impl View for Answer {
    type V = AnswerModel;

    open spec fn view(&self) -> AnswerModel {
        AnswerModel { name: self.name@, class: self.class, ttl: self.ttl, data: self.data@ }
    }
}

/// What decoding the record at `pos` yields: the record and the position
/// just past its data, which the stated length pins down exactly.
pub open spec fn spec_read_answer(bytes: Seq<u8>, pos: int) -> Result<(AnswerModel, int), WireError> {
    match spec_read_name(bytes, pos) {
        Err(e) => Err(e),
        Ok(p) => {
            let q = p.1;
            if q + 10 > bytes.len() {
                Err(WireError::IO)
            } else {
                let type_number = be_u16(bytes[q], bytes[q + 1]) as u16;
                let class = be_u16(bytes[q + 2], bytes[q + 3]) as u16;
                let ttl = be_u32(bytes[q + 4], bytes[q + 5], bytes[q + 6], bytes[q + 7]) as u32;
                let stated_length = be_u16(bytes[q + 8], bytes[q + 9]) as u16;
                match spec_read_record_data(type_number, stated_length, bytes, q + 10) {
                    Err(e) => Err(e),
                    Ok(data) => Ok(
                        (
                            AnswerModel { name: p.0, class, ttl, data },
                            q + 10 + stated_length,
                        ),
                    ),
                }
            }
        }
    }
}

/// What decoding `count` records in a row yields: the records and the
/// position just past the last one. The first record that fails to
/// decode ends the decode with that error; nothing after it is read.
pub open spec fn spec_read_answers(bytes: Seq<u8>, pos: int, count: int) -> Result<
    (Seq<AnswerModel>, int),
    WireError,
>
    decreases count,
{
    if count <= 0 {
        Ok((seq![], pos))
    } else {
        match spec_read_answer(bytes, pos) {
            Err(e) => Err(e),
            Ok(p) => match spec_read_answers(bytes, p.1, count - 1) {
                Err(e) => Err(e),
                Ok(rest) => Ok((seq![p.0] + rest.0, rest.1)),
            },
        }
    }
}

/// When any single record of a section fails to decode, the decode of
/// the whole section stops and reports that error: no record after the
/// failing one is consumed.
pub proof fn lemma_section_stops_on_error(bytes: Seq<u8>, pos: int, count: int, e: WireError)
    requires
        count >= 1,
        spec_read_answer(bytes, pos) == Err::<(AnswerModel, int), WireError>(e),
    ensures
        spec_read_answers(bytes, pos, count) == Err::<(Seq<AnswerModel>, int), WireError>(e),
{
}

/// Reads one record with its envelope.
fn read_answer(c: &mut Cursor<'_>) -> (r: Result<Answer, WireError>)
    requires
        old(c).wf(),
    ensures
        final(c).wf(),
        final(c).bytes() == old(c).bytes(),
        match r {
            Ok(a) => spec_read_answer(old(c).bytes(), old(c).position()) == Ok::<_, WireError>(
                (a@, final(c).position()),
            ) && old(c).position() < final(c).position(),
            Err(e) => spec_read_answer(old(c).bytes(), old(c).position()) == Err::<
                (AnswerModel, int),
                WireError,
            >(e) && old(c).position() <= final(c).position(),
        },
{
    let (name, _name_len) = match c.read_labels() {
        Ok(p) => p,
        Err(e) => {
            return Err(e);
        }
    };
    let type_number = c.read_u16()?;
    let class = c.read_u16()?;
    let ttl = c.read_u32()?;
    let stated_length = c.read_u16()?;
    let data = match read_record_data(type_number, stated_length, c) {
        Ok(d) => d,
        Err(e) => {
            return Err(e);
        }
    };
    Ok(Answer { name, class, ttl, data })
}

/// A whole DNS message: the header, the questions, and the three record
/// sections.
#[derive(PartialEq, Eq, Debug)]
pub struct Message {
    /// The header.
    pub header: Header,

    /// The question section.
    pub questions: Vec<Question>,

    /// The answer section.
    pub answers: Vec<Answer>,

    /// The authority section.
    pub authorities: Vec<Answer>,

    /// The additional section.
    pub additionals: Vec<Answer>,
}

/// The mathematical model of a message.
pub struct MessageModel {
    /// The header.
    pub header: Header,
    /// The questions, in order.
    pub questions: Seq<QuestionModel>,
    /// The answer records, in order.
    pub answers: Seq<AnswerModel>,
    /// The authority records, in order.
    pub authorities: Seq<AnswerModel>,
    /// The additional records, in order.
    pub additionals: Seq<AnswerModel>,
}

impl View for Message {
    type V = MessageModel;

    open spec fn view(&self) -> MessageModel {
        MessageModel {
            header: self.header,
            questions: self.questions@.map_values(|q: Question| q@),
            answers: self.answers@.map_values(|a: Answer| a@),
            authorities: self.authorities@.map_values(|a: Answer| a@),
            additionals: self.additionals@.map_values(|a: Answer| a@),
        }
    }
}

/// What decoding a whole message yields: the header, then `qdcount`
/// questions, then the three record sections with `ancount`, `nscount`
/// and `arcount` records. Decoding stops at the first error.
pub open spec fn spec_read_message(bytes: Seq<u8>) -> Result<MessageModel, WireError> {
    match spec_read_header(bytes, 0) {
        Err(e) => Err(e),
        Ok(header) => match spec_read_questions(bytes, 12, header.qdcount as int) {
            Err(e) => Err(e),
            Ok(qs) => match spec_read_answers(bytes, qs.1, header.ancount as int) {
                Err(e) => Err(e),
                Ok(ans) => match spec_read_answers(bytes, ans.1, header.nscount as int) {
                    Err(e) => Err(e),
                    Ok(auth) => match spec_read_answers(bytes, auth.1, header.arcount as int) {
                        Err(e) => Err(e),
                        Ok(add) => Ok(
                            MessageModel {
                                header,
                                questions: qs.0,
                                answers: ans.0,
                                authorities: auth.0,
                                additionals: add.0,
                            },
                        ),
                    },
                },
            },
        },
    }
}

/// A question-section decode that succeeds yields exactly as many
/// questions as were asked for.
proof fn lemma_questions_count(bytes: Seq<u8>, pos: int, count: int, qs: Seq<QuestionModel>, end: int)
    requires
        count >= 0,
        spec_read_questions(bytes, pos, count) == Ok::<_, WireError>((qs, end)),
    ensures
        qs.len() == count,
    decreases count,
{
    if count > 0 {
        match spec_read_question(bytes, pos) {
            Ok(p) => match spec_read_questions(bytes, p.1, count - 1) {
                Ok(rest) => {
                    lemma_questions_count(bytes, p.1, count - 1, rest.0, rest.1);
                }
                Err(_) => {}
            },
            Err(_) => {}
        }
    }
}

/// A record-section decode that succeeds yields exactly as many records
/// as were asked for.
proof fn lemma_answers_count(bytes: Seq<u8>, pos: int, count: int, ans: Seq<AnswerModel>, end: int)
    requires
        count >= 0,
        spec_read_answers(bytes, pos, count) == Ok::<_, WireError>((ans, end)),
    ensures
        ans.len() == count,
    decreases count,
{
    if count > 0 {
        match spec_read_answer(bytes, pos) {
            Ok(p) => match spec_read_answers(bytes, p.1, count - 1) {
                Ok(rest) => {
                    lemma_answers_count(bytes, p.1, count - 1, rest.0, rest.1);
                }
                Err(_) => {}
            },
            Err(_) => {}
        }
    }
}

/// A message that decodes holds exactly the counts its header states:
/// `qdcount` questions, and `ancount`, `nscount` and `arcount` records
/// in the three sections.
pub proof fn lemma_message_counts_match_header(bytes: Seq<u8>, m: MessageModel)
    requires
        spec_read_message(bytes) == Ok::<MessageModel, WireError>(m),
    ensures
        m.questions.len() == m.header.qdcount,
        m.answers.len() == m.header.ancount,
        m.authorities.len() == m.header.nscount,
        m.additionals.len() == m.header.arcount,
{
    match spec_read_header(bytes, 0) {
        Ok(header) => match spec_read_questions(bytes, 12, header.qdcount as int) {
            Ok(qs) => {
                lemma_questions_count(bytes, 12, header.qdcount as int, qs.0, qs.1);
                match spec_read_answers(bytes, qs.1, header.ancount as int) {
                    Ok(ans) => {
                        lemma_answers_count(bytes, qs.1, header.ancount as int, ans.0, ans.1);
                        match spec_read_answers(bytes, ans.1, header.nscount as int) {
                            Ok(auth) => {
                                lemma_answers_count(
                                    bytes,
                                    ans.1,
                                    header.nscount as int,
                                    auth.0,
                                    auth.1,
                                );
                                match spec_read_answers(bytes, auth.1, header.arcount as int) {
                                    Ok(add) => {
                                        lemma_answers_count(
                                            bytes,
                                            auth.1,
                                            header.arcount as int,
                                            add.0,
                                            add.1,
                                        );
                                    }
                                    Err(_) => {}
                                }
                            }
                            Err(_) => {}
                        }
                    }
                    Err(_) => {}
                }
            }
            Err(_) => {}
        },
        Err(_) => {}
    }
}

/// Reads `count` questions in a row.
fn read_questions(c: &mut Cursor<'_>, count: u16) -> (r: Result<Vec<Question>, WireError>)
    requires
        old(c).wf(),
    ensures
        final(c).wf(),
        final(c).bytes() == old(c).bytes(),
        match r {
            Ok(v) => spec_read_questions(old(c).bytes(), old(c).position(), count as int)
                == Ok::<_, WireError>(
                (v@.map_values(|q: Question| q@), final(c).position()),
            ) && old(c).position() <= final(c).position(),
            Err(e) => spec_read_questions(old(c).bytes(), old(c).position(), count as int)
                == Err::<(Seq<QuestionModel>, int), WireError>(e)
                && old(c).position() <= final(c).position(),
        },
    decreases count,
{
    if count == 0 {
        let v: Vec<Question> = Vec::new();
        assert(v@.map_values(|q: Question| q@) =~= Seq::<QuestionModel>::empty());
        return Ok(v);
    }
    let (qname, _qname_len) = match c.read_labels() {
        Ok(p) => p,
        Err(e) => {
            return Err(e);
        }
    };
    let qtype = c.read_u16()?;
    let qclass = c.read_u16()?;
    let q = Question { qname, qtype, qclass };
    let ghost q_model = q@;
    match read_questions(c, count - 1) {
        Ok(mut rest) => {
            let ghost rest_models = rest@.map_values(|x: Question| x@);
            rest.insert(0, q);
            assert(rest@.map_values(|x: Question| x@) =~= seq![q_model] + rest_models);
            Ok(rest)
        }
        Err(e) => Err(e),
    }
}

/// Reads `count` section records in a row, stopping at the first
/// failure.
fn read_answers(c: &mut Cursor<'_>, count: u16) -> (r: Result<Vec<Answer>, WireError>)
    requires
        old(c).wf(),
    ensures
        final(c).wf(),
        final(c).bytes() == old(c).bytes(),
        match r {
            Ok(v) => spec_read_answers(old(c).bytes(), old(c).position(), count as int)
                == Ok::<_, WireError>(
                (v@.map_values(|a: Answer| a@), final(c).position()),
            ) && old(c).position() <= final(c).position(),
            Err(e) => spec_read_answers(old(c).bytes(), old(c).position(), count as int) == Err::<
                (Seq<AnswerModel>, int),
                WireError,
            >(e) && old(c).position() <= final(c).position(),
        },
    decreases count,
{
    if count == 0 {
        let v: Vec<Answer> = Vec::new();
        assert(v@.map_values(|a: Answer| a@) =~= Seq::<AnswerModel>::empty());
        return Ok(v);
    }
    let a = match read_answer(c) {
        Ok(a) => a,
        Err(e) => {
            return Err(e);
        }
    };
    let ghost a_model = a@;
    match read_answers(c, count - 1) {
        Ok(mut rest) => {
            let ghost rest_models = rest@.map_values(|x: Answer| x@);
            rest.insert(0, a);
            assert(rest@.map_values(|x: Answer| x@) =~= seq![a_model] + rest_models);
            Ok(rest)
        }
        Err(e) => Err(e),
    }
}

impl Message {
    /// Decodes a whole DNS message from its raw bytes. Decoding stops at
    /// the first error and reports it; nothing after the failing record
    /// is consumed.
    pub fn from_bytes(buf: &[u8]) -> (r: Result<Message, WireError>)
        ensures
            match r {
                Ok(m) => spec_read_message(buf@) == Ok::<_, WireError>(m@),
                Err(e) => spec_read_message(buf@) == Err::<MessageModel, WireError>(e),
            },
    {
        let mut c = Cursor::new(buf);
        let header = Header::read(&mut c)?;
        let questions = read_questions(&mut c, header.qdcount)?;
        let answers = read_answers(&mut c, header.ancount)?;
        let authorities = read_answers(&mut c, header.nscount)?;
        let additionals = read_answers(&mut c, header.arcount)?;
        Ok(Message { header, questions, answers, authorities, additionals })
    }
}

/// The wire bytes of a name written without compression: a length byte
/// and the label bytes for every label, then the root byte.
pub open spec fn spec_encode_name(segs: Seq<Seq<u8>>) -> Seq<u8>
    decreases segs.len(),
{
    if segs.len() == 0 {
        seq![0u8]
    } else {
        seq![segs[0].len() as u8] + segs[0] + spec_encode_name(segs.skip(1))
    }
}

/// The two big-endian bytes of a 16-bit value.
pub open spec fn spec_u16_bytes(x: u16) -> Seq<u8> {
    seq![(x / 256) as u8, (x % 256) as u8]
}

/// The wire bytes of a query message that asks one question: a header
/// with the given transaction id and flags and a question count of one,
/// then the question.
pub open spec fn spec_encode_query(transaction_id: u16, flags: Flags, q: QuestionModel) -> Seq<u8> {
    spec_u16_bytes(transaction_id) + spec_u16_bytes(spec_flags_to_u16(flags) as u16)
        + spec_u16_bytes(1) + spec_u16_bytes(0) + spec_u16_bytes(0) + spec_u16_bytes(0)
        + spec_encode_name(q.qname) + spec_u16_bytes(q.qtype) + spec_u16_bytes(q.qclass)
}

/// Appends the two big-endian bytes of `x`.
fn push_u16(out: &mut Vec<u8>, x: u16)
    ensures
        final(out)@ == old(out)@ + spec_u16_bytes(x),
{
    out.push((x / 256) as u8);
    out.push((x % 256) as u8);
    assert(out@ =~= old(out)@ + spec_u16_bytes(x));
}

/// Appends the wire bytes of the labels from index `i` on, and the root
/// byte.
fn push_labels_from(out: &mut Vec<u8>, name: &Labels, i: usize)
    requires
        labels_wf(name@),
        i <= name.segments@.len(),
    ensures
        final(out)@ == old(out)@ + spec_encode_name(name@.skip(i as int)),
    decreases name.segments@.len() - i,
{
    if i == name.segments.len() {
        out.push(0);
        proof {
            assert(name@.skip(i as int) =~= Seq::<Seq<u8>>::empty());
            assert(out@ =~= old(out)@ + spec_encode_name(name@.skip(i as int)));
        }
        return;
    }
    proof {
        crate::strings::lemma_labels_wf_index(name@, i as int);
        assert(name@.skip(i as int)[0] == name@[i as int]);
        assert(name@.skip(i as int).skip(1) =~= name@.skip(i + 1));
    }
    let seg = &name.segments[i];
    let ghost before = out@;
    out.push(seg.len() as u8);
    let mut j: usize = 0;
    while j < seg.len()
        invariant
            j <= seg@.len(),
            out@ == before + seq![seg@.len() as u8] + seg@.subrange(0, j as int),
        decreases seg@.len() - j,
    {
        out.push(seg[j]);
        proof {
            assert(out@ =~= before + seq![seg@.len() as u8] + seg@.subrange(0, j + 1));
        }
        j = j + 1;
    }
    proof {
        assert(seg@.subrange(0, seg@.len() as int) =~= seg@);
    }
    push_labels_from(out, name, i + 1);
    proof {
        assert(out@ =~= before + spec_encode_name(name@.skip(i as int)));
    }
}

/// Appends the uncompressed wire bytes of a name.
fn push_name(out: &mut Vec<u8>, name: &Labels)
    requires
        labels_wf(name@),
    ensures
        final(out)@ == old(out)@ + spec_encode_name(name@),
{
    push_labels_from(out, name, 0);
    proof {
        assert(name@.skip(0) =~= name@);
    }
}

/// Serializes a query that asks one question, with the given transaction
/// id and flags.
pub fn encode_query(transaction_id: u16, flags: Flags, question: &Question) -> (r: Vec<u8>)
    requires
        labels_wf(question.qname@),
        flags.opcode < 16,
        flags.error_code < 16,
    ensures
        r@ == spec_encode_query(transaction_id, flags, question@),
{
    let mut out: Vec<u8> = Vec::new();
    push_u16(&mut out, transaction_id);
    push_u16(&mut out, flags.to_u16());
    push_u16(&mut out, 1);
    push_u16(&mut out, 0);
    push_u16(&mut out, 0);
    push_u16(&mut out, 0);
    push_name(&mut out, &question.qname);
    push_u16(&mut out, question.qtype);
    push_u16(&mut out, question.qclass);
    proof {
        assert(out@ =~= spec_encode_query(transaction_id, flags, question@));
    }
    out
}

} // verus!
