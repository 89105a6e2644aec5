//! The transport layer's decision logic: how a query is framed for each
//! transport, how a length-prefixed stream response is assembled from
//! partial reads, and when a truncated UDP response forces a retry over
//! TCP. The sockets themselves live outside this library; callers feed
//! raw bytes in and carry the decisions out.

use vstd::prelude::*;
use crate::message::Message;
use crate::message::MessageModel;
use crate::message::spec_read_message;
use crate::message::spec_u16_bytes;
use crate::wire::WireError;
use crate::wire::be_u16;

verus! {

/// Which transport a query travels over.
#[derive(PartialEq, Eq, Structural, Debug, Copy, Clone)]
#[allow(missing_docs)]
pub enum TransportType {
    UDP,
    TCP,
    TLS,
    HTTPS,
}

/// Something that can go wrong making a DNS request.
#[derive(PartialEq, Eq, Debug)]
pub enum Error {
    /// The data in the response did not parse correctly from the DNS
    /// wire protocol format.
    WireError(WireError),

    /// There was a problem with the network making a TCP or UDP
    /// request; the message says what the operating system reported.
    NetworkError(String),

    /// Not enough information was received from the server before a
    /// `read` call returned zero bytes.
    TruncatedResponse,

    /// The TLS library reported an error; the message says which.
    TlsError(String),

    /// The provided DNS name is not valid for certificate verification.
    TlsInvalidDnsName(String),

    /// The HTTP response could not be parsed.
    HttpError,

    /// The HTTP response code was something other than 200 OK, along
    /// with the response code text, if present.
    WrongHttpStatus(u16, Option<Vec<u8>>),

    /// The response carried a transaction id that does not belong to
    /// the query.
    WrongTransactionId {
        /// The id the query was sent with.
        expected: u16,
        /// The id the response carried.
        received: u16,
    },
}

/// The stream framing of a DNS message: its length as two big-endian
/// bytes, then the message itself.
pub open spec fn spec_frame_stream(msg: Seq<u8>) -> Seq<u8> {
    spec_u16_bytes(msg.len() as u16) + msg
}

/// Frames a message for a stream transport — TCP, or TLS over TCP —
/// by prefixing its length as two big-endian bytes.
pub fn frame_stream(msg: &Vec<u8>) -> (r: Vec<u8>)
    requires
        msg@.len() <= 65535,
    ensures
        r@ == spec_frame_stream(msg@),
{
    let len = msg.len() as u16;
    let mut out: Vec<u8> = Vec::new();
    out.push((len / 256) as u8);
    out.push((len % 256) as u8);
    let mut i: usize = 0;
    while i < msg.len()
        invariant
            i <= msg@.len(),
            out@ == spec_u16_bytes(msg@.len() as u16) + msg@.subrange(0, i as int),
        decreases msg@.len() - i,
    {
        out.push(msg[i]);
        proof {
            assert(out@ =~= spec_u16_bytes(msg@.len() as u16) + msg@.subrange(0, i + 1));
        }
        i = i + 1;
    }
    proof {
        assert(msg@.subrange(0, msg@.len() as int) =~= msg@);
    }
    out
}

/// The message that the stream bytes gathered so far carry: `Some` once
/// the two length bytes and the whole declared length have arrived,
/// `None` before that.
pub open spec fn spec_recv_state(data: Seq<u8>) -> Option<Seq<u8>> {
    if data.len() < 2 {
        None
    } else {
        let n = be_u16(data[0], data[1]);
        if data.len() >= 2 + n {
            Some(data.subrange(2, 2 + n))
        } else {
            None
        }
    }
}

/// A receiver never yields a message before the whole declared length
/// has arrived, however the stream splits the bytes into reads.
pub proof fn lemma_recv_needs_declared_length(data: Seq<u8>)
    requires
        data.len() >= 2,
    ensures
        (spec_recv_state(data) is Some) <==> data.len() >= 2 + be_u16(data[0], data[1]),
{
}

/// What one read of the stream leads to.
#[derive(PartialEq, Eq, Debug)]
pub enum RecvOutcome {
    /// The declared length has not fully arrived; keep reading.
    NeedMore,

    /// The whole message has arrived.
    Complete(Vec<u8>),

    /// The stream ended before the declared length arrived.
    Truncated,
}

/// Assembles a length-prefixed stream response — the TCP and TLS
/// framing — from however many partial reads the stream delivers.
pub struct StreamReceiver {
    /// The raw stream bytes gathered so far, including the two length
    /// bytes.
    pub gathered: Vec<u8>,
}

impl View for StreamReceiver {
    type V = Seq<u8>;

    open spec fn view(&self) -> Seq<u8> {
        self.gathered@
    }
}

impl StreamReceiver {
    /// A receiver that has seen no bytes yet.
    pub fn new() -> (r: StreamReceiver)
        ensures
            r@ == Seq::<u8>::empty(),
    {
        StreamReceiver { gathered: Vec::new() }
    }

    /// Feeds the bytes of one read from the stream. An empty chunk
    /// means the stream ended: a read that returned zero bytes before
    /// the declared length had arrived is a truncated response, not a
    /// short message.
    pub fn on_read(&mut self, chunk: &[u8]) -> (r: RecvOutcome)
        ensures
            final(self)@ == old(self)@ + chunk@,
            match r {
                RecvOutcome::NeedMore => chunk@.len() > 0 && spec_recv_state(final(self)@) is None,
                RecvOutcome::Complete(m) => spec_recv_state(final(self)@) == Some(m@),
                RecvOutcome::Truncated => chunk@.len() == 0 && spec_recv_state(
                    final(self)@,
                ) is None,
            },
    {
        let mut incoming = vstd::slice::slice_to_vec(chunk);
        let was_empty = incoming.len() == 0;
        self.gathered.append(&mut incoming);
        proof {
            assert(self.gathered@ =~= old(self)@ + chunk@);
        }

        if self.gathered.len() >= 2 {
            let declared: usize = (self.gathered[0] as usize) * 256 + (self.gathered[1] as usize);
            if self.gathered.len() - 2 >= declared {
                let msg = vstd::slice::slice_to_vec(
                    vstd::slice::slice_subrange(self.gathered.as_slice(), 2, 2 + declared),
                );
                return RecvOutcome::Complete(msg);
            }
        }
        if was_empty {
            RecvOutcome::Truncated
        } else {
            RecvOutcome::NeedMore
        }
    }
}

/// What a query session does next.
#[derive(PartialEq, Eq, Debug)]
pub enum SessionStep {
    /// Send the same query again, over this transport.
    Retry(TransportType),

    /// The response is complete: hand it to the caller.
    Deliver(Message),

    /// The query failed.
    Fail(Error),
}

/// One query's round trip: which transport it travels over, the query
/// bytes themselves, and whether the truncation fallback has already
/// been taken. The session decides; the caller performs the sends and
/// reads and hands the raw response back.
pub struct QuerySession {
    /// The transport the query currently travels over.
    pub transport: TransportType,

    /// The serialized query message.
    pub query: Vec<u8>,

    /// The id the query was sent with.
    pub transaction_id: u16,

    /// Whether the truncation fallback to TCP has been taken.
    pub retried: bool,
}

impl QuerySession {
    /// Starts a session for one serialized query.
    pub fn new(transport: TransportType, query: Vec<u8>, transaction_id: u16) -> (s: QuerySession)
        ensures
            s.transport == transport,
            s.query@ == query@,
            s.transaction_id == transaction_id,
            !s.retried,
    {
        QuerySession { transport, query, transaction_id, retried: false }
    }

    /// Decides what to do with the raw response to this session's
    /// query: a response that does not decode fails the query with its
    /// wire error; one whose transaction id is not the query's own is
    /// rejected; a truncated response over UDP retries the identical
    /// query over TCP, once; every other response is delivered.
    pub fn on_response(&mut self, response: &[u8]) -> (r: SessionStep)
        ensures
            final(self).query@ == old(self).query@,
            final(self).transaction_id == old(self).transaction_id,
            match spec_read_message(response@) {
                Err(e) => r == SessionStep::Fail(Error::WireError(e)) && *final(self) == *old(self),
                Ok(m) => {
                    if m.header.transaction_id != old(self).transaction_id {
                        r == SessionStep::Fail(
                            Error::WrongTransactionId {
                                expected: old(self).transaction_id,
                                received: m.header.transaction_id,
                            },
                        ) && *final(self) == *old(self)
                    } else if m.header.flags.truncated && old(self).transport is UDP && !old(
                        self,
                    ).retried {
                        r == SessionStep::Retry(TransportType::TCP) && final(self).transport
                            is TCP && final(self).retried
                    } else {
                        (r matches SessionStep::Deliver(msg) && msg@ == m) && *final(self) == *old(
                            self,
                        )
                    }
                }
            },
    {
        let message = match Message::from_bytes(response) {
            Ok(m) => m,
            Err(e) => {
                return SessionStep::Fail(Error::WireError(e));
            }
        };
        if message.header.transaction_id != self.transaction_id {
            return SessionStep::Fail(
                Error::WrongTransactionId {
                    expected: self.transaction_id,
                    received: message.header.transaction_id,
                },
            );
        }
        if message.header.flags.truncated && matches!(self.transport, TransportType::UDP)
            && !self.retried {
            self.transport = TransportType::TCP;
            self.retried = true;
            return SessionStep::Retry(TransportType::TCP);
        }
        SessionStep::Deliver(message)
    }
}

} // verus!
