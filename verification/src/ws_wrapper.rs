//! The byte-stream side of the WebSocket adapter: the carry-over buffer that
//! turns a stream of typed messages into an ordered byte stream. The caller
//! (the adapter's I/O shim) polls the transport and feeds each message in;
//! every byte handed to the reader comes from here, so the reordering,
//! duplication and control-frame questions are all settled by these
//! contracts. Writes do not pass through this state: each write becomes one
//! Binary message carrying the input verbatim.
use vstd::prelude::*;

verus! {

/// A message received from the transport, reduced to what the adapter
/// distinguishes: a Binary payload, any other frame (Text, Ping, Pong,
/// Close), or the end of the stream.
pub enum WsMessage {
    Binary { data: Vec<u8> },
    Other,
    Closed,
}

/// What one read request yields.
pub enum WsReadOutcome {
    /// Bytes for the reader (possibly fewer than requested).
    Data { bytes: Vec<u8> },
    /// A non-Binary message was discarded; poll the transport again.
    Skip,
    /// The transport ended; signal end of stream to the reader.
    Eof,
}

/// The carry-over buffer holding the tail of the last Binary message that
/// the reader has not consumed yet.
pub struct WsReadState {
    carry: Vec<u8>,
}

impl WsReadState {
    /// The buffered bytes, oldest first.
    pub closed spec fn carry_bytes(&self) -> Seq<u8> {
        self.carry@
    }

    pub fn new() -> (r: Self)
        ensures
            r.carry_bytes().len() == 0,
    {
        WsReadState { carry: Vec::new() }
    }

    /// Whether a read request can be served from the buffer alone.
    pub fn has_carry(&self) -> (r: bool)
        ensures
            r == (self.carry_bytes().len() != 0),
    {
        self.carry.len() != 0
    }

    /// Serves a read request for up to `n` bytes from the buffer: the reader
    /// receives the oldest `min(n, |carry|)` bytes and they leave the buffer.
    pub fn read_carry(&mut self, n: usize) -> (out: Vec<u8>)
        ensures
            out@ == old(self).carry_bytes().take(min_nat(n as nat, old(self).carry_bytes().len())
                as int),
            final(self).carry_bytes() == old(self).carry_bytes().skip(min_nat(
                n as nat,
                old(self).carry_bytes().len(),
            ) as int),
    {
        let k = if n < self.carry.len() {
            n
        } else {
            self.carry.len()
        };
        let mut out: Vec<u8> = Vec::new();
        let mut i: usize = 0;
        while i < k
            invariant
                i <= k,
                k <= self.carry@.len(),
                self.carry@ == old(self).carry_bytes(),
                out@ == self.carry@.take(i as int),
            decreases k - i,
        {
            out.push(self.carry[i]);
            i = i + 1;
            assert(out@ =~= self.carry@.take(i as int));
        }
        let mut rest: Vec<u8> = Vec::new();
        let mut j: usize = k;
        let len = self.carry.len();
        while j < len
            invariant
                k <= j <= len,
                len == self.carry@.len(),
                self.carry@ == old(self).carry_bytes(),
                rest@ == self.carry@.subrange(k as int, j as int),
            decreases len - j,
        {
            rest.push(self.carry[j]);
            j = j + 1;
            assert(rest@ =~= self.carry@.subrange(k as int, j as int));
        }
        self.carry = rest;
        assert(self.carry@ =~= old(self).carry_bytes().skip(k as int));
        out
    }

    /// Accepts the next transport message while the buffer is empty. A
    /// Binary payload yields its first `min(n, |data|)` bytes to the reader
    /// and buffers the remainder; any other frame yields nothing and leaves
    /// the buffer empty; the end of the stream yields end-of-stream. No
    /// byte of a non-Binary frame ever reaches the reader.
    pub fn accept_message(&mut self, msg: WsMessage, n: usize) -> (out: WsReadOutcome)
        requires
            old(self).carry_bytes().len() == 0,
        ensures
            match msg {
                WsMessage::Binary { data } => {
                    &&& out matches WsReadOutcome::Data { bytes } && bytes@ == data@.take(min_nat(
                        n as nat,
                        data@.len(),
                    ) as int)
                    &&& final(self).carry_bytes() == data@.skip(min_nat(n as nat, data@.len())
                        as int)
                },
                WsMessage::Other => {
                    &&& out is Skip
                    &&& final(self).carry_bytes().len() == 0
                },
                WsMessage::Closed => {
                    &&& out is Eof
                    &&& final(self).carry_bytes().len() == 0
                },
            },
    {
        match msg {
            WsMessage::Binary { data } => {
                self.carry = data;
                let bytes = self.read_carry(n);
                WsReadOutcome::Data { bytes }
            },
            WsMessage::Other => WsReadOutcome::Skip,
            WsMessage::Closed => WsReadOutcome::Eof,
        }
    }
}

/// The smaller of two lengths.
pub open spec fn min_nat(a: nat, b: nat) -> nat {
    if a < b {
        a
    } else {
        b
    }
}

/// Successive reads deliver a Binary payload in order and without loss:
/// a first read of `n1` bytes and a second of `n2` together yield exactly
/// the first `min(n1 + n2, |b|)` bytes of the payload `b`, so two reads of
/// half the payload each reproduce it whole.
pub proof fn lemma_reads_concat(b: Seq<u8>, n1: nat, n2: nat)
    ensures
        ({
            let m1 = min_nat(n1, b.len());
            let m2 = min_nat(n2, b.skip(m1 as int).len());
            b.take(m1 as int) + b.skip(m1 as int).take(m2 as int) == b.take(
                min_nat((n1 + n2) as nat, b.len()) as int,
            )
        }),
{
    let m1 = min_nat(n1, b.len());
    let m2 = min_nat(n2, b.skip(m1 as int).len());
    assert(b.take(m1 as int) + b.skip(m1 as int).take(m2 as int) =~= b.take(
        min_nat((n1 + n2) as nat, b.len()) as int,
    ));
}

} // verus!
