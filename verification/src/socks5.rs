//! The SOCKS5 inbound handshake, written as a state machine from state and
//! received bytes to next state and action. The caller (the session task)
//! performs the reads, writes and the outbound connect that the actions ask
//! for, and feeds the bytes back in; every protocol decision is made here.
//!
//! The subset served is RFC 1928 with NO AUTH only, CONNECT only, and
//! address types IPv4 and domain.
use vstd::prelude::*;

use crate::bytesfmt::dec_bytes;

verus! {

/// Why a session was refused during the handshake.
#[derive(Clone, Copy, PartialEq, Eq, Structural, Debug)]
pub enum Socks5Error {
    /// The client's version byte was not 0x05.
    BadVersion,
    /// The request command was not CONNECT (0x01).
    UnsupportedCommand,
    /// The address type was neither IPv4 (0x01) nor domain (0x03).
    UnsupportedAddrType,
}

/// Where the handshake stands; the reading states each expect a fixed number
/// of bytes, given by [`expected_len`].
pub enum Socks5State {
    /// Expecting the two greeting bytes: version and method count.
    Greeting,
    /// Expecting the client's `nmethods` method bytes (their values are
    /// ignored: the server always selects NO AUTH).
    Methods { nmethods: u8 },
    /// Expecting the four request bytes: version, command, reserved, address
    /// type.
    RequestHead,
    /// Expecting the four IPv4 address bytes.
    Ipv4Addr,
    /// Expecting the one-byte domain length.
    DomainLen,
    /// Expecting the `len` domain bytes.
    DomainName { len: u8 },
    /// Expecting the two port bytes; `host` is the destination rendered as
    /// bytes (dotted decimal for IPv4, the name verbatim for a domain).
    Port { host: Vec<u8> },
    /// The destination is known; the outbound is being opened.
    AwaitOutbound { host: Vec<u8>, port: u16 },
    /// The success reply has been issued; bytes are relayed verbatim.
    Relay,
    /// The handshake was refused.
    Failed { err: Socks5Error },
}

/// What the session task must do next.
pub enum Socks5Action {
    /// Read exactly `n` bytes and feed them to [`step`].
    Read { n: usize },
    /// Write `reply` to the client, then read exactly `n` bytes and feed
    /// them to [`step`].
    ReplyThenRead { reply: Vec<u8>, n: usize },
    /// Open the outbound to `host:port`; on success call [`on_connected`],
    /// on failure drop the session without replying.
    Connect { host: Vec<u8>, port: u16 },
    /// Refuse the session without replying further.
    Fail { err: Socks5Error },
}

/// How many bytes the machine expects in `s`; zero outside reading states.
pub open spec fn expected_len(s: Socks5State) -> nat {
    match s {
        Socks5State::Greeting => 2,
        Socks5State::Methods { nmethods } => nmethods as nat,
        Socks5State::RequestHead => 4,
        Socks5State::Ipv4Addr => 4,
        Socks5State::DomainLen => 1,
        Socks5State::DomainName { len } => len as nat,
        Socks5State::Port { .. } => 2,
        _ => 0,
    }
}

/// Whether `s` is a state in which the machine is waiting for bytes.
pub open spec fn is_reading(s: Socks5State) -> bool {
    match s {
        Socks5State::Greeting => true,
        Socks5State::Methods { .. } => true,
        Socks5State::RequestHead => true,
        Socks5State::Ipv4Addr => true,
        Socks5State::DomainLen => true,
        Socks5State::DomainName { .. } => true,
        Socks5State::Port { .. } => true,
        _ => false,
    }
}

/// The two-byte greeting acknowledgement: version 5, method NO AUTH.
pub open spec fn greet_reply_bytes() -> Seq<u8> {
    seq![0x05u8, 0x00u8]
}

/// The ten-byte success reply, with BND.ADDR and BND.PORT zero-filled.
pub open spec fn success_reply_bytes() -> Seq<u8> {
    seq![0x05u8, 0x00u8, 0x00u8, 0x01u8, 0x00u8, 0x00u8, 0x00u8, 0x00u8, 0x00u8, 0x00u8]
}

/// An IPv4 address rendered as ASCII dotted decimal.
pub open spec fn dotted_ipv4(b: Seq<u8>) -> Seq<u8> {
    dec_bytes(b[0] as nat) + seq![0x2eu8] + dec_bytes(b[1] as nat) + seq![0x2eu8] + dec_bytes(
        b[2] as nat,
    ) + seq![0x2eu8] + dec_bytes(b[3] as nat)
}

/// The transition relation of the handshake: from state `pre` on received
/// bytes `input` the machine moves to `post` and asks for `act`.
pub open spec fn step_ok(
    pre: Socks5State,
    input: Seq<u8>,
    post: Socks5State,
    act: Socks5Action,
) -> bool {
    match pre {
        Socks5State::Greeting => {
            if input[0] != 0x05 {
                &&& post matches Socks5State::Failed { err: Socks5Error::BadVersion }
                &&& act matches Socks5Action::Fail { err: Socks5Error::BadVersion }
            } else {
                &&& post matches Socks5State::Methods { nmethods } && nmethods == input[1]
                &&& act matches Socks5Action::Read { n } && n == input[1]
            }
        },
        Socks5State::Methods { .. } => {
            &&& post is RequestHead
            &&& act matches Socks5Action::ReplyThenRead { reply, n } && reply@
                == greet_reply_bytes() && n == 4
        },
        Socks5State::RequestHead => {
            if input[0] != 0x05 {
                &&& post matches Socks5State::Failed { err: Socks5Error::BadVersion }
                &&& act matches Socks5Action::Fail { err: Socks5Error::BadVersion }
            } else if input[1] != 0x01 {
                &&& post matches Socks5State::Failed { err: Socks5Error::UnsupportedCommand }
                &&& act matches Socks5Action::Fail { err: Socks5Error::UnsupportedCommand }
            } else if input[3] == 0x01 {
                &&& post is Ipv4Addr
                &&& act matches Socks5Action::Read { n } && n == 4
            } else if input[3] == 0x03 {
                &&& post is DomainLen
                &&& act matches Socks5Action::Read { n } && n == 1
            } else {
                &&& post matches Socks5State::Failed { err: Socks5Error::UnsupportedAddrType }
                &&& act matches Socks5Action::Fail { err: Socks5Error::UnsupportedAddrType }
            }
        },
        Socks5State::Ipv4Addr => {
            &&& post matches Socks5State::Port { host } && host@ == dotted_ipv4(input)
            &&& act matches Socks5Action::Read { n } && n == 2
        },
        Socks5State::DomainLen => {
            &&& post matches Socks5State::DomainName { len } && len == input[0]
            &&& act matches Socks5Action::Read { n } && n == input[0]
        },
        Socks5State::DomainName { .. } => {
            &&& post matches Socks5State::Port { host } && host@ == input
            &&& act matches Socks5Action::Read { n } && n == 2
        },
        Socks5State::Port { host } => {
            &&& post matches Socks5State::AwaitOutbound { host: h, port } && h@ == host@ && port
                == input[0] * 256 + input[1]
            &&& act matches Socks5Action::Connect { host: h, port } && h@ == host@ && port
                == input[0] * 256 + input[1]
        },
        _ => false,
    }
}

/// Appends the dotted-decimal rendering of the four address bytes.
fn push_dotted_ipv4(out: &mut Vec<u8>, b: &[u8])
    requires
        b@.len() == 4,
    ensures
        final(out)@ == old(out)@ + dotted_ipv4(b@),
{
    crate::bytesfmt::push_dec(out, b[0] as u16);
    out.push(0x2e);
    crate::bytesfmt::push_dec(out, b[1] as u16);
    out.push(0x2e);
    crate::bytesfmt::push_dec(out, b[2] as u16);
    out.push(0x2e);
    crate::bytesfmt::push_dec(out, b[3] as u16);
    assert(final(out)@ =~= old(out)@ + dotted_ipv4(b@));
}

/// How many bytes the machine expects next, or nothing outside reading
/// states; lets the session task check a chunk before handing it to
/// [`step`].
pub fn expected_read_len(state: &Socks5State) -> (r: Option<usize>)
    ensures
        r is Some <==> is_reading(*state),
        r matches Some(n) ==> n as nat == expected_len(*state),
{
    match state {
        Socks5State::Greeting => Some(2),
        Socks5State::Methods { nmethods } => Some(*nmethods as usize),
        Socks5State::RequestHead => Some(4),
        Socks5State::Ipv4Addr => Some(4),
        Socks5State::DomainLen => Some(1),
        Socks5State::DomainName { len } => Some(*len as usize),
        Socks5State::Port { .. } => Some(2),
        _ => None,
    }
}

/// The state and action a fresh session starts from: read the two greeting
/// bytes.
pub fn start() -> (r: (Socks5State, Socks5Action))
    ensures
        r.0 is Greeting,
        r.1 matches Socks5Action::Read { n } && n == 2,
{
    (Socks5State::Greeting, Socks5Action::Read { n: 2 })
}

/// Advances the handshake by one received chunk. The caller must deliver
/// exactly the number of bytes the current state expects.
pub fn step(state: Socks5State, input: &[u8]) -> (r: (Socks5State, Socks5Action))
    requires
        is_reading(state),
        input@.len() == expected_len(state),
    ensures
        step_ok(state, input@, r.0, r.1),
{
    match state {
        Socks5State::Greeting => {
            if input[0] != 0x05 {
                (
                    Socks5State::Failed { err: Socks5Error::BadVersion },
                    Socks5Action::Fail { err: Socks5Error::BadVersion },
                )
            } else {
                let n = input[1];
                (
                    Socks5State::Methods { nmethods: n },
                    Socks5Action::Read { n: n as usize },
                )
            }
        },
        Socks5State::Methods { .. } => {
            let mut reply: Vec<u8> = Vec::new();
            reply.push(0x05);
            reply.push(0x00);
            assert(reply@ =~= greet_reply_bytes());
            (Socks5State::RequestHead, Socks5Action::ReplyThenRead { reply, n: 4 })
        },
        Socks5State::RequestHead => {
            if input[0] != 0x05 {
                (
                    Socks5State::Failed { err: Socks5Error::BadVersion },
                    Socks5Action::Fail { err: Socks5Error::BadVersion },
                )
            } else if input[1] != 0x01 {
                (
                    Socks5State::Failed { err: Socks5Error::UnsupportedCommand },
                    Socks5Action::Fail { err: Socks5Error::UnsupportedCommand },
                )
            } else if input[3] == 0x01 {
                (Socks5State::Ipv4Addr, Socks5Action::Read { n: 4 })
            } else if input[3] == 0x03 {
                (Socks5State::DomainLen, Socks5Action::Read { n: 1 })
            } else {
                (
                    Socks5State::Failed { err: Socks5Error::UnsupportedAddrType },
                    Socks5Action::Fail { err: Socks5Error::UnsupportedAddrType },
                )
            }
        },
        Socks5State::Ipv4Addr => {
            let mut host: Vec<u8> = Vec::new();
            push_dotted_ipv4(&mut host, input);
            (Socks5State::Port { host }, Socks5Action::Read { n: 2 })
        },
        Socks5State::DomainLen => {
            let len = input[0];
            (Socks5State::DomainName { len }, Socks5Action::Read { n: len as usize })
        },
        Socks5State::DomainName { .. } => {
            let mut host: Vec<u8> = Vec::new();
            crate::bytesfmt::push_bytes(&mut host, input);
            (Socks5State::Port { host }, Socks5Action::Read { n: 2 })
        },
        Socks5State::Port { host } => {
            let port: u16 = (input[0] as u16) * 256 + (input[1] as u16);
            let mut host2: Vec<u8> = Vec::new();
            crate::bytesfmt::push_bytes(&mut host2, host.as_slice());
            (
                Socks5State::AwaitOutbound { host, port },
                Socks5Action::Connect { host: host2, port },
            )
        },
        _ => vstd::pervasive::unreached(),
    }
}

/// To be called once the outbound asked for by `Connect` is open: yields the
/// relaying state together with the ten-byte success reply, which the caller
/// writes to the client before relaying a single byte.
pub fn on_connected(state: Socks5State) -> (r: (Socks5State, Vec<u8>))
    requires
        state is AwaitOutbound,
    ensures
        r.0 is Relay,
        r.1@ == success_reply_bytes(),
{
    let mut reply: Vec<u8> = Vec::new();
    reply.push(0x05);
    reply.push(0x00);
    reply.push(0x00);
    reply.push(0x01);
    reply.push(0x00);
    reply.push(0x00);
    reply.push(0x00);
    reply.push(0x00);
    reply.push(0x00);
    reply.push(0x00);
    assert(reply@ =~= success_reply_bytes());
    (Socks5State::Relay, reply)
}

/// The handshake never writes the success reply and never reaches the
/// relaying state on its own: the only bytes [`step`] ever asks the caller
/// to write are the greeting acknowledgement, and `Relay` is entered only
/// through [`on_connected`], after the outbound is open. Hence the success
/// reply precedes every relayed byte.
pub proof fn lemma_success_reply_only_after_connect(
    pre: Socks5State,
    input: Seq<u8>,
    post: Socks5State,
    act: Socks5Action,
)
    requires
        step_ok(pre, input, post, act),
    ensures
        act matches Socks5Action::ReplyThenRead { reply, .. } ==> reply@ == greet_reply_bytes(),
        !(post is Relay),
        greet_reply_bytes() != success_reply_bytes(),
{
    assert(greet_reply_bytes().len() != success_reply_bytes().len());
}

} // verus!
