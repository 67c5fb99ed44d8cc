//! The Trojan outbound: static configuration, the choice of TLS server name,
//! and the one-shot greeting written after the TLS handshake — the plaintext
//! password followed by a CONNECT line and a Host header. The TLS transport
//! itself is plain I/O and lives outside the verified core.
use vstd::prelude::*;

use crate::bytesfmt::{dec_bytes, push_bytes, push_dec};
use vstd::utf8::encode_utf8;

verus! {

#[derive(Clone)]
pub struct TrojanProxy {
    pub name: String,
    pub server: String,
    pub port: u16,
    pub password: String,
    pub sni: Option<String>,
}

/// `host:port` with the port in ASCII decimal.
pub open spec fn host_port_bytes(host: Seq<u8>, port: u16) -> Seq<u8> {
    host + seq![0x3au8] + dec_bytes(port as nat)
}

/// The Trojan greeting for destination `host:port`:
/// `<password>\r\nCONNECT <host>:<port> HTTP/1.1\r\nHost: <host>:<port>\r\n\r\n`.
pub open spec fn trojan_greeting_bytes(password: Seq<u8>, host: Seq<u8>, port: u16) -> Seq<u8> {
    password + crlf() + connect_sp() + host_port_bytes(host, port) + sp_http11_crlf()
        + host_hdr_sp() + host_port_bytes(host, port) + crlf() + crlf()
}

/// `\r\n`.
pub open spec fn crlf() -> Seq<u8> {
    seq![0x0du8, 0x0au8]
}

/// `CONNECT ` (with the trailing space).
pub open spec fn connect_sp() -> Seq<u8> {
    seq![0x43u8, 0x4fu8, 0x4eu8, 0x4eu8, 0x45u8, 0x43u8, 0x54u8, 0x20u8]
}

/// ` HTTP/1.1\r\n` (with the leading space).
pub open spec fn sp_http11_crlf() -> Seq<u8> {
    seq![0x20u8, 0x48u8, 0x54u8, 0x54u8, 0x50u8, 0x2fu8, 0x31u8, 0x2eu8, 0x31u8, 0x0du8, 0x0au8]
}

/// `Host: ` (with the trailing space).
pub open spec fn host_hdr_sp() -> Seq<u8> {
    seq![0x48u8, 0x6fu8, 0x73u8, 0x74u8, 0x3au8, 0x20u8]
}

/// Appends `host:port` with the port in ASCII decimal.
pub fn push_host_port(out: &mut Vec<u8>, host: &[u8], port: u16)
    ensures
        final(out)@ == old(out)@ + host_port_bytes(host@, port),
{
    push_bytes(out, host);
    out.push(0x3a);
    push_dec(out, port);
    assert(final(out)@ =~= old(out)@ + host_port_bytes(host@, port));
}

impl TrojanProxy {
    pub fn new(
        name: String,
        server: String,
        port: u16,
        password: String,
        sni: Option<String>,
    ) -> (r: Self)
        ensures
            r.name@ == name@,
            r.server@ == server@,
            r.port == port,
            r.password@ == password@,
            r.sni == sni,
    {
        TrojanProxy { name, server, port, password, sni }
    }

    /// The server name presented during the TLS handshake: the configured
    /// SNI when there is one, else the server address.
    pub fn tls_server_name(&self) -> (r: &str)
        ensures
            match self.sni {
                Some(s) => r@ == s@,
                None => r@ == self.server@,
            },
    {
        match &self.sni {
            Some(s) => s.as_str(),
            None => self.server.as_str(),
        }
    }

    /// The greeting written once, right after the TLS handshake; the bytes
    /// are the UTF-8 of the configured password followed by the CONNECT and
    /// Host lines for the destination.
    #[verifier::rlimit(50)]
    pub fn greeting(&self, host: &[u8], port: u16) -> (r: Vec<u8>)
        ensures
            r@ == trojan_greeting_bytes(encode_utf8(self.password@), host@, port),
    {
        let mut out: Vec<u8> = Vec::new();
        push_bytes(&mut out, self.password.as_str().as_bytes());
        out.push(0x0d);
        out.push(0x0a);
        out.push(0x43);
        out.push(0x4f);
        out.push(0x4e);
        out.push(0x4e);
        out.push(0x45);
        out.push(0x43);
        out.push(0x54);
        out.push(0x20);
        push_host_port(&mut out, host, port);
        out.push(0x20);
        out.push(0x48);
        out.push(0x54);
        out.push(0x54);
        out.push(0x50);
        out.push(0x2f);
        out.push(0x31);
        out.push(0x2e);
        out.push(0x31);
        out.push(0x0d);
        out.push(0x0a);
        out.push(0x48);
        out.push(0x6f);
        out.push(0x73);
        out.push(0x74);
        out.push(0x3a);
        out.push(0x20);
        push_host_port(&mut out, host, port);
        out.push(0x0d);
        out.push(0x0a);
        out.push(0x0d);
        out.push(0x0a);
        assert(out@ =~= trojan_greeting_bytes(encode_utf8(self.password@), host@, port));
        out
    }
}

} // verus!
