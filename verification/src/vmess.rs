//! The VMess outbound: static configuration and the construction of the two
//! request framings — AEAD (AES-128-GCM over a domain-addressed body) and
//! legacy (MD5-keyed header written in the clear). Hashing and encryption are
//! performed by outside crates behind trusted wrappers; every byte around
//! them is laid out by verified code. The WebSocket transport that carries
//! the frames is plain I/O and lives outside the verified core.
use vstd::prelude::*;

use crate::assoc;
use crate::bytesfmt::{be16, be32, be64, be_bytes, dec_bytes, lemma_be_bytes_len, push_be,
    push_bytes};
use vstd::pervasive::unreached;
use vstd::utf8::encode_utf8;

verus! {

/// Why a request frame could not be built.
#[derive(Clone, Copy, PartialEq, Eq, Structural, Debug)]
pub enum VmessError {
    /// The destination host does not fit the one-byte length field.
    HostTooLong,
}

/// The SHA-256 digest of a byte sequence, as computed by the `sha2` crate.
pub uninterp spec fn sha256_of(b: Seq<u8>) -> Seq<u8>;

/// The MD5 digest of a byte sequence, as computed by the `md-5` crate.
pub uninterp spec fn md5_of(b: Seq<u8>) -> Seq<u8>;

/// The AES-128-GCM sealing of `msg` under `key` and `iv` with no associated
/// data: the ciphertext with the 16-byte tag appended, as computed by the
/// `aes-gcm` crate.
pub uninterp spec fn aes128gcm_of(key: Seq<u8>, iv: Seq<u8>, msg: Seq<u8>) -> Seq<u8>;

/// The bytes of the UUID written in `s`, when `s` is one of the textual UUID
/// forms accepted by the `uuid` crate.
pub uninterp spec fn uuid_bytes_of(s: Seq<char>) -> Option<Seq<u8>>;

/// Relies on `sha2::Sha256` (`Digest::digest`): a 32-byte digest that is a
/// function of the input bytes alone.
#[verifier::external_body]
fn sha256(b: &[u8]) -> (r: Vec<u8>)
    ensures
        r@ == sha256_of(b@),
        r@.len() == 32,
{
    <sha2::Sha256 as sha2::Digest>::digest(b).to_vec()
}

/// Relies on `md5::Md5` (`Digest::digest`, crate `md-5`): a 16-byte digest
/// that is a function of the input bytes alone.
#[verifier::external_body]
fn md5_digest(b: &[u8]) -> (r: Vec<u8>)
    ensures
        r@ == md5_of(b@),
        r@.len() == 16,
{
    <md5::Md5 as md5::Digest>::digest(b).to_vec()
}

/// Relies on `aes_gcm::Aes128Gcm` (`KeyInit::new_from_slice`, `Aead::encrypt`
/// with no associated data): on success the ciphertext is the plaintext
/// length plus the 16-byte tag, is a function of key, nonce and plaintext
/// alone, and encryption succeeds whenever the plaintext is far below the
/// AES-GCM length bound (2^36 bytes).
#[verifier::external_body]
fn aes128gcm_seal(key: &[u8], iv: &[u8], msg: &[u8]) -> (r: Option<Vec<u8>>)
    requires
        key@.len() == 16,
        iv@.len() == 12,
    ensures
        r matches Some(c) ==> c@ == aes128gcm_of(key@, iv@, msg@) && c@.len() == msg@.len() + 16,
        msg@.len() <= 65535 ==> r is Some,
{
    let cipher = match <aes_gcm::Aes128Gcm as aes_gcm::KeyInit>::new_from_slice(key) {
        Ok(c) => c,
        Err(_) => return None,
    };
    let nonce = aes_gcm::Nonce::from_slice(iv);
    match aes_gcm::aead::Aead::encrypt(&cipher, nonce, msg) {
        Ok(c) => Some(c),
        Err(_) => None,
    }
}

/// Relies on `rand::thread_rng` (`RngCore::fill_bytes`): fills a buffer of
/// the requested length from a cryptographically strong generator; nothing
/// is assumed about the values.
#[verifier::external_body]
fn random_bytes(n: usize) -> (r: Vec<u8>)
    ensures
        r@.len() == n as nat,
{
    let mut buf = vec![0u8; n];
    rand::RngCore::fill_bytes(&mut rand::thread_rng(), &mut buf);
    buf
}

/// Relies on `chrono::Utc::now` (`timestamp`): the seconds since the Unix
/// epoch at the time of the call; nothing is assumed about the value.
#[verifier::external_body]
fn unix_now_seconds() -> i64 {
    chrono::Utc::now().timestamp()
}

/// Relies on `uuid::Uuid::parse_str` and `Uuid::as_bytes`: parses a textual
/// UUID into its 16 bytes, a function of the text alone; rejection is a
/// function of the text alone as well.
#[verifier::external_body]
pub(crate) fn parse_uuid(s: &str) -> (r: Option<Vec<u8>>)
    ensures
        r is Some <==> uuid_bytes_of(s@) is Some,
        r matches Some(b) ==> Some(b@) == uuid_bytes_of(s@) && b@.len() == 16,
{
    match uuid::Uuid::parse_str(s) {
        Ok(u) => Some(u.as_bytes().to_vec()),
        Err(_) => None,
    }
}

pub struct VmessProxy {
    pub name: String,
    pub server: String,
    pub port: u16,
    /// The 16 bytes of the configured UUID.
    pub uuid: Vec<u8>,
    /// Zero selects the AEAD framing; anything greater the legacy framing.
    pub alter_id: u32,
    pub network: Option<String>,
    pub ws_path: Option<String>,
    pub ws_host: Option<String>,
}

/// The first 16 bytes of `SHA256(uuid || be32(timestamp))`.
pub open spec fn aead_auth_id(uuid: Seq<u8>, ts: u32) -> Seq<u8> {
    sha256_of(uuid + be32(ts)).take(16)
}

/// The AEAD request body: version, options (streaming), security, address
/// type domain, host length and bytes, port, padding length 16 and padding.
pub open spec fn aead_body_bytes(host: Seq<u8>, port: u16, padding: Seq<u8>) -> Seq<u8> {
    seq![0x01u8, 0x01u8, 0x00u8, 0x03u8, host.len() as u8] + host + be16(port) + seq![0x10u8]
        + padding
}

/// The AEAD frame on the wire: auth id, key, iv, ciphertext length,
/// ciphertext (body sealed under key and iv).
pub open spec fn aead_frame_bytes(
    uuid: Seq<u8>,
    host: Seq<u8>,
    port: u16,
    ts: u32,
    padding: Seq<u8>,
    key: Seq<u8>,
    iv: Seq<u8>,
) -> Seq<u8> {
    let ct = aes128gcm_of(key, iv, aead_body_bytes(host, port, padding));
    aead_auth_id(uuid, ts) + key + iv + be16(ct.len() as u16) + ct
}

/// `MD5(uuid || be64(minutes))`, the legacy request key.
pub open spec fn legacy_id_bytes(uuid: Seq<u8>, minutes: u64) -> Seq<u8> {
    md5_of(uuid + be64(minutes))
}

/// The legacy request frame: id, version, options, two zero bytes, padding
/// length 16 and padding, address type domain, host length and bytes, port,
/// zero extra-id length, chunk-stream mask.
pub open spec fn legacy_frame_bytes(
    id: Seq<u8>,
    host: Seq<u8>,
    port: u16,
    padding: Seq<u8>,
) -> Seq<u8> {
    id + seq![0x01u8, 0x01u8, 0x00u8, 0x00u8, 0x10u8] + padding + seq![
        0x03u8,
        host.len() as u8,
    ] + host + be16(port) + seq![0x00u8, 0x01u8]
}

/// Builds the AEAD request frame from the given timestamp, padding, key and
/// iv. The frame is exactly the auth id, key, iv, length field and sealed
/// body; its length is 46 bytes of header plus the body length plus the
/// 16-byte tag, i.e. 86 bytes plus the host length.
pub fn aead_frame(
    uuid: &[u8],
    host: &[u8],
    port: u16,
    ts: u32,
    padding: &[u8],
    key: &[u8],
    iv: &[u8],
) -> (r: Vec<u8>)
    requires
        uuid@.len() == 16,
        host@.len() <= 255,
        padding@.len() == 16,
        key@.len() == 16,
        iv@.len() == 12,
    ensures
        r@ == aead_frame_bytes(uuid@, host@, port, ts, padding@, key@, iv@),
        r@.len() == 46 + aead_body_bytes(host@, port, padding@).len() + 16,
        r@.len() == 86 + host@.len(),
{
    let mut body: Vec<u8> = Vec::new();
    body.push(0x01);
    body.push(0x01);
    body.push(0x00);
    body.push(0x03);
    body.push(host.len() as u8);
    push_bytes(&mut body, host);
    push_be(&mut body, port as u64, 2);
    body.push(0x10);
    push_bytes(&mut body, padding);
    proof {
        lemma_be_bytes_len(port as nat, 2);
        assert(body@ =~= aead_body_bytes(host@, port, padding@));
    }

    let mut hash_input: Vec<u8> = Vec::new();
    push_bytes(&mut hash_input, uuid);
    push_be(&mut hash_input, ts as u64, 4);
    proof {
        lemma_be_bytes_len(ts as nat, 4);
        assert(hash_input@ =~= uuid@ + be32(ts));
    }
    let digest = sha256(hash_input.as_slice());

    let ct = match aes128gcm_seal(key, iv, body.as_slice()) {
        Some(c) => c,
        None => unreached(),
    };
    let ct_len: u16 = ct.len() as u16;

    let mut out: Vec<u8> = Vec::new();
    let mut i: usize = 0;
    while i < 16
        invariant
            i <= 16,
            digest@.len() == 32,
            digest@ == sha256_of(uuid@ + be32(ts)),
            out@ == digest@.take(i as int),
        decreases 16 - i,
    {
        out.push(digest[i]);
        i = i + 1;
        assert(out@ =~= digest@.take(i as int));
    }
    push_bytes(&mut out, key);
    push_bytes(&mut out, iv);
    push_be(&mut out, ct_len as u64, 2);
    push_bytes(&mut out, ct.as_slice());
    proof {
        lemma_be_bytes_len(ct_len as nat, 2);
        assert(out@ =~= aead_frame_bytes(uuid@, host@, port, ts, padding@, key@, iv@));
    }
    out
}

/// Builds the legacy request key for the given minute counter.
pub fn legacy_id(uuid: &[u8], minutes: u64) -> (r: Vec<u8>)
    requires
        uuid@.len() == 16,
    ensures
        r@ == legacy_id_bytes(uuid@, minutes),
        r@.len() == 16,
{
    let mut hash_input: Vec<u8> = Vec::new();
    push_bytes(&mut hash_input, uuid);
    push_be(&mut hash_input, minutes, 8);
    proof {
        lemma_be_bytes_len(minutes as nat, 8);
        assert(hash_input@ =~= uuid@ + be64(minutes));
    }
    md5_digest(hash_input.as_slice())
}

/// Builds the legacy request frame from the given id and padding.
pub fn legacy_frame(id: &[u8], host: &[u8], port: u16, padding: &[u8]) -> (r: Vec<u8>)
    requires
        id@.len() == 16,
        host@.len() <= 255,
        padding@.len() == 16,
    ensures
        r@ == legacy_frame_bytes(id@, host@, port, padding@),
{
    let mut out: Vec<u8> = Vec::new();
    push_bytes(&mut out, id);
    out.push(0x01);
    out.push(0x01);
    out.push(0x00);
    out.push(0x00);
    out.push(0x10);
    push_bytes(&mut out, padding);
    out.push(0x03);
    out.push(host.len() as u8);
    push_bytes(&mut out, host);
    push_be(&mut out, port as u64, 2);
    out.push(0x00);
    out.push(0x01);
    proof {
        lemma_be_bytes_len(port as nat, 2);
        assert(out@ =~= legacy_frame_bytes(id@, host@, port, padding@));
    }
    out
}

impl VmessProxy {
    /// The configured UUID has its full 16 bytes.
    pub open spec fn wf(&self) -> bool {
        self.uuid@.len() == 16
    }

    pub fn new(
        name: String,
        server: String,
        port: u16,
        uuid: Vec<u8>,
        alter_id: u32,
        network: Option<String>,
        ws_path: Option<String>,
        ws_headers: Option<Vec<(String, String)>>,
    ) -> (r: Self)
        requires
            uuid@.len() == 16,
        ensures
            r.wf(),
            r.name@ == name@,
            r.server@ == server@,
            r.port == port,
            r.uuid@ == uuid@,
            r.alter_id == alter_id,
            r.network == network,
            r.ws_path == ws_path,
            match ws_headers {
                Some(h) => {
                    &&& r.ws_host is Some <==> assoc::lookup(h@, "Host"@) is Some
                    &&& r.ws_host matches Some(v) ==> (assoc::lookup(h@, "Host"@) matches Some(s)
                        && s@ == v@)
                },
                None => r.ws_host is None,
            },
    {
        let ws_host: Option<String> = match &ws_headers {
            Some(h) => match assoc::get(h, "Host") {
                Some(v) => Some(v.clone()),
                None => None,
            },
            None => None,
        };
        VmessProxy { name, server, port, uuid, alter_id, network, ws_path, ws_host }
    }

    /// Whether the configured transport is WebSocket, the only transport
    /// this outbound supports.
    pub fn uses_ws_transport(&self) -> (r: bool)
        ensures
            r == (self.network matches Some(n) && n@ == "ws"@),
    {
        let key: String = "ws".to_owned();
        match &self.network {
            Some(n) => *n == key,
            None => false,
        }
    }

    /// The WebSocket URL dialled for the upgrade:
    /// `ws://<ws_host or server>:<port><ws_path or "/">`, in bytes.
    pub fn ws_url_bytes(&self) -> (r: Vec<u8>)
        ensures
            r@ == seq![0x77u8, 0x73u8, 0x3au8, 0x2fu8, 0x2fu8] + encode_utf8(
                match self.ws_host {
                    Some(h) => h@,
                    None => self.server@,
                },
            ) + seq![0x3au8] + dec_bytes(self.port as nat) + (match self.ws_path {
                Some(p) => encode_utf8(p@),
                None => seq![0x2fu8],
            }),
    {
        let mut out: Vec<u8> = Vec::new();
        out.push(0x77);
        out.push(0x73);
        out.push(0x3a);
        out.push(0x2f);
        out.push(0x2f);
        match &self.ws_host {
            Some(h) => push_bytes(&mut out, h.as_str().as_bytes()),
            None => push_bytes(&mut out, self.server.as_str().as_bytes()),
        }
        out.push(0x3a);
        crate::bytesfmt::push_dec(&mut out, self.port);
        match &self.ws_path {
            Some(p) => push_bytes(&mut out, p.as_str().as_bytes()),
            None => out.push(0x2f),
        }
        assert(out@ =~= seq![0x77u8, 0x73u8, 0x3au8, 0x2fu8, 0x2fu8] + encode_utf8(
            match self.ws_host {
                Some(h) => h@,
                None => self.server@,
            },
        ) + seq![0x3au8] + dec_bytes(self.port as nat) + (match self.ws_path {
            Some(p) => encode_utf8(p@),
            None => seq![0x2fu8],
        }));
        out
    }

    /// Builds the AEAD request frame for the destination, drawing the
    /// timestamp from the clock and the padding, key and iv from the strong
    /// generator at call time. Fails exactly when the host does not fit the
    /// one-byte length field.
    pub fn build_aead_request(&self, host: &[u8], port: u16) -> (r: Result<Vec<u8>, VmessError>)
        requires
            self.wf(),
        ensures
            r is Ok <==> host@.len() <= 255,
            r matches Ok(f) ==> exists|ts: u32, padding: Seq<u8>, key: Seq<u8>, iv: Seq<u8>|
                padding.len() == 16 && key.len() == 16 && iv.len() == 12 && f@
                    == #[trigger] aead_frame_bytes(self.uuid@, host@, port, ts, padding, key, iv),
            r matches Ok(f) ==> f@.len() == 86 + host@.len(),
            r matches Err(e) ==> e == VmessError::HostTooLong,
    {
        if host.len() > 255 {
            return Err(VmessError::HostTooLong);
        }
        let ts = clock_seconds_u32();
        let padding = random_bytes(16);
        let key = random_bytes(16);
        let iv = random_bytes(12);
        let frame = aead_frame(
            self.uuid.as_slice(),
            host,
            port,
            ts,
            padding.as_slice(),
            key.as_slice(),
            iv.as_slice(),
        );
        proof {
            assert(frame@ == aead_frame_bytes(self.uuid@, host@, port, ts, padding@, key@, iv@));
        }
        Ok(frame)
    }

    /// Builds the legacy request frame for the destination, drawing the
    /// minute counter from the clock and the padding from the strong
    /// generator at call time. Fails exactly when the host does not fit the
    /// one-byte length field.
    pub fn build_legacy_request(&self, host: &[u8], port: u16) -> (r: Result<Vec<u8>, VmessError>)
        requires
            self.wf(),
        ensures
            r is Ok <==> host@.len() <= 255,
            r matches Ok(f) ==> exists|minutes: u64, padding: Seq<u8>|
                padding.len() == 16 && f@ == #[trigger] legacy_frame_bytes(
                    legacy_id_bytes(self.uuid@, minutes),
                    host@,
                    port,
                    padding,
                ),
            r matches Err(e) ==> e == VmessError::HostTooLong,
    {
        if host.len() > 255 {
            return Err(VmessError::HostTooLong);
        }
        let minutes = clock_minutes_u64();
        let id = legacy_id(self.uuid.as_slice(), minutes);
        let padding = random_bytes(16);
        let frame = legacy_frame(id.as_slice(), host, port, padding.as_slice());
        proof {
            assert(frame@ == legacy_frame_bytes(
                legacy_id_bytes(self.uuid@, minutes),
                host@,
                port,
                padding@,
            ));
        }
        Ok(frame)
    }
}

/// The clock reading used by the AEAD framing: the Unix seconds truncated to
/// 32 bits (clamped at zero for clocks set before the epoch).
fn clock_seconds_u32() -> u32 {
    let secs = unix_now_seconds();
    let nn: i64 = if secs < 0 {
        0
    } else {
        secs
    };
    (nn % 0x1_0000_0000) as u32
}

/// The clock reading used by the legacy framing: the Unix minutes (clamped
/// at zero for clocks set before the epoch).
fn clock_minutes_u64() -> u64 {
    let secs = unix_now_seconds();
    let nn: i64 = if secs < 0 {
        0
    } else {
        secs
    };
    (nn / 60) as u64
}

} // verus!
