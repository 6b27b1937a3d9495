//! What an opened service was opened from, as a digest: a change of the
//! connection, its settings, its tunnels or its secrets changes what is
//! digested.
use crate::adapter::RuntimeEndpoint;
use crate::digest;
use crate::digest::sha256_absorb;
use crate::digest::sha256_finish;
use crate::digest::sha256_start;
use crate::secrets;
use crate::secrets::secret_key;
use crate::secrets::ResolvedSecrets;
use vstd::bytes::*;
use vstd::prelude::*;
use vstd::utf8::*;

verus! {

/// Bytes behind their number, as eight bytes.
pub open spec fn framed(bytes: Seq<u8>) -> Seq<u8> {
    spec_u64_to_le_bytes(bytes.len() as u64) + bytes
}

/// The names and values of the secrets from one on.
pub open spec fn secret_frames(given: Map<Seq<char>, Seq<char>>, first: int) -> Seq<u8>
    decreases secrets::SECRET_COUNT - first,
{
    if first >= secrets::SECRET_COUNT {
        Seq::empty()
    } else {
        framed(encode_utf8(secrets::secret_name(first))) + framed(
            encode_utf8(secrets::secret_in(given, secrets::secret_name(first))),
        ) + secret_frames(given, first + 1)
    }
}

/// What is digested of a connection: its own encoding, that of its settings and
/// that of its tunnels, and its secrets.
pub open spec fn base_content(
    connection: Seq<u8>,
    config: Seq<u8>,
    layers: Seq<u8>,
    given: Map<Seq<char>, Seq<char>>,
) -> Seq<u8> {
    framed(connection) + framed(config) + framed(layers) + secret_frames(given, 0)
}

/// What is digested of an opened service: the digest of its connection, and
/// where its tunnel lets it in.
pub open spec fn full_content(base: Seq<u8>, tunnel: Option<RuntimeEndpoint>) -> Seq<u8> {
    match tunnel {
        Some(entry) => base + framed(encode_utf8(entry.host@)) + spec_u16_to_le_bytes(entry.port),
        None => base,
    }
}

fn absorb_frame(hasher: &mut sha2::Sha256, bytes: &[u8])
    ensures
        digest::absorbed(*final(hasher)) == digest::absorbed(*old(hasher)) + framed(bytes@),
{
    let length: u64 = bytes.len() as u64;
    let head = u64_to_le_bytes(length);
    sha256_absorb(hasher, head.as_slice());
    sha256_absorb(hasher, bytes);
    assert(digest::absorbed(*hasher) =~= digest::absorbed(*old(hasher)) + framed(bytes@));
}

impl ResolvedSecrets {
    /// Feeds the names and values of the secrets, in their order.
    pub(crate) fn update_fingerprint(&self, hasher: &mut sha2::Sha256)
        ensures
            digest::absorbed(*final(hasher)) == digest::absorbed(*old(hasher)) + secret_frames(self@, 0),
    {
        let mut field: usize = 0;
        let ghost before = digest::absorbed(*hasher);
        while field < secrets::SECRET_COUNT
            invariant
                field <= secrets::SECRET_COUNT,
                digest::absorbed(*hasher) + secret_frames(self@, field as int) == before + secret_frames(self@, 0),
            decreases secrets::SECRET_COUNT - field,
        {
            let ghost fed = digest::absorbed(*hasher);
            let key = secret_key(field);
            absorb_frame(hasher, key.as_bytes());
            let value = self.get(key);
            absorb_frame(hasher, value.as_bytes());
            proof {
                assert(digest::absorbed(*hasher) + secret_frames(self@, field + 1) =~= fed + secret_frames(
                    self@,
                    field as int,
                ));
            }
            field = field + 1;
        }
        assert(digest::absorbed(*hasher) =~= before + secret_frames(self@, 0));
    }
}

/// The digest of a connection, from its encoding, that of its settings and that
/// of its tunnels, and from its secrets.
pub fn base_fingerprint(connection: &[u8], config: &[u8], layers: &[u8], secrets: &ResolvedSecrets) -> (fingerprint: [u8;
    32])
    ensures
        fingerprint@ == digest::sha256(base_content(connection@, config@, layers@, secrets@)),
{
    let mut hasher = sha256_start();
    absorb_frame(&mut hasher, connection);
    absorb_frame(&mut hasher, config);
    absorb_frame(&mut hasher, layers);
    secrets.update_fingerprint(&mut hasher);
    assert(digest::absorbed(hasher) =~= base_content(connection@, config@, layers@, secrets@));
    sha256_finish(hasher)
}

/// The digest of an opened service, from that of its connection and from where
/// its tunnel lets it in.
pub fn full_fingerprint(base: [u8; 32], runtime_endpoint: Option<&RuntimeEndpoint>) -> (fingerprint: [u8; 32])
    ensures
        fingerprint@ == digest::sha256(full_content(base@, crate::adapter::tunnel_of(runtime_endpoint))),
{
    let mut hasher = sha256_start();
    sha256_absorb(&mut hasher, &base);
    assert(digest::absorbed(hasher) =~= base@);
    match runtime_endpoint {
        Some(runtime) => {
            absorb_frame(&mut hasher, runtime.host.as_str().as_bytes());
            let port = u16_to_le_bytes(runtime.port);
            sha256_absorb(&mut hasher, port.as_slice());
        },
        None => {},
    }
    sha256_finish(hasher)
}

// A frame in front of anything is found again.
proof fn lemma_frame(left: Seq<u8>, left_rest: Seq<u8>, right: Seq<u8>, right_rest: Seq<u8>)
    requires
        framed(left) + left_rest == framed(right) + right_rest,
        left.len() <= u64::MAX,
        right.len() <= u64::MAX,
    ensures
        left == right,
        left_rest == right_rest,
{
    lemma_auto_spec_u64_to_from_le_bytes();
    let first = spec_u64_to_le_bytes(left.len() as u64);
    let second = spec_u64_to_le_bytes(right.len() as u64);
    let all = framed(left) + left_rest;
    let same = framed(right) + right_rest;
    assert(first =~= all.take(8));
    assert(second =~= same.take(8));
    assert(spec_u64_from_le_bytes(first) == left.len());
    assert(spec_u64_from_le_bytes(second) == right.len());
    assert(left =~= all.subrange(8, 8 + left.len() as int));
    assert(right =~= same.subrange(8, 8 + right.len() as int));
    assert(left_rest =~= all.skip(8 + left.len() as int));
    assert(right_rest =~= same.skip(8 + right.len() as int));
}

/// Every secret is short enough for its length to be written.
pub open spec fn secrets_fit(given: Map<Seq<char>, Seq<char>>) -> bool {
    forall|i: int|
        0 <= i < secrets::SECRET_COUNT ==> encode_utf8(
            secrets::secret_in(given, #[trigger] secrets::secret_name(i)),
        ).len() <= u64::MAX
}

proof fn lemma_name_fits(field: int)
    ensures
        encode_utf8(secrets::secret_name(field)).len() <= u64::MAX,
{
    reveal_strlit("password");
    reveal_strlit("private_key");
    reveal_strlit("access_key");
    reveal_strlit("secret_key");
    reveal_strlit("session_token");
    reveal_strlit("bearer_token");
    reveal_strlit("delegation_token");
    is_ascii_chars_encode_utf8(secrets::secret_name(field));
}

proof fn lemma_secret_frames(left: Map<Seq<char>, Seq<char>>, right: Map<Seq<char>, Seq<char>>, first: int)
    requires
        0 <= first <= secrets::SECRET_COUNT,
        secrets_fit(left),
        secrets_fit(right),
        secret_frames(left, first) == secret_frames(right, first),
    ensures
        forall|i: int|
            first <= i < secrets::SECRET_COUNT ==> secrets::secret_in(left, #[trigger] secrets::secret_name(i))
                == secrets::secret_in(right, secrets::secret_name(i)),
    decreases secrets::SECRET_COUNT - first,
{
    if first < secrets::SECRET_COUNT {
        let name = secrets::secret_name(first);
        let mine = encode_utf8(secrets::secret_in(left, name));
        let other = encode_utf8(secrets::secret_in(right, name));
        lemma_name_fits(first);
        let left_tail = framed(mine) + secret_frames(left, first + 1);
        let right_tail = framed(other) + secret_frames(right, first + 1);
        assert(secret_frames(left, first) =~= framed(encode_utf8(name)) + left_tail);
        assert(secret_frames(right, first) =~= framed(encode_utf8(name)) + right_tail);
        lemma_frame(encode_utf8(name), left_tail, encode_utf8(name), right_tail);
        lemma_frame(mine, secret_frames(left, first + 1), other, secret_frames(right, first + 1));
        encode_utf8_decode_utf8(secrets::secret_in(left, name));
        encode_utf8_decode_utf8(secrets::secret_in(right, name));
        lemma_secret_frames(left, right, first + 1);
    }
}

/// What is digested of a connection keeps its parts apart: two connections of
/// which the same is digested have the same encodings and the same secrets.
pub proof fn digested_parts_are_kept_apart(
    connection: Seq<u8>,
    config: Seq<u8>,
    layers: Seq<u8>,
    given: Map<Seq<char>, Seq<char>>,
    other_connection: Seq<u8>,
    other_config: Seq<u8>,
    other_layers: Seq<u8>,
    other_given: Map<Seq<char>, Seq<char>>,
)
    requires
        connection.len() <= u64::MAX && config.len() <= u64::MAX && layers.len() <= u64::MAX,
        other_connection.len() <= u64::MAX && other_config.len() <= u64::MAX && other_layers.len() <= u64::MAX,
        secrets_fit(given),
        secrets_fit(other_given),
        base_content(connection, config, layers, given) == base_content(
            other_connection,
            other_config,
            other_layers,
            other_given,
        ),
    ensures
        connection == other_connection,
        config == other_config,
        layers == other_layers,
        forall|i: int|
            0 <= i < secrets::SECRET_COUNT ==> secrets::secret_in(given, #[trigger] secrets::secret_name(i))
                == secrets::secret_in(other_given, secrets::secret_name(i)),
{
    let tail = framed(layers) + secret_frames(given, 0);
    let other_tail = framed(other_layers) + secret_frames(other_given, 0);
    assert(base_content(connection, config, layers, given) =~= framed(connection) + (framed(config) + tail));
    assert(base_content(other_connection, other_config, other_layers, other_given) =~= framed(other_connection) + (
    framed(other_config) + other_tail));
    lemma_frame(connection, framed(config) + tail, other_connection, framed(other_config) + other_tail);
    lemma_frame(config, tail, other_config, other_tail);
    lemma_frame(layers, secret_frames(given, 0), other_layers, secret_frames(other_given, 0));
    lemma_secret_frames(given, other_given, 0);
}

/// What is digested of an opened service keeps its connection and its tunnel
/// apart: two services of which the same is digested have the same connection and
/// are let in at the same place.
pub proof fn digested_tunnels_are_kept_apart(
    base: Seq<u8>,
    tunnel: Option<RuntimeEndpoint>,
    other_base: Seq<u8>,
    other_tunnel: Option<RuntimeEndpoint>,
)
    requires
        base.len() == 32,
        other_base.len() == 32,
        tunnel matches Some(entry) ==> encode_utf8(entry.host@).len() <= u64::MAX,
        other_tunnel matches Some(entry) ==> encode_utf8(entry.host@).len() <= u64::MAX,
        full_content(base, tunnel) == full_content(other_base, other_tunnel),
    ensures
        base == other_base,
        tunnel is Some <==> other_tunnel is Some,
        tunnel is Some && other_tunnel is Some ==> tunnel->0.host@ == other_tunnel->0.host@ && tunnel->0.port
            == other_tunnel->0.port,
{
    lemma_auto_spec_u64_to_from_le_bytes();
    lemma_auto_spec_u16_to_from_le_bytes();
    let full = full_content(base, tunnel);
    let other_full = full_content(other_base, other_tunnel);
    assert(full.take(32) =~= base);
    assert(other_full.take(32) =~= other_base);
    match (tunnel, other_tunnel) {
        (Some(entry), Some(other)) => {
            let mine = framed(encode_utf8(entry.host@)) + spec_u16_to_le_bytes(entry.port);
            let theirs = framed(encode_utf8(other.host@)) + spec_u16_to_le_bytes(other.port);
            assert(full.skip(32) =~= mine);
            assert(other_full.skip(32) =~= theirs);
            lemma_frame(
                encode_utf8(entry.host@),
                spec_u16_to_le_bytes(entry.port),
                encode_utf8(other.host@),
                spec_u16_to_le_bytes(other.port),
            );
            encode_utf8_decode_utf8(entry.host@);
            encode_utf8_decode_utf8(other.host@);
            assert(spec_u16_from_le_bytes(spec_u16_to_le_bytes(entry.port)) == entry.port);
            assert(spec_u16_from_le_bytes(spec_u16_to_le_bytes(other.port)) == other.port);
        },
        (Some(entry), None) => {
            assert(framed(encode_utf8(entry.host@)).len() >= 8);
            assert(full.len() > 32);
        },
        (None, Some(other)) => {
            assert(framed(encode_utf8(other.host@)).len() >= 8);
            assert(other_full.len() > 32);
        },
        (None, None) => {},
    }
}

} // verus!
