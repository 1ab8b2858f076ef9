//! The append-only registry of identities.
//!
//! The registry is a sequence of entries, each an 8-byte little-endian length
//! followed by that many bytes of record. A record is bincode's layout of the
//! tuple (id, name, public key): the id as 16 little-endian bytes, then the
//! name's UTF-8 bytes and the key's bytes, each after its 8-byte length.

use crate::bytes::{
    le_seq, le_value, lemma_le_value_of_le_seq, lemma_u128_bound, pow256, read_u128_le, read_u64_le, to_array,
    u64_le_bytes,
};
use crate::crypto::{ed25519_key_decodes, ed25519_key_valid, ed25519_public_of, random_array};
use crate::identity::AppMetadata;
use vstd::prelude::*;
use vstd::slice::slice_subrange;
use vstd::utf8::{
    decode_utf8, encode_utf8, encode_utf8_decode_utf8, encode_utf8_valid_utf8, valid_utf8,
};

verus! {

/// Why the registry could not be read or written.
#[derive(Debug, Clone, Copy, PartialEq, Eq, Structural)]
pub enum RegistryError {
    /// An entry declares more bytes than the registry holds.
    Truncated,
    /// An entry is too short to hold an id, or its record does not parse.
    Malformed,
    /// The registry ends inside an entry's length, as after a write that
    /// was cut short.
    Unterminated,
    /// The identity could not be encoded.
    Unencodable,
}

/// An identity as the registry records it.
pub struct AppIdentity {
    pub uuid: nat,
    pub name: Seq<char>,
    pub pub_key: Seq<u8>,
}

impl View for AppMetadata {
    type V = AppIdentity;

    open spec fn view(&self) -> AppIdentity {
        AppIdentity { uuid: self.uuid as nat, name: self.name@, pub_key: self.pub_key@ }
    }
}

/// bincode's layout of the tuple `(id, name, key)` as `(u128, &str, &[u8])`.
pub open spec fn record_bytes(id: nat, name: Seq<char>, key: Seq<u8>) -> Seq<u8> {
    le_seq(id, 16) + le_seq(encode_utf8(name).len(), 8) + encode_utf8(name) + le_seq(key.len(), 8)
        + key
}

/// What bincode reads from `b` as a `(u128, String, Vec<u8>)`; bytes after
/// the tuple are ignored.
pub open spec fn record_fields(b: Seq<u8>) -> Option<(nat, Seq<char>, Seq<u8>)> {
    if b.len() < 24 {
        None
    } else {
        let n = le_value(b.subrange(16, 24)) as int;
        if b.len() < 32 + n || !valid_utf8(b.subrange(24, 24 + n)) {
            None
        } else {
            let m = le_value(b.subrange(24 + n, 32 + n)) as int;
            if b.len() < 32 + n + m {
                None
            } else {
                Some(
                    (
                        le_value(b.subrange(0, 16)),
                        decode_utf8(b.subrange(24, 24 + n)),
                        b.subrange(32 + n, 32 + n + m),
                    ),
                )
            }
        }
    }
}

/// The identity that a record holds, where it parses and its key is 32
/// bytes that decode as an Ed25519 public key.
pub open spec fn decode_identity(rec: Seq<u8>) -> Option<AppIdentity> {
    match record_fields(rec) {
        Some(f) => if f.2.len() == 32 && ed25519_key_decodes(f.2) {
            Some(AppIdentity { uuid: f.0, name: f.1, pub_key: f.2 })
        } else {
            None
        },
        None => None,
    }
}

/// The length that the entry at the start of `b` declares.
pub open spec fn entry_size(b: Seq<u8>) -> nat {
    le_value(b.subrange(0, 8))
}

/// The outcome of looking up `id`: entries are read from the start; fewer
/// than 8 bytes where a length is due end the registry.
pub open spec fn find_spec(b: Seq<u8>, id: nat) -> Result<Option<AppIdentity>, RegistryError>
    decreases b.len(),
{
    if b.len() < 8 {
        Ok(None)
    } else {
        let size = entry_size(b) as int;
        if size > b.len() - 8 {
            Err(RegistryError::Truncated)
        } else if size < 16 {
            Err(RegistryError::Malformed)
        } else if le_value(b.subrange(8, 24)) != id {
            find_spec(b.subrange(8 + size, b.len() as int), id)
        } else {
            match decode_identity(b.subrange(8, 8 + size)) {
                Some(app) => Ok(Some(app)),
                None => Err(RegistryError::Malformed),
            }
        }
    }
}

/// The entry that appending `app` writes.
pub open spec fn entry_bytes(app: AppIdentity) -> Seq<u8> {
    let rec = record_bytes(app.uuid, app.name, app.pub_key);
    le_seq(rec.len(), 8) + rec
}

/// A lookup's result, with the identity in its spec form.
pub open spec fn found_view(r: Result<Option<AppMetadata>, RegistryError>) -> Result<
    Option<AppIdentity>,
    RegistryError,
> {
    match r {
        Ok(Some(app)) => Ok(Some(app@)),
        Ok(None) => Ok(None),
        Err(e) => Err(e),
    }
}

/// Relies on bincode's `serialize` of a `(u128, &str, &[u8])`: the id in 16
/// little-endian bytes, then the string's and the slice's bytes, each after
/// its length in 8 little-endian bytes. With fixed-width integers and no
/// size limit this encoding does not fail.
#[verifier::external_body]
fn serialize_record(id: u128, name: &str, key: &[u8]) -> (r: Option<Vec<u8>>)
    ensures
        r is Some,
        r matches Some(b) ==> b@ == record_bytes(id as nat, name@, key@),
{
    bincode::serialize(&(id, name, key)).ok()
}

/// Relies on bincode's `deserialize` into a `(u128, String, Vec<u8>)`.
#[verifier::external_body]
fn deserialize_record(b: &[u8]) -> (r: Option<(u128, String, Vec<u8>)>)
    ensures
        match r {
            Some(f) => record_fields(b@) == Some((f.0 as nat, f.1@, f.2@)),
            None => record_fields(b@) is None,
        },
{
    bincode::deserialize::<(u128, String, Vec<u8>)>(b).ok()
}

/// Reads the identity out of one record.
fn decode_record(rec: &[u8]) -> (r: Option<AppMetadata>)
    ensures
        match r {
            Some(app) => decode_identity(rec@) == Some(app@),
            None => decode_identity(rec@) is None,
        },
{
    match deserialize_record(rec) {
        Some((uuid, name, key)) => {
            if key.len() != 32 {
                return None;
            }
            let pub_key: [u8; 32] = to_array(key.as_slice());
            if !ed25519_key_valid(&pub_key) {
                return None;
            }
            Some(AppMetadata { uuid, name, pub_key })
        },
        None => None,
    }
}

/// Looks up the identity registered under `uuid` in the registry's bytes.
/// An empty registry, and one whose entries end before `uuid` is met, give
/// `Ok(None)`.
pub fn find_app(registry: &[u8], uuid: u128) -> (r: Result<Option<AppMetadata>, RegistryError>)
    ensures
        found_view(r) == find_spec(registry@, uuid as nat),
{
    let n = registry.len();
    let mut pos: usize = 0;
    assert(registry@.subrange(0, n as int) =~= registry@);
    loop
        invariant
            n == registry@.len(),
            pos <= n,
            find_spec(registry@.subrange(pos as int, n as int), uuid as nat) == find_spec(
                registry@,
                uuid as nat,
            ),
        decreases n - pos,
    {
        let cur = slice_subrange(registry, pos, n);
        if n - pos < 8 {
            return Ok(None);
        }
        let size = read_u64_le(cur);
        if size > (n - pos - 8) as u64 {
            return Err(RegistryError::Truncated);
        }
        if size < 16 {
            return Err(RegistryError::Malformed);
        }
        let size = size as usize;
        let body = slice_subrange(registry, pos + 8, pos + 8 + size);
        assert(body@ =~= cur@.subrange(8, 8 + size));
        let entry_uuid = read_u128_le(body);
        assert(body@.subrange(0, 16) =~= cur@.subrange(8, 24));
        if entry_uuid != uuid {
            assert(cur@.subrange(8 + size, cur@.len() as int) =~= registry@.subrange(
                pos + 8 + size,
                n as int,
            ));
            pos = pos + 8 + size;
        } else {
            return match decode_record(body) {
                Some(app) => Ok(Some(app)),
                None => Err(RegistryError::Malformed),
            };
        }
    }
}

/// Whether a record for the identity fits the 8-byte length of its entry.
pub open spec fn record_fits(app: AppIdentity) -> bool {
    record_bytes(app.uuid, app.name, app.pub_key).len() < pow256(8)
}

/// Appends `app` to the registry's bytes: its record's length in 8
/// little-endian bytes, then the record.
pub fn append_app(registry: &mut Vec<u8>, app: &AppMetadata) -> (r: Result<(), RegistryError>)
    ensures
        r is Ok,
        record_fits(app@),
        match r {
            Ok(()) => final(registry)@ == old(registry)@ + entry_bytes(app@),
            Err(e) => e == RegistryError::Unencodable && final(registry)@ == old(registry)@,
        },
{
    let rec = match serialize_record(app.uuid, app.name.as_str(), app.pub_key.as_slice()) {
        Some(rec) => rec,
        None => return Err(RegistryError::Unencodable),
    };
    proof {
        reveal_with_fuel(pow256, 9);
    }
    let prefix = u64_le_bytes(rec.len() as u64);
    registry.extend_from_slice(prefix.as_slice());
    registry.extend_from_slice(rec.as_slice());
    assert(final(registry)@ =~= old(registry)@ + entry_bytes(app@));
    Ok(())
}

impl AppMetadata {
    /// Appends the identity for `uuid` and `name` whose key is the public
    /// half of `seed`, and returns it.
    pub fn register_with_seed(uuid: u128, name: String, seed: &[u8; 32], registry: &mut Vec<u8>) -> (r:
        AppMetadata)
        ensures
            r.uuid == uuid,
            r.name@ == name@,
            r.pub_key@ == ed25519_public_of(seed@),
            identity_valid(r@),
            final(registry)@ == old(registry)@ + entry_bytes(r@),
    {
        let app = match AppMetadata::from_seed(uuid, name, seed) {
            Some(app) => app,
            // Not reached: every 32-byte seed has a public key.
            None => AppMetadata { uuid, name: String::new(), pub_key: [0u8; 32] },
        };
        let _ = append_app(registry, &app);
        proof {
            lemma_u128_bound(uuid);
        }
        app
    }

    /// Issues a fresh signing seed for `uuid` and `name`, and appends the
    /// identity holding the seed's public key to the registry. `None`, with
    /// the registry untouched, where the operating system gives no random
    /// bytes.
    pub fn register(uuid: u128, name: String, registry: &mut Vec<u8>) -> (r: Option<(AppMetadata, [u8; 32])>)
        ensures
            match r {
                Some((app, seed)) => {
                    &&& app.uuid == uuid
                    &&& app.name@ == name@
                    &&& app.pub_key@ == ed25519_public_of(seed@)
                    &&& final(registry)@ == old(registry)@ + entry_bytes(app@)
                },
                None => final(registry)@ == old(registry)@,
            },
    {
        match random_array::<32>() {
            Some(seed) => {
                let app = AppMetadata::register_with_seed(uuid, name, &seed, registry);
                Some((app, seed))
            },
            None => None,
        }
    }
}

/// Whether the registry's bytes end where an entry ends.
pub fn is_framed(registry: &[u8]) -> (r: bool)
    ensures
        r == framed(registry@),
{
    let n = registry.len();
    let mut pos: usize = 0;
    assert(registry@.subrange(0, n as int) =~= registry@);
    loop
        invariant
            n == registry@.len(),
            pos <= n,
            framed(registry@.subrange(pos as int, n as int)) == framed(registry@),
        decreases n - pos,
    {
        let cur = slice_subrange(registry, pos, n);
        if pos == n {
            return true;
        }
        if n - pos < 8 {
            return false;
        }
        let size = read_u64_le(cur);
        if size > (n - pos - 8) as u64 || size < 16 {
            return false;
        }
        let size = size as usize;
        assert(cur@.subrange(8 + size, cur@.len() as int) =~= registry@.subrange(
            pos + 8 + size,
            n as int,
        ));
        pos = pos + 8 + size;
    }
}

/// Every entry is whole and long enough to hold an id, and the registry
/// ends where an entry ends.
pub open spec fn framed(b: Seq<u8>) -> bool
    decreases b.len(),
{
    if b.len() == 0 {
        true
    } else if b.len() < 8 {
        false
    } else {
        let size = entry_size(b) as int;
        16 <= size <= b.len() - 8 && framed(b.subrange(8 + size, b.len() as int))
    }
}

/// How many entries of a registry carry `id`.
pub open spec fn id_count(b: Seq<u8>, id: nat) -> nat
    decreases b.len(),
{
    if b.len() < 8 {
        0
    } else {
        let size = entry_size(b) as int;
        if size < 16 || size > b.len() - 8 {
            0
        } else {
            (if le_value(b.subrange(8, 24)) == id {
                1nat
            } else {
                0nat
            }) + id_count(b.subrange(8 + size, b.len() as int), id)
        }
    }
}

/// An identity that an entry can hold: a 128-bit id, a record that fits
/// its entry's length, and a key of 32 bytes that decode as an Ed25519
/// public key.
pub open spec fn identity_valid(app: AppIdentity) -> bool {
    &&& app.uuid < pow256(16)
    &&& record_fits(app)
    &&& app.pub_key.len() == 32
    &&& ed25519_key_decodes(app.pub_key)
}

/// An entry written for a valid identity is one whole entry, which holds
/// that identity.
proof fn lemma_entry(app: AppIdentity)
    requires
        identity_valid(app),
    ensures
        framed(entry_bytes(app)),
        find_spec(entry_bytes(app), app.uuid) == Ok::<Option<AppIdentity>, RegistryError>(Some(app)),
        id_count(entry_bytes(app), app.uuid) == 1,
{
    let name = encode_utf8(app.name);
    let nb = name.len() as int;
    let rec = record_bytes(app.uuid, app.name, app.pub_key);
    let rl = rec.len() as int;
    let e = entry_bytes(app);
    reveal_with_fuel(pow256, 9);
    lemma_le_value_of_le_seq(app.uuid, 16);
    lemma_le_value_of_le_seq(nb as nat, 8);
    lemma_le_value_of_le_seq(32, 8);
    lemma_le_value_of_le_seq(rec.len(), 8);
    encode_utf8_valid_utf8(app.name);
    encode_utf8_decode_utf8(app.name);
    assert(rec.len() == 64 + nb);
    assert(rec.subrange(0, 16) =~= le_seq(app.uuid, 16));
    assert(rec.subrange(16, 24) =~= le_seq(nb as nat, 8));
    assert(rec.subrange(24, 24 + nb) =~= name);
    assert(rec.subrange(24 + nb, 32 + nb) =~= le_seq(32, 8));
    assert(rec.subrange(32 + nb, 64 + nb) =~= app.pub_key);
    assert(decode_identity(rec) == Some(app));
    assert(e.subrange(0, 8) =~= le_seq(rec.len(), 8));
    assert(e.subrange(8, 8 + rl) =~= rec);
    assert(e.subrange(8, 24) =~= rec.subrange(0, 16));
    assert(e.subrange(8 + rl, e.len() as int) =~= Seq::<u8>::empty());
    assert(framed(Seq::<u8>::empty()));
    assert(id_count(Seq::<u8>::empty(), app.uuid) == 0);
}

proof fn lemma_find_concat(a: Seq<u8>, x: Seq<u8>, id: nat)
    requires
        framed(a),
        find_spec(a, id) == Ok::<Option<AppIdentity>, RegistryError>(None),
    ensures
        find_spec(a + x, id) == find_spec(x, id),
    decreases a.len(),
{
    let ax = a + x;
    if a.len() == 0 {
        assert(ax =~= x);
    } else {
        let size = entry_size(a) as int;
        assert(ax.subrange(0, 8) =~= a.subrange(0, 8));
        assert(ax.subrange(8, 24) =~= a.subrange(8, 24));
        assert(ax.subrange(8 + size, ax.len() as int) =~= a.subrange(8 + size, a.len() as int) + x);
        lemma_find_concat(a.subrange(8 + size, a.len() as int), x, id);
    }
}

proof fn lemma_framed_concat(a: Seq<u8>, x: Seq<u8>)
    requires
        framed(a),
        framed(x),
    ensures
        framed(a + x),
    decreases a.len(),
{
    let ax = a + x;
    if a.len() == 0 {
        assert(ax =~= x);
    } else {
        let size = entry_size(a) as int;
        assert(ax.subrange(0, 8) =~= a.subrange(0, 8));
        assert(ax.subrange(8 + size, ax.len() as int) =~= a.subrange(8 + size, a.len() as int) + x);
        lemma_framed_concat(a.subrange(8 + size, a.len() as int), x);
    }
}

proof fn lemma_id_count_concat(a: Seq<u8>, x: Seq<u8>, id: nat)
    requires
        framed(a),
    ensures
        id_count(a + x, id) == id_count(a, id) + id_count(x, id),
    decreases a.len(),
{
    let ax = a + x;
    if a.len() == 0 {
        assert(ax =~= x);
    } else {
        let size = entry_size(a) as int;
        assert(ax.subrange(0, 8) =~= a.subrange(0, 8));
        assert(ax.subrange(8, 24) =~= a.subrange(8, 24));
        assert(ax.subrange(8 + size, ax.len() as int) =~= a.subrange(8 + size, a.len() as int) + x);
        lemma_id_count_concat(a.subrange(8 + size, a.len() as int), x, id);
    }
}

/// A framed registry in which a lookup finds nothing holds no entry for
/// the id.
pub proof fn lemma_id_count_absent(a: Seq<u8>, id: nat)
    requires
        framed(a),
        find_spec(a, id) == Ok::<Option<AppIdentity>, RegistryError>(None),
    ensures
        id_count(a, id) == 0,
    decreases a.len(),
{
    if a.len() > 0 {
        let size = entry_size(a) as int;
        lemma_id_count_absent(a.subrange(8 + size, a.len() as int), id);
    }
}

/// Looking an id up in an empty registry, as when no registry file exists,
/// finds nothing and is no error.
pub proof fn lemma_find_in_empty_registry(id: nat)
    ensures
        find_spec(Seq::empty(), id) == Ok::<Option<AppIdentity>, RegistryError>(None),
{
}

/// After a valid identity is appended to a framed registry that holds no
/// entry for its id, looking the id up gives that identity; the registry
/// stays framed and holds exactly one entry for the id.
pub proof fn lemma_find_after_append(registry: Seq<u8>, app: AppIdentity)
    requires
        framed(registry),
        find_spec(registry, app.uuid) == Ok::<Option<AppIdentity>, RegistryError>(None),
        identity_valid(app),
    ensures
        find_spec(registry + entry_bytes(app), app.uuid) == Ok::<Option<AppIdentity>, RegistryError>(
            Some(app),
        ),
        framed(registry + entry_bytes(app)),
        id_count(registry + entry_bytes(app), app.uuid) == 1,
{
    lemma_entry(app);
    lemma_find_concat(registry, entry_bytes(app), app.uuid);
    lemma_framed_concat(registry, entry_bytes(app));
    lemma_id_count_concat(registry, entry_bytes(app), app.uuid);
    lemma_id_count_absent(registry, app.uuid);
}

} // verus!
