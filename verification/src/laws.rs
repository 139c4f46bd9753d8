//! Cross-operation laws of the library, stated over the same spec functions
//! the operations' contracts use, and proved once and for all.

use vstd::prelude::*;

use crate::driver::sim_signature;
use crate::driver::ContextBlob;
use crate::driver::Signature;
use crate::driver::WIRE_BUFFER_SIZE;
use crate::transient::blob_is_rsa;
use crate::transient::blob_modulus;
use crate::transient::context_preserved;
use crate::transient::created_key_ok;
use crate::transient::imported_key_ok;
use crate::transient::read_key_ok;
use crate::transient::signature_ok;
use crate::transient::slots_preserved;
use crate::transient::valid_key_size;
use crate::transient::verification_accepts;
use crate::transient::TransientObjectContext;

verus! {

/// Round trip through import: a blob produced by importing `bytes` reads back
/// as exactly `bytes`, whatever their accepted length.
pub proof fn lemma_import_read_round_trip(bytes: Seq<u8>, blob: ContextBlob, out: Seq<u8>)
    requires
        imported_key_ok(bytes, blob),
        read_key_ok(blob, out),
    ensures
        out == bytes,
{
}

/// Round trip through creation: a blob produced by creating a signing key of
/// an accepted size reads back as a modulus of exactly one eighth of that
/// size — 256 bytes for a 2048-bit key, 128 bytes for a 1024-bit key.
pub proof fn lemma_create_read_round_trip(
    key_size: usize,
    auth_size: usize,
    blob: ContextBlob,
    auth: Seq<u8>,
    out: Seq<u8>,
)
    requires
        valid_key_size(key_size),
        created_key_ok(key_size, auth_size, blob, auth),
        read_key_ok(blob, out),
    ensures
        out.len() == key_size as int / 8,
        key_size == 2048 ==> out.len() == 256,
        key_size == 1024 ==> out.len() == 128,
{
}

/// Round trip through signing: the signature that `sign` promises for a key
/// and digest is one that `verify_signature` accepts for the same key and
/// digest.
pub proof fn lemma_sign_verify_round_trip(blob: ContextBlob, digest: Seq<u8>, sig: Signature)
    requires
        blob_is_rsa(blob),
        blob_modulus(blob).len() <= WIRE_BUFFER_SIZE as int,
        signature_ok(blob, digest, sig),
    ensures
        verification_accepts(blob, digest, sig),
{
    assert(sig.signature@.len() == blob_modulus(blob).len());
}

/// A corrupted signature — any whose bytes are not the module's signature of
/// the digest under the key — is never accepted; corrupting the digest
/// rejects in the same way, since acceptance compares against the signature
/// of the digest presented.
pub proof fn lemma_verify_rejects_corrupted(blob: ContextBlob, digest: Seq<u8>, sig: Signature)
    requires
        sig.signature@ != sim_signature(blob_modulus(blob), digest),
    ensures
        !verification_accepts(blob, digest, sig),
{
}

/// Slot accounting composes: operations that each leave the occupied-slot
/// table as they found it do so in any sequence.
pub proof fn lemma_slots_preserved_transitive(
    a: TransientObjectContext,
    b: TransientObjectContext,
    c: TransientObjectContext,
)
    requires
        slots_preserved(a, b),
        slots_preserved(b, c),
    ensures
        slots_preserved(a, c),
{
}

/// What every operation preserves of the context — invariant, root key,
/// session, fault, slot occupancy — is preserved by any sequence of them.
pub proof fn lemma_context_preserved_transitive(
    a: TransientObjectContext,
    b: TransientObjectContext,
    c: TransientObjectContext,
)
    requires
        context_preserved(a, b),
        context_preserved(b, c),
    ensures
        context_preserved(a, c),
{
}

} // verus!
