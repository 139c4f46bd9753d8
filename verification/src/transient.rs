//! The public facade: operations on portable context blobs.
//!
//! A [`TransientObjectContext`] owns one driver, one root-key handle derived
//! at construction, and the authenticated session bound to it.  Every public
//! operation converts a blob into a live handle, asserts the session
//! attributes, performs the module operation, and — on every path, error
//! paths included — flushes the handle before returning.  The contracts state
//! that the occupied-slot table is exactly the same after each operation as
//! before it: only the root key and the session persist.

use vstd::prelude::*;

use crate::driver::clone_object;
use crate::driver::cmd_frame;
use crate::driver::get_rsa_public;
use crate::driver::sim_signature;
use crate::driver::slots_same;
use crate::driver::zero_pad;
use crate::driver::ContextBlob;
use crate::driver::Driver;
use crate::driver::FaultCommand;
use crate::driver::HashcheckTicket;
use crate::driver::PublicId;
use crate::driver::SigScheme;
use crate::driver::Signature;
use crate::driver::TpmtTkVerified;
use crate::driver::TransportConfig;
use crate::driver::WireSignature;
use crate::driver::ALG_NULL;
use crate::driver::ALG_RSASSA;
use crate::driver::RH_NULL;
use crate::driver::RH_OWNER;
use crate::driver::SLOT_TABLE_SIZE;
use crate::driver::ST_HASHCHECK;
use crate::driver::ST_VERIFIED;
use crate::driver::WIRE_BUFFER_SIZE;
use crate::errors::DriverError;
use crate::errors::Error;

verus! {

/// The blob snapshots an RSA key object.
pub closed spec fn blob_is_rsa(blob: ContextBlob) -> bool {
    blob.object.is_rsa()
}

/// The modulus bytes of the RSA key a blob snapshots.
pub closed spec fn blob_modulus(blob: ContextBlob) -> Seq<u8> {
    blob.object.modulus_spec()
}

/// The authorization value of the RSA key a blob snapshots.
pub closed spec fn blob_auth(blob: ContextBlob) -> Seq<u8> {
    blob.object.auth_spec()
}

/// Whether the snapshotted key holds its private half.
pub closed spec fn blob_has_private(blob: ContextBlob) -> bool {
    blob.object.has_private_spec()
}

/// Whether the snapshotted key may sign.
pub closed spec fn blob_sign_capable(blob: ContextBlob) -> bool {
    blob.object.sign_cap_spec()
}

/// Whether the snapshotted key is restricted.
pub closed spec fn blob_restricted(blob: ContextBlob) -> bool {
    blob.object.restricted_spec()
}

/// An accepted key size, in bits.
pub open spec fn valid_key_size(key_size: usize) -> bool {
    key_size == 1024 || key_size == 2048
}

/// An accepted authorization-value length, in bytes.
pub open spec fn valid_auth_size(auth_size: usize) -> bool {
    auth_size <= 32
}

/// An accepted public-key byte length: 128 or 256 bytes, for 1024- and
/// 2048-bit keys.
pub open spec fn valid_modulus_len(len: nat) -> bool {
    len == 128 || len == 256
}

/// The configured fault hits one of the commands that construction issues.
pub open spec fn construction_faults(
    fault: Option<FaultCommand>,
    root_key_auth_size: usize,
    owner_hierarchy_auth: Seq<u8>,
) -> bool {
    ||| (root_key_auth_size > 0 && fault == Some(FaultCommand::GetRandom))
    ||| (owner_hierarchy_auth.len() > 0 && fault == Some(FaultCommand::SetHandleAuth))
    ||| fault == Some(FaultCommand::CreatePrimaryKey)
    ||| fault == Some(FaultCommand::StartAuthSession)
}

/// The configured fault hits one of the commands that key creation issues.
pub open spec fn create_key_faults(fault: Option<FaultCommand>, auth_size: usize) -> bool {
    ||| fault == Some(FaultCommand::SetSessionAttr)
    ||| (auth_size > 0 && fault == Some(FaultCommand::GetRandom))
    ||| fault == Some(FaultCommand::CreateKey)
    ||| fault == Some(FaultCommand::Load)
    ||| fault == Some(FaultCommand::ContextSave)
}

/// The configured fault hits one of the commands that key import issues.
pub open spec fn import_faults(fault: Option<FaultCommand>) -> bool {
    ||| fault == Some(FaultCommand::SetSessionAttr)
    ||| fault == Some(FaultCommand::LoadExternalPublic)
    ||| fault == Some(FaultCommand::ContextSave)
}

/// The configured fault hits one of the commands that reading a public key
/// issues.
pub open spec fn read_faults(fault: Option<FaultCommand>) -> bool {
    ||| fault == Some(FaultCommand::SetSessionAttr)
    ||| fault == Some(FaultCommand::ContextLoad)
    ||| fault == Some(FaultCommand::ReadPublic)
}

/// The configured fault hits a command that signing issues before the
/// authorization value is bound to the loaded handle.
pub open spec fn sign_faults_early(fault: Option<FaultCommand>) -> bool {
    ||| fault == Some(FaultCommand::SetSessionAttr)
    ||| fault == Some(FaultCommand::ContextLoad)
}

/// The configured fault hits one of the commands that signing issues.
pub open spec fn sign_faults(fault: Option<FaultCommand>) -> bool {
    ||| sign_faults_early(fault)
    ||| fault == Some(FaultCommand::SetHandleAuth)
    ||| fault == Some(FaultCommand::Sign)
}

/// The configured fault hits a command that verification issues before the
/// signature is converted to its wire form.
pub open spec fn verify_faults_early(fault: Option<FaultCommand>) -> bool {
    ||| fault == Some(FaultCommand::SetSessionAttr)
    ||| fault == Some(FaultCommand::ContextLoad)
}

/// The configured fault hits one of the commands that verification issues.
pub open spec fn verify_faults(fault: Option<FaultCommand>) -> bool {
    verify_faults_early(fault) || fault == Some(FaultCommand::VerifySignature)
}

/// What `create_rsa_signing_key` promises of its blob and authorization
/// value: a sign-only, non-restricted RSA key of the requested size, its
/// private half present, secured by the returned authorization value, whose
/// length is the requested one.
pub open spec fn created_key_ok(
    key_size: usize,
    auth_size: usize,
    blob: ContextBlob,
    auth: Seq<u8>,
) -> bool {
    &&& blob_is_rsa(blob)
    &&& blob_has_private(blob)
    &&& blob_sign_capable(blob)
    &&& !blob_restricted(blob)
    &&& blob_modulus(blob).len() == key_size as int / 8
    &&& auth.len() == auth_size
    &&& blob_auth(blob) == auth
}

/// What `load_external_rsa_public_key` promises of its blob: a sign-only RSA
/// public key holding exactly the imported bytes, no private half, no
/// authorization value.
pub open spec fn imported_key_ok(bytes: Seq<u8>, blob: ContextBlob) -> bool {
    &&& blob_is_rsa(blob)
    &&& !blob_has_private(blob)
    &&& blob_sign_capable(blob)
    &&& blob_modulus(blob) == bytes
    &&& blob_auth(blob) == Seq::<u8>::empty()
}

/// What `read_public_key` promises of its result: exactly the modulus bytes
/// of the key the blob snapshots.
pub open spec fn read_key_ok(blob: ContextBlob, bytes: Seq<u8>) -> bool {
    bytes == blob_modulus(blob)
}

/// What `sign` promises of its signature: the module's signature of the
/// digest under the blob's key, with the RSA-SSA scheme.
pub open spec fn signature_ok(blob: ContextBlob, digest: Seq<u8>, sig: Signature) -> bool {
    &&& sig.scheme_alg == ALG_RSASSA
    &&& sig.signature@ == sim_signature(blob_modulus(blob), digest)
}

/// The caller-facing signature can be converted to the module's wire
/// structure: a supported scheme and a payload that fits the wire buffer.
pub open spec fn signature_convertible(sig: Signature) -> bool {
    sig.scheme_alg == ALG_RSASSA && sig.signature@.len() <= WIRE_BUFFER_SIZE as int
}

/// The module accepts the signature for the blob's key and the digest.
pub open spec fn verification_accepts(blob: ContextBlob, digest: Seq<u8>, sig: Signature) -> bool {
    &&& blob_is_rsa(blob)
    &&& signature_convertible(sig)
    &&& sig.signature@ == sim_signature(blob_modulus(blob), digest)
}

impl ContextBlob {
    /// A copy of the blob, snapshotting the same object state.
    ///
    /// Blobs are consumed by the operation they are handed to; a caller that
    /// uses one key more than once duplicates the blob first.
    pub fn duplicate(&self) -> (r: ContextBlob)
        ensures
            blob_is_rsa(r) == blob_is_rsa(*self),
            blob_modulus(r) == blob_modulus(*self),
            blob_auth(r) == blob_auth(*self),
            blob_has_private(r) == blob_has_private(*self),
            blob_sign_capable(r) == blob_sign_capable(*self),
            blob_restricted(r) == blob_restricted(*self),
    {
        proof {
            use_type_invariant(self);
        }
        ContextBlob { object: clone_object(&self.object) }
    }
}

/// Structure offering an abstracted programming experience over the module.
///
/// The context owns a root key, derived at construction in the owner
/// hierarchy, from which the client-controlled keys are derived.  Only
/// functionality for RSA signing keys and externally supplied RSA public
/// keys is implemented.
pub struct TransientObjectContext {
    driver: Driver,
    root_key_handle: u32,
}

impl TransientObjectContext {
    /// The context's invariant: the driver is well formed, the root key is a
    /// loaded storage key, the active session is live, and those two slots
    /// are the only occupied ones.
    pub closed spec fn wf(self) -> bool {
        &&& self.driver.inv()
        &&& (self.root_key_handle as int) < SLOT_TABLE_SIZE as int
        &&& self.root_key_handle != self.driver.active_session
        &&& self.driver.occ(self.root_key_handle as int)
        &&& self.driver.slot_obj(self.root_key_handle as int).is_rsa()
        &&& self.driver.slot_obj(self.root_key_handle as int).has_private_spec()
        &&& self.driver.slot_obj(self.root_key_handle as int).decrypt_cap_spec()
        &&& self.driver.slot_obj(self.root_key_handle as int).restricted_spec()
        &&& self.driver.occ(self.driver.active_session as int)
        &&& self.driver.slot_obj(self.driver.active_session as int) is Session
        &&& forall|i: int|
            0 <= i < SLOT_TABLE_SIZE as int ==> (((#[trigger] self.driver.objects@[i]) is Some)
                <==> i == self.root_key_handle as int || i
                == self.driver.active_session as int)
    }

    /// Slot `i` of the module's volatile table is occupied.
    pub closed spec fn slot_occupied(self, i: int) -> bool {
        self.driver.occ(i)
    }

    /// The long-lived root key's handle.
    pub closed spec fn root_handle(self) -> u32 {
        self.root_key_handle
    }

    /// The active session's handle.
    pub closed spec fn session_handle(self) -> u32 {
        self.driver.active_session
    }

    /// The fault the transport was configured with.
    pub closed spec fn fault(self) -> Option<FaultCommand> {
        self.driver.fault
    }

    /// How many of the first `k` volatile slots are occupied.
    pub closed spec fn occupied_count_up_to(self, k: int) -> nat
        decreases k,
    {
        if k <= 0 {
            0
        } else {
            self.occupied_count_up_to(k - 1) + if self.driver.occ(k - 1) {
                1nat
            } else {
                0nat
            }
        }
    }

    /// How many volatile slots of the module are occupied.
    pub closed spec fn occupied_count(self) -> nat {
        self.occupied_count_up_to(SLOT_TABLE_SIZE as int)
    }
}

/// The slot table's occupancy is unchanged, slot by slot.
pub open spec fn slots_preserved(pre: TransientObjectContext, post: TransientObjectContext) -> bool {
    forall|i: int| #[trigger] post.slot_occupied(i) == pre.slot_occupied(i)
}

/// What every public operation guarantees of the context, whatever its
/// outcome: the invariant is kept, the root key and the session are the same
/// ones, and the net slot occupancy is zero.
pub open spec fn context_preserved(
    pre: TransientObjectContext,
    post: TransientObjectContext,
) -> bool {
    &&& post.wf()
    &&& post.root_handle() == pre.root_handle()
    &&& post.session_handle() == pre.session_handle()
    &&& post.fault() == pre.fault()
    &&& slots_preserved(pre, post)
}

/// A slot table holding exactly two objects among eight has a free slot.
proof fn lemma_two_occupied_has_free(d: Driver, r: int, s: int)
    requires
        0 <= r < SLOT_TABLE_SIZE as int,
        0 <= s < SLOT_TABLE_SIZE as int,
        forall|i: int|
            0 <= i < SLOT_TABLE_SIZE as int ==> (((#[trigger] d.objects@[i]) is Some) <==> i == r
                || i == s),
    ensures
        d.has_free_slot(),
{
    if r != 0 && s != 0 {
        assert(!(d.objects@[0] is Some));
        assert(!d.occ(0));
    } else if r != 1 && s != 1 {
        assert(!(d.objects@[1] is Some));
        assert(!d.occ(1));
    } else {
        assert(!(d.objects@[2] is Some));
        assert(!d.occ(2));
    }
}

impl TransientObjectContext {
    /// Create a new context over the simulated module.
    ///
    /// The root key is derived as a primary key in the owner hierarchy, with
    /// an authorization value of the requested length drawn from the module's
    /// random source; a fresh authenticated session replaces the default one,
    /// which is flushed.  Sizes are validated before any module command is
    /// issued.
    pub fn new(
        config: TransportConfig,
        root_key_size: usize,
        root_key_auth_size: usize,
        owner_hierarchy_auth: &[u8],
    ) -> (r: Result<TransientObjectContext, Error>)
        ensures
            r is Ok <==> valid_auth_size(root_key_auth_size) && valid_key_size(root_key_size)
                && !construction_faults(config.fault, root_key_auth_size, owner_hierarchy_auth@),
            !valid_auth_size(root_key_auth_size) ==> (r matches Err(e) && e
                == Error::WrongParamSize),
            valid_auth_size(root_key_auth_size) && !valid_key_size(root_key_size) ==> (r matches Err(
                e,
            ) && e == Error::WrongParamSize),
            valid_auth_size(root_key_auth_size) && valid_key_size(root_key_size)
                && construction_faults(config.fault, root_key_auth_size, owner_hierarchy_auth@)
                ==> (r matches Err(e) && e == Error::Driver(DriverError::InjectedFault)),
            r matches Ok(ctx) ==> {
                &&& ctx.wf()
                &&& ctx.fault() == config.fault
                &&& ctx.root_handle() != ctx.session_handle()
                &&& forall|i: int|
                    0 <= i < SLOT_TABLE_SIZE as int ==> (#[trigger] ctx.slot_occupied(i) <==> i
                        == ctx.root_handle() as int || i == ctx.session_handle() as int)
            },
    {
        if root_key_auth_size > 32 {
            return Err(Error::WrongParamSize);
        }
        if root_key_size != 1024 && root_key_size != 2048 {
            return Err(Error::WrongParamSize);
        }
        let mut driver = Driver::new(config);
        let root_key_auth: Vec<u8> = if root_key_auth_size > 0 {
            match driver.get_random(root_key_auth_size) {
                Ok(v) => v,
                Err(e) => {
                    return Err(Error::Driver(e));
                },
            }
        } else {
            Vec::new()
        };
        if owner_hierarchy_auth.len() > 0 {
            match driver.set_handle_auth(RH_OWNER, owner_hierarchy_auth) {
                Ok(()) => {},
                Err(e) => {
                    return Err(Error::Driver(e));
                },
            }
        }
        let template = get_rsa_public(true, true, false, root_key_size as u16);
        proof {
            assert(!driver.occ(1));
        }
        let root_key_handle = match driver.create_primary_key(
            RH_OWNER,
            &template,
            root_key_auth.as_slice(),
        ) {
            Ok(h) => h,
            Err(e) => {
                return Err(Error::Driver(e));
            },
        };
        proof {
            if root_key_handle != 1 {
                assert(!driver.occ(1));
            } else {
                assert(!driver.occ(2));
            }
        }
        let new_session = match driver.start_auth_session(root_key_handle) {
            Ok(h) => h,
            Err(e) => {
                return Err(Error::Driver(e));
            },
        };
        let old_session = driver.sessions();
        driver.set_sessions(new_session);
        match driver.flush_context(old_session) {
            Ok(()) => {},
            Err(e) => {
                return Err(Error::Driver(e));
            },
        }
        Ok(TransientObjectContext { driver, root_key_handle })
    }

    /// Count the occupied volatile slots of the module: always two, the root
    /// key and the active session.
    pub fn occupied_slots(&self) -> (n: usize)
        requires
            self.wf(),
        ensures
            n as nat == self.occupied_count(),
            n == 2,
    {
        let mut n: usize = 0;
        let mut i: usize = 0;
        while i < SLOT_TABLE_SIZE
            invariant
                self.wf(),
                i <= SLOT_TABLE_SIZE,
                n as nat == self.occupied_count_up_to(i as int),
                n as int == (if (self.root_handle() as int) < i as int {
                    1int
                } else {
                    0int
                }) + (if (self.session_handle() as int) < i as int {
                    1int
                } else {
                    0int
                }),
            decreases SLOT_TABLE_SIZE - i,
        {
            proof {
                assert(self.driver.occ(i as int) <==> (i as int == self.root_key_handle as int || i
                    as int == self.driver.active_session as int));
            }
            if self.driver.objects[i].is_some() {
                n = n + 1;
            }
            i = i + 1;
        }
        n
    }

    /// Force the active session's attribute flags to {encrypt, decrypt}.
    ///
    /// Repeated before every sensitive command, because the module does not
    /// retain the flags between commands.
    fn set_session_attrs(&mut self) -> (r: Result<(), Error>)
        requires
            old(self).driver.inv(),
        ensures
            final(self).driver.inv(),
            final(self).root_key_handle == old(self).root_key_handle,
            r is Ok <==> old(self).driver.fault != Some(FaultCommand::SetSessionAttr),
            r is Ok ==> {
                &&& slots_same(old(self).driver, final(self).driver)
                &&& cmd_frame(old(self).driver, final(self).driver)
                &&& final(self).driver.session_attrs_set
            },
            r is Err ==> *final(self) == *old(self),
            r matches Err(e) ==> e == Error::Driver(DriverError::InjectedFault),
    {
        let session = self.driver.sessions();
        match self.driver.set_session_attr(session, true, true) {
            Ok(()) => Ok(()),
            Err(e) => Err(Error::Driver(e)),
        }
    }

    /// Create a new RSA signing key under the root key.
    ///
    /// Returns the key's portable blob and its generated authorization value.
    /// The volatile slot used to save the new key is released before this
    /// returns, on every path.
    #[verifier::rlimit(60)]
    pub fn create_rsa_signing_key(&mut self, key_size: usize, auth_size: usize) -> (r: Result<
        (ContextBlob, Vec<u8>),
        Error,
    >)
        requires
            old(self).wf(),
        ensures
            context_preserved(*old(self), *final(self)),
            r is Ok <==> valid_auth_size(auth_size) && valid_key_size(key_size) && !create_key_faults(
                old(self).fault(),
                auth_size,
            ),
            !valid_auth_size(auth_size) ==> ((r matches Err(e) && e == Error::WrongParamSize)
                && *final(self) == *old(self)),
            valid_auth_size(auth_size) && !valid_key_size(key_size) ==> ((r matches Err(e) && e
                == Error::WrongParamSize) && *final(self) == *old(self)),
            valid_auth_size(auth_size) && valid_key_size(key_size) && create_key_faults(
                old(self).fault(),
                auth_size,
            ) ==> (r matches Err(e) && e == Error::Driver(DriverError::InjectedFault)),
            r matches Ok(p) ==> created_key_ok(key_size, auth_size, p.0, p.1@),
    {
        if auth_size > 32 {
            return Err(Error::WrongParamSize);
        }
        if key_size != 1024 && key_size != 2048 {
            return Err(Error::WrongParamSize);
        }
        let key_auth: Vec<u8> = if auth_size > 0 {
            match self.set_session_attrs() {
                Ok(()) => {},
                Err(e) => {
                    return Err(e);
                },
            }
            match self.driver.get_random(auth_size) {
                Ok(v) => v,
                Err(e) => {
                    return Err(Error::Driver(e));
                },
            }
        } else {
            Vec::new()
        };
        match self.set_session_attrs() {
            Ok(()) => {},
            Err(e) => {
                return Err(e);
            },
        }
        let template = get_rsa_public(false, false, true, key_size as u16);
        let (key_priv, key_pub) = match self.driver.create_key(
            self.root_key_handle,
            &template,
            key_auth.as_slice(),
        ) {
            Ok(p) => p,
            Err(e) => {
                return Err(Error::Driver(e));
            },
        };
        match self.set_session_attrs() {
            Ok(()) => {},
            Err(e) => {
                return Err(e);
            },
        }
        proof {
            lemma_two_occupied_has_free(
                self.driver,
                self.root_key_handle as int,
                self.driver.active_session as int,
            );
        }
        let key_handle = match self.driver.load(self.root_key_handle, key_priv, key_pub) {
            Ok(h) => h,
            Err(e) => {
                return Err(Error::Driver(e));
            },
        };
        match self.set_session_attrs() {
            Ok(()) => {},
            Err(e) => {
                match self.driver.flush_context(key_handle) {
                    Ok(()) => {
                        return Err(e);
                    },
                    Err(fe) => {
                        return Err(Error::Driver(fe));
                    },
                }
            },
        }
        let key_context = match self.driver.context_save(key_handle) {
            Ok(b) => b,
            Err(e) => {
                match self.driver.flush_context(key_handle) {
                    Ok(()) => {
                        return Err(Error::Driver(e));
                    },
                    Err(fe) => {
                        return Err(Error::Driver(fe));
                    },
                }
            },
        };
        match self.driver.flush_context(key_handle) {
            Ok(()) => {},
            Err(fe) => {
                return Err(Error::Driver(fe));
            },
        }
        Ok((key_context, key_auth))
    }

    /// Import an externally generated RSA public key.
    ///
    /// The modulus bytes are placed, zero-padded, into the unique-value field
    /// of a sign-only template and loaded as an external object under the
    /// owner hierarchy; the root key is not involved.  Returns the key's
    /// portable blob.
    pub fn load_external_rsa_public_key(&mut self, public_key: &[u8]) -> (r: Result<
        ContextBlob,
        Error,
    >)
        requires
            old(self).wf(),
        ensures
            context_preserved(*old(self), *final(self)),
            r is Ok <==> valid_modulus_len(public_key@.len()) && !import_faults(old(self).fault()),
            !valid_modulus_len(public_key@.len()) ==> ((r matches Err(e) && e
                == Error::WrongParamSize) && *final(self) == *old(self)),
            valid_modulus_len(public_key@.len()) && import_faults(old(self).fault()) ==> (r matches Err(
                e,
            ) && e == Error::Driver(DriverError::InjectedFault)),
            r matches Ok(b) ==> imported_key_ok(public_key@, b),
    {
        if public_key.len() != 128 && public_key.len() != 256 {
            return Err(Error::WrongParamSize);
        }
        let pk_buffer = zero_pad(public_key, WIRE_BUFFER_SIZE);
        let mut public = get_rsa_public(false, false, true, (public_key.len() as u16) * 8);
        public.unique = pk_buffer;
        public.unique_size = public_key.len() as u16;
        match self.set_session_attrs() {
            Ok(()) => {},
            Err(e) => {
                return Err(e);
            },
        }
        proof {
            lemma_two_occupied_has_free(
                self.driver,
                self.root_key_handle as int,
                self.driver.active_session as int,
            );
        }
        let key_handle = match self.driver.load_external_public(&public, RH_OWNER) {
            Ok(h) => h,
            Err(e) => {
                return Err(Error::Driver(e));
            },
        };
        match self.set_session_attrs() {
            Ok(()) => {},
            Err(e) => {
                match self.driver.flush_context(key_handle) {
                    Ok(()) => {
                        return Err(e);
                    },
                    Err(fe) => {
                        return Err(Error::Driver(fe));
                    },
                }
            },
        }
        let key_context = match self.driver.context_save(key_handle) {
            Ok(b) => b,
            Err(e) => {
                match self.driver.flush_context(key_handle) {
                    Ok(()) => {
                        return Err(Error::Driver(e));
                    },
                    Err(fe) => {
                        return Err(Error::Driver(fe));
                    },
                }
            },
        };
        match self.driver.flush_context(key_handle) {
            Ok(()) => {},
            Err(fe) => {
                return Err(Error::Driver(fe));
            },
        }
        Ok(key_context)
    }

    /// Read the public part of a previously generated or imported key: its
    /// raw modulus bytes, truncated to the object's declared size.
    pub fn read_public_key(&mut self, key_context: ContextBlob) -> (r: Result<Vec<u8>, Error>)
        requires
            old(self).wf(),
        ensures
            context_preserved(*old(self), *final(self)),
            r is Ok <==> blob_is_rsa(key_context) && !read_faults(old(self).fault()),
            r matches Ok(k) ==> read_key_ok(key_context, k@),
            read_faults(old(self).fault()) ==> (r matches Err(e) && e == Error::Driver(
                DriverError::InjectedFault,
            )),
            !read_faults(old(self).fault()) && !blob_is_rsa(key_context) ==> (r matches Err(e) && e
                == Error::UnsupportedParam),
    {
        match self.set_session_attrs() {
            Ok(()) => {},
            Err(e) => {
                return Err(e);
            },
        }
        proof {
            lemma_two_occupied_has_free(
                self.driver,
                self.root_key_handle as int,
                self.driver.active_session as int,
            );
        }
        let key_handle = match self.driver.context_load(key_context) {
            Ok(h) => h,
            Err(e) => {
                return Err(Error::Driver(e));
            },
        };
        match self.set_session_attrs() {
            Ok(()) => {},
            Err(e) => {
                match self.driver.flush_context(key_handle) {
                    Ok(()) => {
                        return Err(e);
                    },
                    Err(fe) => {
                        return Err(Error::Driver(fe));
                    },
                }
            },
        }
        let key_pub_id = match self.driver.read_public(key_handle) {
            Ok(p) => p,
            Err(e) => {
                match self.driver.flush_context(key_handle) {
                    Ok(()) => {
                        return Err(Error::Driver(e));
                    },
                    Err(fe) => {
                        return Err(Error::Driver(fe));
                    },
                }
            },
        };
        let key: Vec<u8> = match key_pub_id {
            PublicId::Rsa { buffer, size } => {
                let mut key = buffer;
                key.truncate(size as usize);
                key
            },
            PublicId::Other => {
                match self.driver.flush_context(key_handle) {
                    Ok(()) => {
                        return Err(Error::UnsupportedParam);
                    },
                    Err(fe) => {
                        return Err(Error::Driver(fe));
                    },
                }
            },
        };
        match self.driver.flush_context(key_handle) {
            Ok(()) => {},
            Err(fe) => {
                return Err(Error::Driver(fe));
            },
        }
        Ok(key)
    }

    /// Sign a digest with an existing key.
    ///
    /// The supplied authorization value is bound to the loaded handle; the
    /// digest was computed outside the module, so the command carries a null
    /// (module-chosen) scheme and an empty hash-check ticket.
    pub fn sign(&mut self, key_context: ContextBlob, key_auth: &[u8], digest: &[u8]) -> (r: Result<
        Signature,
        Error,
    >)
        requires
            old(self).wf(),
        ensures
            context_preserved(*old(self), *final(self)),
            r is Ok <==> !sign_faults(old(self).fault()) && blob_is_rsa(key_context)
                && blob_has_private(key_context) && blob_sign_capable(key_context) && key_auth@
                == blob_auth(key_context),
            r matches Ok(s) ==> signature_ok(key_context, digest@, s) && signature_convertible(s),
            sign_faults_early(old(self).fault()) ==> (r matches Err(e) && e == Error::Driver(
                DriverError::InjectedFault,
            )),
            old(self).fault() == Some(FaultCommand::SetHandleAuth) ==> (r matches Err(e) && e
                == Error::Driver(DriverError::InjectedFault)),
            old(self).fault() == Some(FaultCommand::Sign) && blob_is_rsa(key_context) ==> (
            r matches Err(e) && e == Error::Driver(DriverError::InjectedFault)),
            !sign_faults_early(old(self).fault()) && old(self).fault() != Some(
                FaultCommand::SetHandleAuth,
            ) && !blob_is_rsa(key_context) ==> (r matches Err(e) && e == Error::Driver(
                DriverError::BadHandle,
            )),
            !sign_faults(old(self).fault()) && blob_is_rsa(key_context) && !(blob_has_private(
                key_context,
            ) && blob_sign_capable(key_context)) ==> (r matches Err(e) && e == Error::Driver(
                DriverError::BadHandle,
            )),
            !sign_faults(old(self).fault()) && blob_is_rsa(key_context) && blob_has_private(
                key_context,
            ) && blob_sign_capable(key_context) && key_auth@ != blob_auth(key_context) ==> (
            r matches Err(e) && e == Error::Driver(DriverError::AuthFail)),
    {
        proof {
            use_type_invariant(&key_context);
        }
        match self.set_session_attrs() {
            Ok(()) => {},
            Err(e) => {
                return Err(e);
            },
        }
        proof {
            lemma_two_occupied_has_free(
                self.driver,
                self.root_key_handle as int,
                self.driver.active_session as int,
            );
        }
        let key_handle = match self.driver.context_load(key_context) {
            Ok(h) => h,
            Err(e) => {
                return Err(Error::Driver(e));
            },
        };
        match self.driver.set_handle_auth(key_handle, key_auth) {
            Ok(()) => {},
            Err(e) => {
                match self.driver.flush_context(key_handle) {
                    Ok(()) => {
                        return Err(Error::Driver(e));
                    },
                    Err(fe) => {
                        return Err(Error::Driver(fe));
                    },
                }
            },
        }
        let scheme = SigScheme { scheme_alg: ALG_NULL };
        let validation = HashcheckTicket { tag: ST_HASHCHECK, hierarchy: RH_NULL, digest: Vec::new() };
        match self.set_session_attrs() {
            Ok(()) => {},
            Err(e) => {
                match self.driver.flush_context(key_handle) {
                    Ok(()) => {
                        return Err(e);
                    },
                    Err(fe) => {
                        return Err(Error::Driver(fe));
                    },
                }
            },
        }
        let signature = match self.driver.sign(key_handle, digest, &scheme, &validation) {
            Ok(s) => s,
            Err(e) => {
                match self.driver.flush_context(key_handle) {
                    Ok(()) => {
                        return Err(Error::Driver(e));
                    },
                    Err(fe) => {
                        return Err(Error::Driver(fe));
                    },
                }
            },
        };
        match self.driver.flush_context(key_handle) {
            Ok(()) => {},
            Err(fe) => {
                return Err(Error::Driver(fe));
            },
        }
        Ok(signature)
    }

    /// Verify a signature against a digest.
    ///
    /// The caller-facing signature is converted to the module's wire
    /// structure — a pure, fallible step — before the verification command;
    /// a verification ticket is returned when the module accepts.
    pub fn verify_signature(
        &mut self,
        key_context: ContextBlob,
        digest: &[u8],
        signature: Signature,
    ) -> (r: Result<TpmtTkVerified, Error>)
        requires
            old(self).wf(),
        ensures
            context_preserved(*old(self), *final(self)),
            r is Ok <==> !verify_faults(old(self).fault()) && verification_accepts(
                key_context,
                digest@,
                signature,
            ),
            verify_faults_early(old(self).fault()) ==> (r matches Err(e) && e == Error::Driver(
                DriverError::InjectedFault,
            )),
            !verify_faults_early(old(self).fault()) && !signature_convertible(signature) ==> (
            r matches Err(e) && e == Error::Conversion),
            !verify_faults_early(old(self).fault()) && signature_convertible(signature) && old(
                self,
            ).fault() == Some(FaultCommand::VerifySignature) ==> (r matches Err(e) && e
                == Error::Driver(DriverError::InjectedFault)),
            !verify_faults(old(self).fault()) && signature_convertible(signature) && !blob_is_rsa(
                key_context,
            ) ==> (r matches Err(e) && e == Error::Driver(DriverError::BadHandle)),
            !verify_faults(old(self).fault()) && signature_convertible(signature) && blob_is_rsa(
                key_context,
            ) && signature.signature@ != sim_signature(blob_modulus(key_context), digest@) ==> (
            r matches Err(e) && e == Error::Driver(DriverError::BadSignature)),
            r matches Ok(t) ==> t.hierarchy == RH_OWNER,
    {
        match self.set_session_attrs() {
            Ok(()) => {},
            Err(e) => {
                return Err(e);
            },
        }
        proof {
            lemma_two_occupied_has_free(
                self.driver,
                self.root_key_handle as int,
                self.driver.active_session as int,
            );
        }
        let key_handle = match self.driver.context_load(key_context) {
            Ok(h) => h,
            Err(e) => {
                return Err(Error::Driver(e));
            },
        };
        let convertible = signature.scheme_alg == ALG_RSASSA && signature.signature.len()
            <= WIRE_BUFFER_SIZE;
        if !convertible {
            match self.driver.flush_context(key_handle) {
                Ok(()) => {
                    return Err(Error::Conversion);
                },
                Err(fe) => {
                    return Err(Error::Driver(fe));
                },
            }
        }
        let wire_signature = WireSignature {
            scheme_alg: signature.scheme_alg,
            sig: signature.signature,
        };
        match self.set_session_attrs() {
            Ok(()) => {},
            Err(e) => {
                match self.driver.flush_context(key_handle) {
                    Ok(()) => {
                        return Err(e);
                    },
                    Err(fe) => {
                        return Err(Error::Driver(fe));
                    },
                }
            },
        }
        let verified = match self.driver.verify_signature(key_handle, digest, &wire_signature) {
            Ok(t) => t,
            Err(e) => {
                match self.driver.flush_context(key_handle) {
                    Ok(()) => {
                        return Err(Error::Driver(e));
                    },
                    Err(fe) => {
                        return Err(Error::Driver(fe));
                    },
                }
            },
        };
        match self.driver.flush_context(key_handle) {
            Ok(()) => {},
            Err(fe) => {
                return Err(Error::Driver(fe));
            },
        }
        if verified.tag != ST_VERIFIED {
            return Err(Error::Conversion);
        }
        Ok(TpmtTkVerified { hierarchy: verified.hierarchy })
    }
}

} // verus!

