//! The simulated security module and its driver.
//!
//! The driver issues primitive commands against an in-memory model of the
//! module: a fixed table of volatile object slots, one active authenticated
//! session, an authorization store and a deterministic random source.  It is
//! synchronous, blocking, and unaware of any resource-lifecycle policy; that
//! policy lives in [`crate::transient`] and is verified against the command
//! contracts written here.
//!
//! For failure testing, the transport configuration can name one command that
//! always fails ([`FaultCommand`]); flushing is not injectable, so that a
//! flush fails only on a handle that occupies no slot.

use vstd::prelude::*;

use crate::errors::DriverError;

verus! {

/// Number of volatile object slots in the simulated module.
pub const SLOT_TABLE_SIZE: usize = 8;

/// Pseudo-handle of the owner hierarchy.
pub const RH_OWNER: u32 = 0x40000001;

/// Pseudo-handle of the null hierarchy.
pub const RH_NULL: u32 = 0x40000007;

/// Algorithm identifier: null (module-chosen) signing scheme.
pub const ALG_NULL: u16 = 0x0010;

/// Algorithm identifier: RSA-SSA signing scheme.
pub const ALG_RSASSA: u16 = 0x0014;

/// Structure tag of a hash-check validation ticket.
pub const ST_HASHCHECK: u16 = 0x8024;

/// Structure tag of a verification ticket.
pub const ST_VERIFIED: u16 = 0x8022;

/// Capacity of the wire buffer that carries an RSA modulus or a signature.
pub const WIRE_BUFFER_SIZE: usize = 512;

/// A module command that the transport can be configured to fail.
#[derive(Clone, Copy, Debug, PartialEq, Eq, Structural)]
pub enum FaultCommand {
    GetRandom,
    SetHandleAuth,
    CreatePrimaryKey,
    StartAuthSession,
    CreateKey,
    Load,
    LoadExternalPublic,
    ContextSave,
    ContextLoad,
    ReadPublic,
    Sign,
    VerifySignature,
    SetSessionAttr,
}

/// Configuration of the transport channel to the simulated module.
///
/// `fault` names at most one command that the module will fail with
/// [`DriverError::InjectedFault`] whenever it is issued.
pub struct TransportConfig {
    pub fault: Option<FaultCommand>,
}

/// An object held in a volatile slot of the module.
pub enum TpmObject {
    RsaKey {
        /// The raw modulus bytes; their length is the key's byte size.
        modulus: Vec<u8>,
        /// The object's authorization value.
        auth: Vec<u8>,
        /// Whether the private half of the key is present.
        has_private: bool,
        /// Whether the key may sign.
        sign_cap: bool,
        /// Whether the key may decrypt.
        decrypt_cap: bool,
        /// Whether the key is restricted (a storage key).
        restricted: bool,
    },
    Session,
}

impl TpmObject {
    pub open spec fn is_rsa(self) -> bool {
        self is RsaKey
    }

    pub open spec fn modulus_spec(self) -> Seq<u8> {
        self->RsaKey_modulus@
    }

    pub open spec fn auth_spec(self) -> Seq<u8> {
        self->RsaKey_auth@
    }

    pub open spec fn has_private_spec(self) -> bool {
        self->RsaKey_has_private
    }

    pub open spec fn sign_cap_spec(self) -> bool {
        self->RsaKey_sign_cap
    }

    pub open spec fn decrypt_cap_spec(self) -> bool {
        self->RsaKey_decrypt_cap
    }

    pub open spec fn restricted_spec(self) -> bool {
        self->RsaKey_restricted
    }

    /// Two objects hold the same state (fields compared by their views).
    pub open spec fn same_state(self, other: TpmObject) -> bool {
        match self {
            TpmObject::RsaKey { .. } => {
                &&& other.is_rsa()
                &&& other.modulus_spec() == self.modulus_spec()
                &&& other.auth_spec() == self.auth_spec()
                &&& other.has_private_spec() == self.has_private_spec()
                &&& other.sign_cap_spec() == self.sign_cap_spec()
                &&& other.decrypt_cap_spec() == self.decrypt_cap_spec()
                &&& other.restricted_spec() == self.restricted_spec()
            },
            TpmObject::Session => other is Session,
        }
    }
}

/// An RSA object template, as handed to the creation and load commands.
pub struct RsaTemplate {
    pub decrypt: bool,
    pub restricted: bool,
    pub sign: bool,
    /// Key size in bits.
    pub key_bits: u16,
    /// Fixed-capacity unique-value buffer; holds the modulus, zero-padded,
    /// for an externally supplied public key.
    pub unique: Vec<u8>,
    /// How many leading bytes of `unique` are the modulus.
    pub unique_size: u16,
}

/// Build an RSA object template with the given capabilities and size, and an
/// empty unique-value buffer.
pub fn get_rsa_public(decrypt: bool, restricted: bool, sign: bool, key_bits: u16) -> (t: RsaTemplate)
    ensures
        t.decrypt == decrypt,
        t.restricted == restricted,
        t.sign == sign,
        t.key_bits == key_bits,
        t.unique@ == Seq::<u8>::empty(),
        t.unique_size == 0,
{
    RsaTemplate { decrypt, restricted, sign, key_bits, unique: Vec::new(), unique_size: 0 }
}

/// The private half of a created key, wrapped for loading.
pub struct KeyPrivate {
    pub(crate) auth: Vec<u8>,
}

/// The public half of a created key.
pub struct KeyPublic {
    pub(crate) modulus: Vec<u8>,
    pub(crate) sign_cap: bool,
    pub(crate) decrypt_cap: bool,
    pub(crate) restricted: bool,
}

/// An opaque exported snapshot of an object's volatile state.
///
/// Produced by the context-save command and consumed by the context-load
/// command; the layer above never looks inside it.
pub struct ContextBlob {
    pub(crate) object: TpmObject,
}

impl ContextBlob {
    /// Every blob the module exports snapshots an object whose modulus fits
    /// the wire buffer.
    #[verifier::type_invariant]
    pub(crate) open spec fn blob_wire_bound(self) -> bool {
        self.object.is_rsa() ==> self.object.modulus_spec().len() <= WIRE_BUFFER_SIZE
    }
}


/// A caller-facing signature.
pub struct Signature {
    /// The signing scheme the module applied.
    pub scheme_alg: u16,
    /// The raw signature bytes.
    pub signature: Vec<u8>,
}

/// A signature in the module's wire representation.
pub struct WireSignature {
    pub(crate) scheme_alg: u16,
    pub(crate) sig: Vec<u8>,
}

/// A signing-scheme selector, as carried by the sign command.
pub struct SigScheme {
    pub scheme_alg: u16,
}

/// A hash-check validation ticket, as carried by the sign command for a
/// digest computed outside the module.
pub struct HashcheckTicket {
    pub tag: u16,
    pub hierarchy: u32,
    pub digest: Vec<u8>,
}

/// A verification ticket in the module's wire representation.
pub struct WireTicket {
    pub(crate) tag: u16,
    pub(crate) hierarchy: u32,
}

/// A caller-facing verification ticket.
pub struct TpmtTkVerified {
    /// The hierarchy the verified object lives under.
    pub hierarchy: u32,
}

/// What the simulated module computes as the signature of `digest` under the
/// key with the given `modulus`: one byte per modulus byte, each mixed with
/// the digest.
pub open spec fn sim_signature(modulus: Seq<u8>, digest: Seq<u8>) -> Seq<u8> {
    Seq::new(
        modulus.len(),
        |i: int|
            if digest.len() == 0 {
                modulus[i]
            } else {
                modulus[i] ^ digest[i % digest.len() as int]
            },
    )
}

/// Copy the bytes of a slice into a fresh vector.
fn copy_slice(src: &[u8]) -> (v: Vec<u8>)
    ensures
        v@ == src@,
{
    let mut v: Vec<u8> = Vec::new();
    let mut i: usize = 0;
    while i < src.len()
        invariant
            i <= src@.len(),
            v@ == src@.take(i as int),
        decreases src@.len() - i,
    {
        v.push(src[i]);
        i = i + 1;
        assert(v@ =~= src@.take(i as int));
    }
    assert(src@.take(src@.len() as int) =~= src@);
    v
}

/// Copy the first `n` bytes of a vector into a fresh vector.
fn copy_prefix(src: &Vec<u8>, n: usize) -> (v: Vec<u8>)
    requires
        n <= src@.len(),
    ensures
        v@ == src@.take(n as int),
{
    let mut v: Vec<u8> = Vec::new();
    let mut i: usize = 0;
    while i < n
        invariant
            i <= n,
            n <= src@.len(),
            v@ == src@.take(i as int),
        decreases n - i,
    {
        v.push(src[i]);
        i = i + 1;
        assert(v@ =~= src@.take(i as int));
    }
    v
}

/// Copy a slice into a fresh vector and pad it with zero bytes to `n`.
pub fn zero_pad(src: &[u8], n: usize) -> (v: Vec<u8>)
    requires
        src@.len() <= n,
    ensures
        v@.len() == n,
        v@.take(src@.len() as int) == src@,
{
    let mut v = copy_slice(src);
    let mut i: usize = src.len();
    while i < n
        invariant
            src@.len() <= i <= n,
            v@.len() == i,
            v@.take(src@.len() as int) == src@,
        decreases n - i,
    {
        v.push(0u8);
        i = i + 1;
        assert(v@.take(src@.len() as int) =~= src@);
    }
    v
}

/// Whether two byte strings hold the same bytes.
fn bytes_eq(a: &Vec<u8>, b: &Vec<u8>) -> (r: bool)
    ensures
        r == (a@ == b@),
{
    if a.len() != b.len() {
        assert(a@ != b@);
        return false;
    }
    let mut i: usize = 0;
    while i < a.len()
        invariant
            i <= a@.len(),
            a@.len() == b@.len(),
            forall|j: int| 0 <= j < i ==> a@[j] == b@[j],
        decreases a@.len() - i,
    {
        if a[i] != b[i] {
            assert(a@ != b@);
            return false;
        }
        i = i + 1;
    }
    assert(a@ =~= b@);
    true
}

/// Draw `n` bytes from the deterministic random source.
fn gen_bytes(state: &mut u8, n: usize) -> (v: Vec<u8>)
    ensures
        v@.len() == n,
{
    let mut v: Vec<u8> = Vec::new();
    let mut i: usize = 0;
    while i < n
        invariant
            i <= n,
            v@.len() == i,
        decreases n - i,
    {
        v.push(*state);
        *state = if *state == 255 { 0 } else { *state + 1 };
        i = i + 1;
    }
    v
}

/// Compute the simulated module's signature of `digest` under `modulus`.
fn compute_signature(modulus: &Vec<u8>, digest: &[u8]) -> (v: Vec<u8>)
    ensures
        v@ == sim_signature(modulus@, digest@),
{
    let mut v: Vec<u8> = Vec::new();
    let mut i: usize = 0;
    while i < modulus.len()
        invariant
            i <= modulus@.len(),
            v@.len() == i,
            forall|j: int| 0 <= j < i ==> v@[j] == sim_signature(modulus@, digest@)[j],
        decreases modulus@.len() - i,
    {
        let b: u8 = if digest.len() == 0 {
            modulus[i]
        } else {
            modulus[i] ^ digest[i % digest.len()]
        };
        v.push(b);
        i = i + 1;
    }
    assert(v@ =~= sim_signature(modulus@, digest@));
    v
}

/// The simulated module and the driver that issues its commands.
///
/// State: the volatile slot table, the per-slot bound authorization values,
/// the handle of the active session and its attribute flags, the owner
/// hierarchy's authorization, the random source, and the configured fault.
pub struct Driver {
    pub(crate) objects: Vec<Option<TpmObject>>,
    pub(crate) bound_auths: Vec<Vec<u8>>,
    pub(crate) active_session: u32,
    pub(crate) session_attrs_set: bool,
    pub(crate) owner_auth: Vec<u8>,
    pub(crate) rng_state: u8,
    pub(crate) fault: Option<FaultCommand>,
}

impl Driver {
    /// Shape invariant of the module's state.
    pub(crate) open spec fn inv(self) -> bool {
        &&& self.objects@.len() == SLOT_TABLE_SIZE
        &&& self.bound_auths@.len() == SLOT_TABLE_SIZE
        &&& (self.active_session as int) < SLOT_TABLE_SIZE as int
        &&& forall|i: int|
            0 <= i < SLOT_TABLE_SIZE as int ==> obj_modulus_bounded(#[trigger] self.objects@[i])
    }

    /// Slot `i` is occupied.
    pub(crate) open spec fn occ(self, i: int) -> bool {
        0 <= i < SLOT_TABLE_SIZE as int && self.objects@[i] is Some
    }

    /// The object in slot `i`.
    pub(crate) open spec fn slot_obj(self, i: int) -> TpmObject {
        self.objects@[i]->Some_0
    }

    /// The command configured to fail, if any.
    pub(crate) open spec fn faulted(self, c: FaultCommand) -> bool {
        self.fault == Some(c)
    }
}

/// A slot entry's modulus, if it is an RSA key, fits the wire buffer.
pub(crate) open spec fn obj_modulus_bounded(o: Option<TpmObject>) -> bool {
    o matches Some(k) && k.is_rsa() ==> o->Some_0.modulus_spec().len() <= WIRE_BUFFER_SIZE as int
}

/// Everything but the slot table's contents, the attribute flags and the
/// random source is unchanged.
pub(crate) open spec fn cmd_frame(pre: Driver, post: Driver) -> bool {
    &&& post.bound_auths == pre.bound_auths
    &&& post.active_session == pre.active_session
    &&& post.owner_auth == pre.owner_auth
    &&& post.fault == pre.fault
}

/// The slot table is unchanged except at index `h`.
pub(crate) open spec fn slots_same_except(pre: Driver, post: Driver, h: int) -> bool {
    &&& post.objects@.len() == pre.objects@.len()
    &&& forall|i: int| 0 <= i < pre.objects@.len() && i != h ==> post.objects@[i] == pre.objects@[i]
}

/// The whole slot table is unchanged.
pub(crate) open spec fn slots_same(pre: Driver, post: Driver) -> bool {
    post.objects == pre.objects
}

impl Driver {
    /// Open the transport and bring up the simulated module: an empty slot
    /// table but for the default session in slot 0, which starts with its
    /// attribute flags set.
    pub(crate) fn new(config: TransportConfig) -> (d: Driver)
        ensures
            d.inv(),
            d.objects@.len() == SLOT_TABLE_SIZE,
            d.objects@[0] == Some(TpmObject::Session),
            forall|i: int| 1 <= i < SLOT_TABLE_SIZE as int ==> d.objects@[i] is None,
            d.active_session == 0,
            d.session_attrs_set,
            d.owner_auth@ == Seq::<u8>::empty(),
            d.fault == config.fault,
    {
        let mut objects: Vec<Option<TpmObject>> = Vec::new();
        objects.push(Some(TpmObject::Session));
        let mut bound_auths: Vec<Vec<u8>> = Vec::new();
        bound_auths.push(Vec::new());
        let mut i: usize = 1;
        while i < SLOT_TABLE_SIZE
            invariant
                1 <= i <= SLOT_TABLE_SIZE,
                objects@.len() == i,
                bound_auths@.len() == i,
                objects@[0] == Some(TpmObject::Session),
                forall|j: int| 1 <= j < i ==> objects@[j] is None,
            decreases SLOT_TABLE_SIZE - i,
        {
            objects.push(None);
            bound_auths.push(Vec::new());
            i = i + 1;
        }
        Driver {
            objects,
            bound_auths,
            active_session: 0,
            session_attrs_set: true,
            owner_auth: Vec::new(),
            rng_state: 0,
            fault: config.fault,
        }
    }

    /// The handle of the active session.
    pub(crate) fn sessions(&self) -> (h: u32)
        ensures
            h == self.active_session,
    {
        self.active_session
    }

    /// Make `h` the active session.  Its attribute flags start cleared.
    pub(crate) fn set_sessions(&mut self, h: u32)
        requires
            old(self).inv(),
            0 <= h < SLOT_TABLE_SIZE as u32,
        ensures
            final(self).inv(),
            final(self).active_session == h,
            !final(self).session_attrs_set,
            slots_same(*old(self), *final(self)),
            final(self).bound_auths == old(self).bound_auths,
            final(self).owner_auth == old(self).owner_auth,
            final(self).fault == old(self).fault,
            final(self).rng_state == old(self).rng_state,
    {
        self.active_session = h;
        self.session_attrs_set = false;
    }

    /// Set the attribute flags of the active session.  The flags this model
    /// tracks are exactly {decrypt, encrypt}; the module keeps them only
    /// until the next command completes.
    pub(crate) fn set_session_attr(&mut self, session: u32, decrypt: bool, encrypt: bool) -> (r:
        Result<(), DriverError>)
        requires
            old(self).inv(),
        ensures
            final(self).inv(),
            r is Ok <==> !old(self).faulted(FaultCommand::SetSessionAttr) && session == old(
                self,
            ).active_session,
            r is Ok ==> {
                &&& cmd_frame(*old(self), *final(self))
                &&& slots_same(*old(self), *final(self))
                &&& final(self).session_attrs_set == (decrypt && encrypt)
                &&& final(self).rng_state == old(self).rng_state
            },
            r is Err ==> *final(self) == *old(self),
            r matches Err(e) ==> (e == DriverError::InjectedFault <==> old(self).faulted(
                FaultCommand::SetSessionAttr,
            )),
            r matches Err(e) ==> (!old(self).faulted(FaultCommand::SetSessionAttr) ==> e
                == DriverError::BadHandle),
    {
        if matches!(self.fault, Some(FaultCommand::SetSessionAttr)) {
            return Err(DriverError::InjectedFault);
        }
        if session != self.active_session {
            return Err(DriverError::BadHandle);
        }
        self.session_attrs_set = decrypt && encrypt;
        Ok(())
    }

    /// Generate `num_bytes` random bytes.  Sensitive: the active session must
    /// carry the encrypt/decrypt attributes.
    pub(crate) fn get_random(&mut self, num_bytes: usize) -> (r: Result<Vec<u8>, DriverError>)
        requires
            old(self).inv(),
        ensures
            final(self).inv(),
            r is Ok <==> !old(self).faulted(FaultCommand::GetRandom) && old(self).session_attrs_set,
            r matches Ok(v) ==> {
                &&& v@.len() == num_bytes
                &&& cmd_frame(*old(self), *final(self))
                &&& slots_same(*old(self), *final(self))
                &&& !final(self).session_attrs_set
            },
            r is Err ==> *final(self) == *old(self),
            r matches Err(e) ==> (e == DriverError::InjectedFault <==> old(self).faulted(
                FaultCommand::GetRandom,
            )),
            r matches Err(e) ==> (!old(self).faulted(FaultCommand::GetRandom) ==> e
                == DriverError::SessionAttrsNotSet),
    {
        if matches!(self.fault, Some(FaultCommand::GetRandom)) {
            return Err(DriverError::InjectedFault);
        }
        if !self.session_attrs_set {
            return Err(DriverError::SessionAttrsNotSet);
        }
        let v = gen_bytes(&mut self.rng_state, num_bytes);
        self.session_attrs_set = false;
        Ok(v)
    }

    /// Bind an authorization value to a handle: to the owner hierarchy for
    /// `RH_OWNER`, else to the RSA key in the named slot.
    pub(crate) fn set_handle_auth(&mut self, handle: u32, auth: &[u8]) -> (r: Result<
        (),
        DriverError,
    >)
        requires
            old(self).inv(),
        ensures
            final(self).inv(),
            r is Ok <==> !old(self).faulted(FaultCommand::SetHandleAuth) && (handle == RH_OWNER || (
            old(self).occ(handle as int) && old(self).slot_obj(handle as int).is_rsa())),
            r is Ok ==> {
                &&& slots_same(*old(self), *final(self))
                &&& final(self).active_session == old(self).active_session
                &&& final(self).fault == old(self).fault
                &&& final(self).rng_state == old(self).rng_state
                &&& !final(self).session_attrs_set
            },
            r is Ok && handle == RH_OWNER ==> {
                &&& final(self).owner_auth@ == auth@
                &&& final(self).bound_auths == old(self).bound_auths
            },
            r is Ok && handle != RH_OWNER ==> {
                &&& final(self).owner_auth == old(self).owner_auth
                &&& final(self).bound_auths@.len() == old(self).bound_auths@.len()
                &&& final(self).bound_auths@[handle as int]@ == auth@
                &&& forall|i: int|
                    0 <= i < SLOT_TABLE_SIZE as int && i != handle as int
                        ==> final(self).bound_auths@[i] == old(self).bound_auths@[i]
            },
            r is Err ==> *final(self) == *old(self),
            r matches Err(e) ==> (e == DriverError::InjectedFault <==> old(self).faulted(
                FaultCommand::SetHandleAuth,
            )),
            r matches Err(e) ==> (!old(self).faulted(FaultCommand::SetHandleAuth) ==> e
                == DriverError::BadHandle),
    {
        if matches!(self.fault, Some(FaultCommand::SetHandleAuth)) {
            return Err(DriverError::InjectedFault);
        }
        if handle == RH_OWNER {
            self.owner_auth = copy_slice(auth);
            self.session_attrs_set = false;
            return Ok(());
        }
        if handle as usize >= SLOT_TABLE_SIZE {
            return Err(DriverError::BadHandle);
        }
        let is_key = match &self.objects[handle as usize] {
            Some(TpmObject::RsaKey { .. }) => true,
            _ => false,
        };
        if !is_key {
            return Err(DriverError::BadHandle);
        }
        self.bound_auths.set(handle as usize, copy_slice(auth));
        self.session_attrs_set = false;
        Ok(())
    }
}

/// Copy an object, field by field.
pub(crate) fn clone_object(o: &TpmObject) -> (r: TpmObject)
    ensures
        r.same_state(*o),
{
    match o {
        TpmObject::RsaKey { modulus, auth, has_private, sign_cap, decrypt_cap, restricted } => {
            TpmObject::RsaKey {
                modulus: copy_slice(modulus.as_slice()),
                auth: copy_slice(auth.as_slice()),
                has_private: *has_private,
                sign_cap: *sign_cap,
                decrypt_cap: *decrypt_cap,
                restricted: *restricted,
            }
        },
        TpmObject::Session => TpmObject::Session,
    }
}

impl Driver {
    /// Some volatile slot is free.
    pub(crate) open spec fn has_free_slot(self) -> bool {
        exists|i: int| 0 <= i < SLOT_TABLE_SIZE as int && !self.occ(i)
    }

    /// `parent` names a loaded storage key: a restricted, decrypt-capable RSA
    /// key with its private half present.
    pub(crate) open spec fn storage_parent_ok(self, parent: u32) -> bool {
        &&& self.occ(parent as int)
        &&& self.slot_obj(parent as int).is_rsa()
        &&& self.slot_obj(parent as int).has_private_spec()
        &&& self.slot_obj(parent as int).decrypt_cap_spec()
        &&& self.slot_obj(parent as int).restricted_spec()
    }

    /// `handle` names a loaded signing key: a sign-capable RSA key with its
    /// private half present.
    pub(crate) open spec fn signing_key_ok(self, handle: u32) -> bool {
        &&& self.occ(handle as int)
        &&& self.slot_obj(handle as int).is_rsa()
        &&& self.slot_obj(handle as int).has_private_spec()
        &&& self.slot_obj(handle as int).sign_cap_spec()
    }

    /// Index of the first free slot.
    fn find_free_slot(&self) -> (r: Option<u32>)
        requires
            self.inv(),
        ensures
            r matches Some(h) ==> (h as int) < SLOT_TABLE_SIZE as int && !self.occ(h as int),
            r is None ==> !self.has_free_slot(),
    {
        let mut i: usize = 0;
        while i < SLOT_TABLE_SIZE
            invariant
                self.inv(),
                i <= SLOT_TABLE_SIZE,
                forall|j: int| 0 <= j < i ==> self.occ(j),
            decreases SLOT_TABLE_SIZE - i,
        {
            if self.objects[i].is_none() {
                return Some(i as u32);
            }
            i = i + 1;
        }
        None
    }

    /// Derive a primary key under a hierarchy from the given template and
    /// authorization value; the new key occupies a volatile slot.
    pub(crate) fn create_primary_key(
        &mut self,
        hierarchy: u32,
        template: &RsaTemplate,
        auth: &[u8],
    ) -> (r: Result<u32, DriverError>)
        requires
            old(self).inv(),
            template.key_bits as int % 8 == 0,
            template.key_bits as int / 8 <= WIRE_BUFFER_SIZE as int,
        ensures
            final(self).inv(),
            r is Ok <==> !old(self).faulted(FaultCommand::CreatePrimaryKey) && old(
                self,
            ).has_free_slot(),
            r matches Ok(h) ==> {
                &&& (h as int) < SLOT_TABLE_SIZE as int
                &&& !old(self).occ(h as int)
                &&& final(self).occ(h as int)
                &&& slots_same_except(*old(self), *final(self), h as int)
                &&& cmd_frame(*old(self), *final(self))
                &&& !final(self).session_attrs_set
                &&& final(self).slot_obj(h as int).is_rsa()
                &&& final(self).slot_obj(h as int).modulus_spec().len() == template.key_bits as int
                    / 8
                &&& final(self).slot_obj(h as int).auth_spec() == auth@
                &&& final(self).slot_obj(h as int).has_private_spec()
                &&& final(self).slot_obj(h as int).sign_cap_spec() == template.sign
                &&& final(self).slot_obj(h as int).decrypt_cap_spec() == template.decrypt
                &&& final(self).slot_obj(h as int).restricted_spec() == template.restricted
            },
            r is Err ==> *final(self) == *old(self),
            r matches Err(e) ==> (e == DriverError::InjectedFault <==> old(self).faulted(
                FaultCommand::CreatePrimaryKey,
            )),
            r matches Err(e) ==> (!old(self).faulted(FaultCommand::CreatePrimaryKey) ==> e
                == DriverError::ObjectMemory),
    {
        if matches!(self.fault, Some(FaultCommand::CreatePrimaryKey)) {
            return Err(DriverError::InjectedFault);
        }
        let h = match self.find_free_slot() {
            Some(h) => h,
            None => {
                return Err(DriverError::ObjectMemory);
            },
        };
        let modulus = gen_bytes(&mut self.rng_state, (template.key_bits / 8) as usize);
        let obj = TpmObject::RsaKey {
            modulus,
            auth: copy_slice(auth),
            has_private: true,
            sign_cap: template.sign,
            decrypt_cap: template.decrypt,
            restricted: template.restricted,
        };
        self.objects.set(h as usize, Some(obj));
        self.session_attrs_set = false;
        assert(!old(self).occ(h as int));
        Ok(h)
    }

    /// Open a new authenticated session bound to the given handle, using HMAC
    /// authentication, AES-256-CFB parameter encryption and SHA-256 digests;
    /// the session occupies a volatile slot and starts with cleared attribute
    /// flags.
    pub(crate) fn start_auth_session(&mut self, bind_handle: u32) -> (r: Result<u32, DriverError>)
        requires
            old(self).inv(),
        ensures
            final(self).inv(),
            r is Ok <==> !old(self).faulted(FaultCommand::StartAuthSession) && old(
                self,
            ).has_free_slot(),
            r matches Ok(h) ==> {
                &&& (h as int) < SLOT_TABLE_SIZE as int
                &&& !old(self).occ(h as int)
                &&& final(self).occ(h as int)
                &&& final(self).slot_obj(h as int) is Session
                &&& slots_same_except(*old(self), *final(self), h as int)
                &&& cmd_frame(*old(self), *final(self))
                &&& !final(self).session_attrs_set
            },
            r is Err ==> *final(self) == *old(self),
            r matches Err(e) ==> (e == DriverError::InjectedFault <==> old(self).faulted(
                FaultCommand::StartAuthSession,
            )),
            r matches Err(e) ==> (!old(self).faulted(FaultCommand::StartAuthSession) ==> e
                == DriverError::ObjectMemory),
    {
        if matches!(self.fault, Some(FaultCommand::StartAuthSession)) {
            return Err(DriverError::InjectedFault);
        }
        let h = match self.find_free_slot() {
            Some(h) => h,
            None => {
                return Err(DriverError::ObjectMemory);
            },
        };
        self.objects.set(h as usize, Some(TpmObject::Session));
        self.session_attrs_set = false;
        assert(!old(self).occ(h as int));
        Ok(h)
    }

    /// Release the volatile slot the handle names.  Flushing is the one
    /// command the transport cannot be configured to fail: it fails only on a
    /// handle that occupies no slot.
    pub(crate) fn flush_context(&mut self, handle: u32) -> (r: Result<(), DriverError>)
        requires
            old(self).inv(),
        ensures
            final(self).inv(),
            r is Ok <==> old(self).occ(handle as int),
            r is Ok ==> {
                &&& !final(self).occ(handle as int)
                &&& slots_same_except(*old(self), *final(self), handle as int)
                &&& cmd_frame(*old(self), *final(self))
                &&& !final(self).session_attrs_set
            },
            r is Err ==> *final(self) == *old(self),
            r matches Err(e) ==> e == DriverError::BadHandle,
    {
        if handle as usize >= SLOT_TABLE_SIZE {
            return Err(DriverError::BadHandle);
        }
        if self.objects[handle as usize].is_none() {
            return Err(DriverError::BadHandle);
        }
        self.objects.set(handle as usize, None);
        self.session_attrs_set = false;
        Ok(())
    }

    /// Create a child key under a loaded parent from the given template and
    /// authorization value.  The created key is returned as a private/public
    /// pair and occupies no slot until loaded.  Sensitive.
    pub(crate) fn create_key(
        &mut self,
        parent: u32,
        template: &RsaTemplate,
        auth: &[u8],
    ) -> (r: Result<(KeyPrivate, KeyPublic), DriverError>)
        requires
            old(self).inv(),
            template.key_bits as int % 8 == 0,
            template.key_bits as int / 8 <= WIRE_BUFFER_SIZE as int,
        ensures
            final(self).inv(),
            r is Ok <==> !old(self).faulted(FaultCommand::CreateKey) && old(self).session_attrs_set
                && old(self).storage_parent_ok(parent),
            r matches Ok(p) ==> {
                &&& p.0.auth@ == auth@
                &&& p.1.modulus@.len() == template.key_bits as int / 8
                &&& p.1.sign_cap == template.sign
                &&& p.1.decrypt_cap == template.decrypt
                &&& p.1.restricted == template.restricted
                &&& slots_same(*old(self), *final(self))
                &&& cmd_frame(*old(self), *final(self))
                &&& !final(self).session_attrs_set
            },
            r is Err ==> *final(self) == *old(self),
            r matches Err(e) ==> (e == DriverError::InjectedFault <==> old(self).faulted(
                FaultCommand::CreateKey,
            )),
            r matches Err(e) ==> (!old(self).faulted(FaultCommand::CreateKey) && !old(
                self,
            ).session_attrs_set ==> e == DriverError::SessionAttrsNotSet),
            r matches Err(e) ==> (!old(self).faulted(FaultCommand::CreateKey) && old(
                self,
            ).session_attrs_set ==> e == DriverError::BadHandle),
    {
        if matches!(self.fault, Some(FaultCommand::CreateKey)) {
            return Err(DriverError::InjectedFault);
        }
        if !self.session_attrs_set {
            return Err(DriverError::SessionAttrsNotSet);
        }
        if parent as usize >= SLOT_TABLE_SIZE {
            return Err(DriverError::BadHandle);
        }
        let parent_ok = match &self.objects[parent as usize] {
            Some(TpmObject::RsaKey { has_private, decrypt_cap, restricted, .. }) => *has_private
                && *decrypt_cap && *restricted,
            _ => false,
        };
        if !parent_ok {
            return Err(DriverError::BadHandle);
        }
        let modulus = gen_bytes(&mut self.rng_state, (template.key_bits / 8) as usize);
        let key_priv = KeyPrivate { auth: copy_slice(auth) };
        let key_pub = KeyPublic {
            modulus,
            sign_cap: template.sign,
            decrypt_cap: template.decrypt,
            restricted: template.restricted,
        };
        self.session_attrs_set = false;
        Ok((key_priv, key_pub))
    }

    /// Load a created private/public pair under its parent into a volatile
    /// slot.  Sensitive.
    pub(crate) fn load(&mut self, parent: u32, key_priv: KeyPrivate, key_pub: KeyPublic) -> (r:
        Result<u32, DriverError>)
        requires
            old(self).inv(),
            key_pub.modulus@.len() <= WIRE_BUFFER_SIZE as int,
        ensures
            final(self).inv(),
            r is Ok <==> !old(self).faulted(FaultCommand::Load) && old(self).session_attrs_set
                && old(self).storage_parent_ok(parent) && old(self).has_free_slot(),
            r matches Ok(h) ==> {
                &&& (h as int) < SLOT_TABLE_SIZE as int
                &&& !old(self).occ(h as int)
                &&& final(self).occ(h as int)
                &&& slots_same_except(*old(self), *final(self), h as int)
                &&& cmd_frame(*old(self), *final(self))
                &&& !final(self).session_attrs_set
                &&& final(self).slot_obj(h as int).is_rsa()
                &&& final(self).slot_obj(h as int).modulus_spec() == key_pub.modulus@
                &&& final(self).slot_obj(h as int).auth_spec() == key_priv.auth@
                &&& final(self).slot_obj(h as int).has_private_spec()
                &&& final(self).slot_obj(h as int).sign_cap_spec() == key_pub.sign_cap
                &&& final(self).slot_obj(h as int).decrypt_cap_spec() == key_pub.decrypt_cap
                &&& final(self).slot_obj(h as int).restricted_spec() == key_pub.restricted
            },
            r is Err ==> *final(self) == *old(self),
            r matches Err(e) ==> (e == DriverError::InjectedFault <==> old(self).faulted(
                FaultCommand::Load,
            )),
            r matches Err(e) ==> (!old(self).faulted(FaultCommand::Load) && !old(
                self,
            ).session_attrs_set ==> e == DriverError::SessionAttrsNotSet),
            r matches Err(e) ==> (!old(self).faulted(FaultCommand::Load) && old(
                self,
            ).session_attrs_set && !old(self).storage_parent_ok(parent) ==> e
                == DriverError::BadHandle),
            r matches Err(e) ==> (!old(self).faulted(FaultCommand::Load) && old(
                self,
            ).session_attrs_set && old(self).storage_parent_ok(parent) ==> e
                == DriverError::ObjectMemory),
    {
        if matches!(self.fault, Some(FaultCommand::Load)) {
            return Err(DriverError::InjectedFault);
        }
        if !self.session_attrs_set {
            return Err(DriverError::SessionAttrsNotSet);
        }
        if parent as usize >= SLOT_TABLE_SIZE {
            return Err(DriverError::BadHandle);
        }
        let parent_ok = match &self.objects[parent as usize] {
            Some(TpmObject::RsaKey { has_private, decrypt_cap, restricted, .. }) => *has_private
                && *decrypt_cap && *restricted,
            _ => false,
        };
        if !parent_ok {
            return Err(DriverError::BadHandle);
        }
        let h = match self.find_free_slot() {
            Some(h) => h,
            None => {
                return Err(DriverError::ObjectMemory);
            },
        };
        let obj = TpmObject::RsaKey {
            modulus: key_pub.modulus,
            auth: key_priv.auth,
            has_private: true,
            sign_cap: key_pub.sign_cap,
            decrypt_cap: key_pub.decrypt_cap,
            restricted: key_pub.restricted,
        };
        self.objects.set(h as usize, Some(obj));
        self.session_attrs_set = false;
        assert(!old(self).occ(h as int));
        Ok(h)
    }

    /// Load an external public-only object under a hierarchy into a volatile
    /// slot; its modulus is the leading `unique_size` bytes of the template's
    /// unique-value buffer.  Sensitive.
    pub(crate) fn load_external_public(&mut self, template: &RsaTemplate, hierarchy: u32) -> (r:
        Result<u32, DriverError>)
        requires
            old(self).inv(),
            template.unique_size as int <= template.unique@.len(),
            template.unique_size as int <= WIRE_BUFFER_SIZE as int,
        ensures
            final(self).inv(),
            r is Ok <==> !old(self).faulted(FaultCommand::LoadExternalPublic) && old(
                self,
            ).session_attrs_set && old(self).has_free_slot(),
            r matches Ok(h) ==> {
                &&& (h as int) < SLOT_TABLE_SIZE as int
                &&& !old(self).occ(h as int)
                &&& final(self).occ(h as int)
                &&& slots_same_except(*old(self), *final(self), h as int)
                &&& cmd_frame(*old(self), *final(self))
                &&& !final(self).session_attrs_set
                &&& final(self).slot_obj(h as int).is_rsa()
                &&& final(self).slot_obj(h as int).modulus_spec() == template.unique@.take(
                    template.unique_size as int,
                )
                &&& final(self).slot_obj(h as int).auth_spec() == Seq::<u8>::empty()
                &&& !final(self).slot_obj(h as int).has_private_spec()
                &&& final(self).slot_obj(h as int).sign_cap_spec() == template.sign
                &&& final(self).slot_obj(h as int).decrypt_cap_spec() == template.decrypt
                &&& final(self).slot_obj(h as int).restricted_spec() == template.restricted
            },
            r is Err ==> *final(self) == *old(self),
            r matches Err(e) ==> (e == DriverError::InjectedFault <==> old(self).faulted(
                FaultCommand::LoadExternalPublic,
            )),
            r matches Err(e) ==> (!old(self).faulted(FaultCommand::LoadExternalPublic) && !old(
                self,
            ).session_attrs_set ==> e == DriverError::SessionAttrsNotSet),
            r matches Err(e) ==> (!old(self).faulted(FaultCommand::LoadExternalPublic) && old(
                self,
            ).session_attrs_set ==> e == DriverError::ObjectMemory),
    {
        if matches!(self.fault, Some(FaultCommand::LoadExternalPublic)) {
            return Err(DriverError::InjectedFault);
        }
        if !self.session_attrs_set {
            return Err(DriverError::SessionAttrsNotSet);
        }
        let h = match self.find_free_slot() {
            Some(h) => h,
            None => {
                return Err(DriverError::ObjectMemory);
            },
        };
        let modulus = copy_prefix(&template.unique, template.unique_size as usize);
        let obj = TpmObject::RsaKey {
            modulus,
            auth: Vec::new(),
            has_private: false,
            sign_cap: template.sign,
            decrypt_cap: template.decrypt,
            restricted: template.restricted,
        };
        self.objects.set(h as usize, Some(obj));
        self.session_attrs_set = false;
        assert(!old(self).occ(h as int));
        Ok(h)
    }

    /// Export the state of the object in the named slot as an opaque blob;
    /// the slot stays occupied.  Sensitive.
    pub(crate) fn context_save(&mut self, handle: u32) -> (r: Result<ContextBlob, DriverError>)
        requires
            old(self).inv(),
        ensures
            final(self).inv(),
            r is Ok <==> !old(self).faulted(FaultCommand::ContextSave) && old(
                self,
            ).session_attrs_set && old(self).occ(handle as int),
            r matches Ok(b) ==> {
                &&& b.object.same_state(old(self).slot_obj(handle as int))
                &&& slots_same(*old(self), *final(self))
                &&& cmd_frame(*old(self), *final(self))
                &&& !final(self).session_attrs_set
            },
            r is Err ==> *final(self) == *old(self),
            r matches Err(e) ==> (e == DriverError::InjectedFault <==> old(self).faulted(
                FaultCommand::ContextSave,
            )),
            r matches Err(e) ==> (!old(self).faulted(FaultCommand::ContextSave) && !old(
                self,
            ).session_attrs_set ==> e == DriverError::SessionAttrsNotSet),
            r matches Err(e) ==> (!old(self).faulted(FaultCommand::ContextSave) && old(
                self,
            ).session_attrs_set ==> e == DriverError::BadHandle),
    {
        if matches!(self.fault, Some(FaultCommand::ContextSave)) {
            return Err(DriverError::InjectedFault);
        }
        if !self.session_attrs_set {
            return Err(DriverError::SessionAttrsNotSet);
        }
        if handle as usize >= SLOT_TABLE_SIZE {
            return Err(DriverError::BadHandle);
        }
        let object = match &self.objects[handle as usize] {
            Some(o) => clone_object(o),
            None => {
                return Err(DriverError::BadHandle);
            },
        };
        assert(obj_modulus_bounded(self.objects@[handle as int]));
        self.session_attrs_set = false;
        Ok(ContextBlob { object })
    }

    /// Load a saved blob back into a volatile slot.  Sensitive.
    pub(crate) fn context_load(&mut self, blob: ContextBlob) -> (r: Result<u32, DriverError>)
        requires
            old(self).inv(),
        ensures
            final(self).inv(),
            r is Ok <==> !old(self).faulted(FaultCommand::ContextLoad) && old(
                self,
            ).session_attrs_set && old(self).has_free_slot(),
            r matches Ok(h) ==> {
                &&& (h as int) < SLOT_TABLE_SIZE as int
                &&& !old(self).occ(h as int)
                &&& final(self).occ(h as int)
                &&& final(self).slot_obj(h as int) == blob.object
                &&& slots_same_except(*old(self), *final(self), h as int)
                &&& cmd_frame(*old(self), *final(self))
                &&& !final(self).session_attrs_set
            },
            r is Err ==> *final(self) == *old(self),
            r matches Err(e) ==> (e == DriverError::InjectedFault <==> old(self).faulted(
                FaultCommand::ContextLoad,
            )),
            r matches Err(e) ==> (!old(self).faulted(FaultCommand::ContextLoad) && !old(
                self,
            ).session_attrs_set ==> e == DriverError::SessionAttrsNotSet),
            r matches Err(e) ==> (!old(self).faulted(FaultCommand::ContextLoad) && old(
                self,
            ).session_attrs_set ==> e == DriverError::ObjectMemory),
    {
        proof {
            use_type_invariant(&blob);
        }
        if matches!(self.fault, Some(FaultCommand::ContextLoad)) {
            return Err(DriverError::InjectedFault);
        }
        if !self.session_attrs_set {
            return Err(DriverError::SessionAttrsNotSet);
        }
        let h = match self.find_free_slot() {
            Some(h) => h,
            None => {
                return Err(DriverError::ObjectMemory);
            },
        };
        self.objects.set(h as usize, Some(blob.object));
        self.session_attrs_set = false;
        assert(!old(self).occ(h as int));
        Ok(h)
    }

    /// Read the public area of the object in the named slot: for an RSA key,
    /// its modulus in the fixed-capacity wire buffer with its declared size;
    /// for any other object, a public identity this library does not handle.
    /// Sensitive.
    pub(crate) fn read_public(&mut self, handle: u32) -> (r: Result<PublicId, DriverError>)
        requires
            old(self).inv(),
        ensures
            final(self).inv(),
            r is Ok <==> !old(self).faulted(FaultCommand::ReadPublic) && old(
                self,
            ).session_attrs_set && old(self).occ(handle as int),
            r matches Ok(p) ==> {
                &&& slots_same(*old(self), *final(self))
                &&& cmd_frame(*old(self), *final(self))
                &&& !final(self).session_attrs_set
                &&& (p is Rsa <==> old(self).slot_obj(handle as int).is_rsa())
            },
            r matches Ok(p) ==> (p matches PublicId::Rsa { buffer, size } ==> {
                &&& buffer@.len() == WIRE_BUFFER_SIZE as int
                &&& size as int == old(self).slot_obj(handle as int).modulus_spec().len()
                &&& buffer@.take(size as int) == old(self).slot_obj(handle as int).modulus_spec()
            }),
            r is Err ==> *final(self) == *old(self),
            r matches Err(e) ==> (e == DriverError::InjectedFault <==> old(self).faulted(
                FaultCommand::ReadPublic,
            )),
            r matches Err(e) ==> (!old(self).faulted(FaultCommand::ReadPublic) && !old(
                self,
            ).session_attrs_set ==> e == DriverError::SessionAttrsNotSet),
            r matches Err(e) ==> (!old(self).faulted(FaultCommand::ReadPublic) && old(
                self,
            ).session_attrs_set ==> e == DriverError::BadHandle),
    {
        if matches!(self.fault, Some(FaultCommand::ReadPublic)) {
            return Err(DriverError::InjectedFault);
        }
        if !self.session_attrs_set {
            return Err(DriverError::SessionAttrsNotSet);
        }
        if handle as usize >= SLOT_TABLE_SIZE {
            return Err(DriverError::BadHandle);
        }
        assert(obj_modulus_bounded(self.objects@[handle as int]));
        let p = match &self.objects[handle as usize] {
            Some(TpmObject::RsaKey { modulus, .. }) => {
                let size: u16 = modulus.len() as u16;
                let buffer = zero_pad(modulus.as_slice(), WIRE_BUFFER_SIZE);
                PublicId::Rsa { buffer, size }
            },
            Some(TpmObject::Session) => PublicId::Other,
            None => {
                return Err(DriverError::BadHandle);
            },
        };
        self.session_attrs_set = false;
        Ok(p)
    }

    /// Sign a digest with the key in the named slot, under the authorization
    /// value bound to the handle.  The scheme selector and the validation
    /// ticket accompany the command on the wire; the simulated module signs
    /// with the key's RSA-SSA scheme.  Sensitive.
    pub(crate) fn sign(
        &mut self,
        handle: u32,
        digest: &[u8],
        scheme: &SigScheme,
        validation: &HashcheckTicket,
    ) -> (r: Result<Signature, DriverError>)
        requires
            old(self).inv(),
        ensures
            final(self).inv(),
            r is Ok <==> !old(self).faulted(FaultCommand::Sign) && old(self).session_attrs_set
                && old(self).signing_key_ok(handle) && old(self).bound_auths@[handle as int]@ == old(
                self,
            ).slot_obj(handle as int).auth_spec(),
            r matches Ok(s) ==> {
                &&& s.scheme_alg == ALG_RSASSA
                &&& s.signature@ == sim_signature(
                    old(self).slot_obj(handle as int).modulus_spec(),
                    digest@,
                )
                &&& slots_same(*old(self), *final(self))
                &&& cmd_frame(*old(self), *final(self))
                &&& !final(self).session_attrs_set
            },
            r is Err ==> *final(self) == *old(self),
            r matches Err(e) ==> (e == DriverError::InjectedFault <==> old(self).faulted(
                FaultCommand::Sign,
            )),
            r matches Err(e) ==> (!old(self).faulted(FaultCommand::Sign) && !old(
                self,
            ).session_attrs_set ==> e == DriverError::SessionAttrsNotSet),
            r matches Err(e) ==> (!old(self).faulted(FaultCommand::Sign) && old(
                self,
            ).session_attrs_set && !old(self).signing_key_ok(handle) ==> e
                == DriverError::BadHandle),
            r matches Err(e) ==> (!old(self).faulted(FaultCommand::Sign) && old(
                self,
            ).session_attrs_set && old(self).signing_key_ok(handle) ==> e == DriverError::AuthFail),
    {
        if matches!(self.fault, Some(FaultCommand::Sign)) {
            return Err(DriverError::InjectedFault);
        }
        if !self.session_attrs_set {
            return Err(DriverError::SessionAttrsNotSet);
        }
        if handle as usize >= SLOT_TABLE_SIZE {
            return Err(DriverError::BadHandle);
        }
        let sig_bytes: Vec<u8> = match &self.objects[handle as usize] {
            Some(TpmObject::RsaKey { modulus, auth, has_private, sign_cap, .. }) => {
                if !(*has_private && *sign_cap) {
                    return Err(DriverError::BadHandle);
                }
                if !bytes_eq(auth, &self.bound_auths[handle as usize]) {
                    return Err(DriverError::AuthFail);
                }
                compute_signature(modulus, digest)
            },
            _ => {
                return Err(DriverError::BadHandle);
            },
        };
        self.session_attrs_set = false;
        Ok(Signature { scheme_alg: ALG_RSASSA, signature: sig_bytes })
    }

    /// Check a wire signature against the key in the named slot and the
    /// digest; return a verification ticket when it is valid.  Sensitive.
    pub(crate) fn verify_signature(
        &mut self,
        handle: u32,
        digest: &[u8],
        signature: &WireSignature,
    ) -> (r: Result<WireTicket, DriverError>)
        requires
            old(self).inv(),
        ensures
            final(self).inv(),
            r is Ok <==> !old(self).faulted(FaultCommand::VerifySignature) && old(
                self,
            ).session_attrs_set && old(self).occ(handle as int) && old(self).slot_obj(
                handle as int,
            ).is_rsa() && signature.sig@ == sim_signature(
                old(self).slot_obj(handle as int).modulus_spec(),
                digest@,
            ),
            r matches Ok(t) ==> {
                &&& t.tag == ST_VERIFIED
                &&& t.hierarchy == RH_OWNER
                &&& slots_same(*old(self), *final(self))
                &&& cmd_frame(*old(self), *final(self))
                &&& !final(self).session_attrs_set
            },
            r is Err ==> *final(self) == *old(self),
            r matches Err(e) ==> (e == DriverError::InjectedFault <==> old(self).faulted(
                FaultCommand::VerifySignature,
            )),
            r matches Err(e) ==> (!old(self).faulted(FaultCommand::VerifySignature) && !old(
                self,
            ).session_attrs_set ==> e == DriverError::SessionAttrsNotSet),
            r matches Err(e) ==> (!old(self).faulted(FaultCommand::VerifySignature) && old(
                self,
            ).session_attrs_set && !(old(self).occ(handle as int) && old(self).slot_obj(
                handle as int,
            ).is_rsa()) ==> e == DriverError::BadHandle),
            r matches Err(e) ==> (!old(self).faulted(FaultCommand::VerifySignature) && old(
                self,
            ).session_attrs_set && old(self).occ(handle as int) && old(self).slot_obj(
                handle as int,
            ).is_rsa() ==> e == DriverError::BadSignature),
    {
        if matches!(self.fault, Some(FaultCommand::VerifySignature)) {
            return Err(DriverError::InjectedFault);
        }
        if !self.session_attrs_set {
            return Err(DriverError::SessionAttrsNotSet);
        }
        if handle as usize >= SLOT_TABLE_SIZE {
            return Err(DriverError::BadHandle);
        }
        let valid: bool = match &self.objects[handle as usize] {
            Some(TpmObject::RsaKey { modulus, .. }) => {
                let expected = compute_signature(modulus, digest);
                bytes_eq(&expected, &signature.sig)
            },
            _ => {
                return Err(DriverError::BadHandle);
            },
        };
        if !valid {
            return Err(DriverError::BadSignature);
        }
        self.session_attrs_set = false;
        Ok(WireTicket { tag: ST_VERIFIED, hierarchy: RH_OWNER })
    }
}

/// A public identity read back from an object's public area.
pub enum PublicId {
    Rsa {
        /// The modulus in the fixed-capacity wire buffer, zero-padded.
        buffer: Vec<u8>,
        /// The declared byte size of the modulus.
        size: u16,
    },
    Other,
}

} // verus!
