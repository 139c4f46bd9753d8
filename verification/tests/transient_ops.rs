//! End-to-end tests of the transient-object context over the simulated
//! module: construction, key creation, import, read-back round trips,
//! sign/verify, error reporting, slot accounting and fault injection.

use tpm_transient::DriverError;
use tpm_transient::Error;
use tpm_transient::FaultCommand;
use tpm_transient::Signature;
use tpm_transient::TransientObjectContext;
use tpm_transient::TransportConfig;

fn fresh_context() -> TransientObjectContext {
    TransientObjectContext::new(TransportConfig { fault: None }, 2048, 32, &[]).unwrap()
}

fn faulty_context(fault: FaultCommand) -> TransientObjectContext {
    TransientObjectContext::new(TransportConfig { fault: Some(fault) }, 2048, 0, &[]).unwrap()
}

#[test]
fn construction_succeeds_for_all_valid_sizes() {
    for &key_size in &[1024usize, 2048] {
        for &auth_size in &[0usize, 1, 16, 32] {
            let ctx =
                TransientObjectContext::new(TransportConfig { fault: None }, key_size, auth_size, &[])
                    .unwrap();
            assert_eq!(ctx.occupied_slots(), 2);
        }
    }
}

#[test]
fn construction_with_owner_hierarchy_auth_succeeds() {
    let ctx = TransientObjectContext::new(
        TransportConfig { fault: None },
        1024,
        8,
        &[1, 2, 3, 4],
    )
    .unwrap();
    assert_eq!(ctx.occupied_slots(), 2);
}

#[test]
fn construction_rejects_oversized_auth() {
    let r = TransientObjectContext::new(TransportConfig { fault: None }, 2048, 33, &[]);
    assert_eq!(r.err().unwrap(), Error::WrongParamSize);
}

#[test]
fn construction_rejects_oversized_auth_before_any_module_call() {
    // Even with every random-source call configured to fail, validation wins:
    // the sizes are checked before the module is touched.
    let r = TransientObjectContext::new(
        TransportConfig { fault: Some(FaultCommand::GetRandom) },
        2048,
        33,
        &[],
    );
    assert_eq!(r.err().unwrap(), Error::WrongParamSize);
}

#[test]
fn construction_rejects_unsupported_key_sizes() {
    for &key_size in &[0usize, 512, 1536, 3072, 4096] {
        let r = TransientObjectContext::new(TransportConfig { fault: None }, key_size, 0, &[]);
        assert_eq!(r.err().unwrap(), Error::WrongParamSize);
    }
}

#[test]
fn create_returns_auth_of_requested_length() {
    let mut ctx = fresh_context();
    for &auth_size in &[0usize, 1, 16, 32] {
        let (_blob, auth) = ctx.create_rsa_signing_key(2048, auth_size).unwrap();
        assert_eq!(auth.len(), auth_size);
    }
}

#[test]
fn create_rejects_bad_sizes() {
    let mut ctx = fresh_context();
    assert_eq!(ctx.create_rsa_signing_key(2048, 33).err().unwrap(), Error::WrongParamSize);
    assert_eq!(ctx.create_rsa_signing_key(512, 0).err().unwrap(), Error::WrongParamSize);
    assert_eq!(ctx.create_rsa_signing_key(4096, 32).err().unwrap(), Error::WrongParamSize);
    assert_eq!(ctx.occupied_slots(), 2);
}

#[test]
fn created_key_reads_back_with_expected_length() {
    let mut ctx = fresh_context();
    let (blob, _auth) = ctx.create_rsa_signing_key(2048, 0).unwrap();
    assert_eq!(ctx.read_public_key(blob).unwrap().len(), 256);
    let (blob, _auth) = ctx.create_rsa_signing_key(1024, 0).unwrap();
    assert_eq!(ctx.read_public_key(blob).unwrap().len(), 128);
}

#[test]
fn imported_key_reads_back_unchanged() {
    let mut ctx = fresh_context();
    let bytes_128: Vec<u8> = (0..128u32).map(|i| (i * 7 + 3) as u8).collect();
    let blob = ctx.load_external_rsa_public_key(&bytes_128).unwrap();
    assert_eq!(ctx.read_public_key(blob).unwrap(), bytes_128);
    let bytes_256: Vec<u8> = (0..256u32).map(|i| (255 - i) as u8).collect();
    let blob = ctx.load_external_rsa_public_key(&bytes_256).unwrap();
    assert_eq!(ctx.read_public_key(blob).unwrap(), bytes_256);
}

#[test]
fn import_rejects_bad_lengths_without_module_calls() {
    let mut ctx = fresh_context();
    for len in [0usize, 1, 127, 129, 255, 257, 512] {
        let bytes = vec![0xABu8; len];
        assert_eq!(
            ctx.load_external_rsa_public_key(&bytes).err().unwrap(),
            Error::WrongParamSize
        );
    }
    assert_eq!(ctx.occupied_slots(), 2);
}

#[test]
fn sign_then_verify_succeeds() {
    let mut ctx = fresh_context();
    let (blob, auth) = ctx.create_rsa_signing_key(2048, 16).unwrap();
    let digest = vec![0x5Au8; 32];
    let signature = ctx.sign(blob.duplicate(), &auth, &digest).unwrap();
    assert_eq!(signature.signature.len(), 256);
    let ticket = ctx.verify_signature(blob, &digest, signature).unwrap();
    assert_eq!(ticket.hierarchy, 0x40000001);
}

#[test]
fn verify_rejects_corrupted_digest() {
    let mut ctx = fresh_context();
    let (blob, auth) = ctx.create_rsa_signing_key(1024, 4).unwrap();
    let digest = vec![0x11u8; 32];
    let signature = ctx.sign(blob.duplicate(), &auth, &digest).unwrap();
    let mut corrupted = digest.clone();
    corrupted[0] ^= 0xFF;
    let r = ctx.verify_signature(blob, &corrupted, signature);
    assert_eq!(r.err().unwrap(), Error::Driver(DriverError::BadSignature));
    assert_eq!(ctx.occupied_slots(), 2);
}

#[test]
fn verify_rejects_corrupted_signature() {
    let mut ctx = fresh_context();
    let (blob, auth) = ctx.create_rsa_signing_key(2048, 0).unwrap();
    let digest = vec![0x22u8; 32];
    let mut signature = ctx.sign(blob.duplicate(), &auth, &digest).unwrap();
    signature.signature[17] ^= 0x01;
    let r = ctx.verify_signature(blob, &digest, signature);
    assert_eq!(r.err().unwrap(), Error::Driver(DriverError::BadSignature));
}

#[test]
fn verify_reports_conversion_error_for_oversized_signature() {
    let mut ctx = fresh_context();
    let (blob, _auth) = ctx.create_rsa_signing_key(2048, 0).unwrap();
    let digest = vec![0u8; 32];
    let signature = Signature { scheme_alg: 0x0014, signature: vec![0u8; 513] };
    let r = ctx.verify_signature(blob, &digest, signature);
    assert_eq!(r.err().unwrap(), Error::Conversion);
    assert_eq!(ctx.occupied_slots(), 2);
}

#[test]
fn verify_reports_conversion_error_for_unsupported_scheme() {
    let mut ctx = fresh_context();
    let (blob, auth) = ctx.create_rsa_signing_key(2048, 0).unwrap();
    let digest = vec![9u8; 20];
    let mut signature = ctx.sign(blob.duplicate(), &auth, &digest).unwrap();
    signature.scheme_alg = 0x0010;
    let r = ctx.verify_signature(blob, &digest, signature);
    assert_eq!(r.err().unwrap(), Error::Conversion);
}

#[test]
fn sign_rejects_wrong_auth() {
    let mut ctx = fresh_context();
    let (blob, auth) = ctx.create_rsa_signing_key(2048, 8).unwrap();
    let mut wrong = auth.clone();
    wrong[0] ^= 0x80;
    let r = ctx.sign(blob, &wrong, &[0u8; 32]);
    assert_eq!(r.err().unwrap(), Error::Driver(DriverError::AuthFail));
    assert_eq!(ctx.occupied_slots(), 2);
}

#[test]
fn sign_rejects_public_only_key() {
    let mut ctx = fresh_context();
    let bytes = vec![0x42u8; 128];
    let blob = ctx.load_external_rsa_public_key(&bytes).unwrap();
    let r = ctx.sign(blob, &[], &[0u8; 32]);
    assert_eq!(r.err().unwrap(), Error::Driver(DriverError::BadHandle));
    assert_eq!(ctx.occupied_slots(), 2);
}

#[test]
fn slot_occupancy_is_unchanged_across_any_sequence() {
    let mut ctx = fresh_context();
    assert_eq!(ctx.occupied_slots(), 2);
    let (blob, auth) = ctx.create_rsa_signing_key(2048, 16).unwrap();
    assert_eq!(ctx.occupied_slots(), 2);
    let imported = ctx.load_external_rsa_public_key(&[7u8; 256]).unwrap();
    assert_eq!(ctx.occupied_slots(), 2);
    let _bytes = ctx.read_public_key(imported).unwrap();
    assert_eq!(ctx.occupied_slots(), 2);
    let digest = vec![3u8; 32];
    let signature = ctx.sign(blob.duplicate(), &auth, &digest).unwrap();
    assert_eq!(ctx.occupied_slots(), 2);
    let _ticket = ctx.verify_signature(blob, &digest, signature).unwrap();
    assert_eq!(ctx.occupied_slots(), 2);
    let _ = ctx.create_rsa_signing_key(2048, 33);
    let _ = ctx.load_external_rsa_public_key(&[0u8; 5]);
    assert_eq!(ctx.occupied_slots(), 2);
}

#[test]
fn construction_fails_under_injected_faults() {
    for fault in [
        FaultCommand::GetRandom,
        FaultCommand::CreatePrimaryKey,
        FaultCommand::StartAuthSession,
    ] {
        let r = TransientObjectContext::new(TransportConfig { fault: Some(fault) }, 2048, 16, &[]);
        assert_eq!(r.err().unwrap(), Error::Driver(DriverError::InjectedFault));
    }
    // The owner-hierarchy binding is only issued when an owner auth is given.
    let r = TransientObjectContext::new(
        TransportConfig { fault: Some(FaultCommand::SetHandleAuth) },
        2048,
        0,
        &[1],
    );
    assert_eq!(r.err().unwrap(), Error::Driver(DriverError::InjectedFault));
    let ctx = TransientObjectContext::new(
        TransportConfig { fault: Some(FaultCommand::SetHandleAuth) },
        2048,
        0,
        &[],
    )
    .unwrap();
    assert_eq!(ctx.occupied_slots(), 2);
}

#[test]
fn construction_skips_random_source_for_zero_auth() {
    // With the random source failing, construction still succeeds when no
    // auth bytes are requested.
    let ctx = faulty_context(FaultCommand::GetRandom);
    assert_eq!(ctx.occupied_slots(), 2);
}

#[test]
fn create_flushes_slot_when_save_fails() {
    let mut ctx = faulty_context(FaultCommand::ContextSave);
    let r = ctx.create_rsa_signing_key(2048, 0);
    assert_eq!(r.err().unwrap(), Error::Driver(DriverError::InjectedFault));
    assert_eq!(ctx.occupied_slots(), 2);
    // A second attempt fails the same way: the slot was released exactly
    // once, so the table is neither leaking nor double-freed.
    let r = ctx.create_rsa_signing_key(2048, 0);
    assert_eq!(r.err().unwrap(), Error::Driver(DriverError::InjectedFault));
    assert_eq!(ctx.occupied_slots(), 2);
}

#[test]
fn import_flushes_slot_when_save_fails() {
    let mut ctx = faulty_context(FaultCommand::ContextSave);
    let r = ctx.load_external_rsa_public_key(&[1u8; 128]);
    assert_eq!(r.err().unwrap(), Error::Driver(DriverError::InjectedFault));
    assert_eq!(ctx.occupied_slots(), 2);
}

#[test]
fn read_flushes_slot_when_read_fails() {
    let mut ctx = faulty_context(FaultCommand::ReadPublic);
    let (blob, auth) = ctx.create_rsa_signing_key(2048, 4).unwrap();
    let r = ctx.read_public_key(blob.duplicate());
    assert_eq!(r.err().unwrap(), Error::Driver(DriverError::InjectedFault));
    assert_eq!(ctx.occupied_slots(), 2);
    // The context stays fully usable: signing does not issue a read-public
    // command, so it still goes through.
    let signature = ctx.sign(blob, &auth, &[8u8; 32]).unwrap();
    assert_eq!(signature.signature.len(), 256);
    assert_eq!(ctx.occupied_slots(), 2);
}

#[test]
fn sign_flushes_slot_when_signing_fails() {
    let mut ctx = faulty_context(FaultCommand::Sign);
    let (blob, auth) = ctx.create_rsa_signing_key(1024, 0).unwrap();
    let r = ctx.sign(blob.duplicate(), &auth, &[0u8; 32]);
    assert_eq!(r.err().unwrap(), Error::Driver(DriverError::InjectedFault));
    assert_eq!(ctx.occupied_slots(), 2);
    assert_eq!(ctx.read_public_key(blob).unwrap().len(), 128);
}

#[test]
fn sign_flushes_slot_when_auth_binding_fails() {
    let mut ctx = faulty_context(FaultCommand::SetHandleAuth);
    let (blob, auth) = ctx.create_rsa_signing_key(2048, 0).unwrap();
    let r = ctx.sign(blob, &auth, &[0u8; 32]);
    assert_eq!(r.err().unwrap(), Error::Driver(DriverError::InjectedFault));
    assert_eq!(ctx.occupied_slots(), 2);
}

#[test]
fn verify_flushes_slot_when_verification_fails() {
    let mut ctx = faulty_context(FaultCommand::VerifySignature);
    let (blob, auth) = ctx.create_rsa_signing_key(2048, 0).unwrap();
    let digest = vec![1u8; 32];
    let signature = ctx.sign(blob.duplicate(), &auth, &digest).unwrap();
    let r = ctx.verify_signature(blob, &digest, signature);
    assert_eq!(r.err().unwrap(), Error::Driver(DriverError::InjectedFault));
    assert_eq!(ctx.occupied_slots(), 2);
}

#[test]
fn load_and_create_faults_surface_and_leak_nothing() {
    let mut ctx = faulty_context(FaultCommand::CreateKey);
    let r = ctx.create_rsa_signing_key(2048, 0);
    assert_eq!(r.err().unwrap(), Error::Driver(DriverError::InjectedFault));
    assert_eq!(ctx.occupied_slots(), 2);
    let mut ctx = faulty_context(FaultCommand::Load);
    let r = ctx.create_rsa_signing_key(2048, 0);
    assert_eq!(r.err().unwrap(), Error::Driver(DriverError::InjectedFault));
    assert_eq!(ctx.occupied_slots(), 2);
    let mut ctx = faulty_context(FaultCommand::ContextLoad);
    let blob = {
        let mut good = fresh_context();
        good.load_external_rsa_public_key(&[9u8; 128]).unwrap()
    };
    let r = ctx.read_public_key(blob);
    assert_eq!(r.err().unwrap(), Error::Driver(DriverError::InjectedFault));
    assert_eq!(ctx.occupied_slots(), 2);
}

#[test]
fn session_attribute_assertion_is_required_every_operation() {
    // The module drops the encrypt/decrypt session attributes after every
    // command, so each operation must reassert them; with the assertion
    // command failing, construction still succeeds (it relies on the default
    // session's initial attributes) but every later operation fails.
    let mut ctx = faulty_context(FaultCommand::SetSessionAttr);
    assert_eq!(ctx.occupied_slots(), 2);
    let r = ctx.create_rsa_signing_key(2048, 0);
    assert_eq!(r.err().unwrap(), Error::Driver(DriverError::InjectedFault));
    let r = ctx.load_external_rsa_public_key(&[1u8; 128]);
    assert_eq!(r.err().unwrap(), Error::Driver(DriverError::InjectedFault));
    assert_eq!(ctx.occupied_slots(), 2);
}

#[test]
fn signatures_are_deterministic_per_key_and_digest() {
    let mut ctx = fresh_context();
    let (blob, auth) = ctx.create_rsa_signing_key(2048, 0).unwrap();
    let digest = vec![0xC3u8; 32];
    let s1 = ctx.sign(blob.duplicate(), &auth, &digest).unwrap();
    let s2 = ctx.sign(blob.duplicate(), &auth, &digest).unwrap();
    assert_eq!(s1.signature, s2.signature);
    assert_eq!(s1.scheme_alg, s2.scheme_alg);
    let other = vec![0xC4u8; 32];
    let s3 = ctx.sign(blob, &auth, &other).unwrap();
    assert_ne!(s1.signature, s3.signature);
}

#[test]
fn verify_rejects_signature_from_another_key() {
    let mut ctx = fresh_context();
    let (blob_a, auth_a) = ctx.create_rsa_signing_key(2048, 8).unwrap();
    let (blob_b, _auth_b) = ctx.create_rsa_signing_key(2048, 8).unwrap();
    let digest = vec![0x77u8; 32];
    let signature = ctx.sign(blob_a, &auth_a, &digest).unwrap();
    let r = ctx.verify_signature(blob_b, &digest, signature);
    assert_eq!(r.err().unwrap(), Error::Driver(DriverError::BadSignature));
    assert_eq!(ctx.occupied_slots(), 2);
}
