use coset::CborSerializable;
use deno_nitro::attest;
use deno_nitro::driver::{CredentialBundle, Driver, DriverConfig, DriverError};
use deno_nitro::protocol::{AttestationRequest, Reply};
use deno_nitro::singleton::DriverCell;
use nsm_nitro_enclave_utils::api::nsm::AttestationDoc;
use nsm_nitro_enclave_utils::api::ByteBuf;
use nsm_nitro_enclave_utils::driver::nitro::Nitro;
use p384::pkcs8::EncodePrivateKey;

fn signing_key_der() -> Vec<u8> {
    let key = p384::SecretKey::from_slice(&[7u8; 48]).unwrap();
    key.to_pkcs8_der().unwrap().as_bytes().to_vec()
}

fn bundle() -> CredentialBundle {
    CredentialBundle {
        signing_key: signing_key_der(),
        end_cert: vec![0x30, 0x01, 0xEE],
        int_certs: vec![vec![0x30, 0x02, 0x01], vec![0x30, 0x02, 0x02]],
    }
}

fn mock_driver() -> Driver {
    match Driver::mock(bundle()) {
        Ok(d) => d,
        Err(e) => panic!("mock driver failed: {:?}", e),
    }
}

fn decode(document: &[u8]) -> AttestationDoc {
    let cose = coset::CoseSign1::from_slice(document).unwrap();
    let payload = cose.payload.unwrap();
    AttestationDoc::from_binary(&payload).unwrap()
}

fn bytes_of(b: Option<ByteBuf>) -> Option<Vec<u8>> {
    b.map(|b| b.into_vec())
}

#[test]
fn mock_documents_carry_user_data_verbatim() {
    let driver = mock_driver();
    let inputs: Vec<Vec<u8>> = vec![vec![], vec![0], b"hello, world".to_vec(), (0..=255u8).collect(), vec![0xAB; 1000]];
    for input in inputs {
        let doc = attest(&driver, &input);
        assert!(!doc.is_empty());
        let decoded = decode(&doc);
        assert_eq!(bytes_of(decoded.user_data), Some(input.clone()));
    }
}

#[test]
fn empty_input_gives_a_document_with_empty_user_data() {
    let driver = mock_driver();
    let doc = attest(&driver, &[]);
    assert!(!doc.is_empty());
    let decoded = decode(&doc);
    assert_eq!(bytes_of(decoded.user_data), Some(vec![]));
    assert_eq!(decoded.nonce, None);
    assert_eq!(decoded.public_key, None);
    assert!(!decoded.pcrs.is_empty());
    for (_, value) in decoded.pcrs.iter() {
        assert!(value.iter().all(|b| *b == 0));
    }
}

#[test]
fn mock_measurements_are_all_zero() {
    let driver = mock_driver();
    let decoded = decode(&attest(&driver, b"pcrs"));
    let slots: Vec<usize> = decoded.pcrs.keys().cloned().collect();
    assert_eq!(slots, vec![0, 1, 2, 3, 4, 8]);
    for (_, value) in decoded.pcrs.iter() {
        assert_eq!(value.len(), 48);
        assert!(value.iter().all(|b| *b == 0));
    }
}

#[test]
fn mock_documents_carry_the_credentials() {
    let driver = mock_driver();
    let decoded = decode(&attest(&driver, b"certs"));
    assert_eq!(decoded.certificate.into_vec(), vec![0x30, 0x01, 0xEE]);
    let chain: Vec<Vec<u8>> = decoded.cabundle.into_iter().map(|c| c.into_vec()).collect();
    assert_eq!(chain, vec![vec![0x30, 0x02, 0x01], vec![0x30, 0x02, 0x02]]);
}

#[test]
fn two_calls_agree_on_the_bound_fields() {
    let driver = mock_driver();
    let a = decode(&attest(&driver, b"same input"));
    let b = decode(&attest(&driver, b"same input"));
    assert_eq!(bytes_of(a.user_data), Some(b"same input".to_vec()));
    assert_eq!(bytes_of(b.user_data), Some(b"same input".to_vec()));
    assert_eq!(a.public_key, None);
    assert_eq!(b.public_key, None);
    assert_eq!(a.nonce, None);
    assert_eq!(b.nonce, None);
    assert_eq!(a.pcrs, b.pcrs);
}

#[test]
fn public_key_and_nonce_are_embedded() {
    let driver = mock_driver();
    let reply = driver.process_request(AttestationRequest {
        user_data: vec![1, 2, 3],
        public_key: Some(vec![9, 9]),
        nonce: Some(vec![4, 5, 6, 7]),
    });
    let document = match reply {
        Reply::Attestation { document } => document,
        _ => panic!("expected an attestation reply"),
    };
    let decoded = decode(&document);
    assert_eq!(bytes_of(decoded.user_data), Some(vec![1, 2, 3]));
    assert_eq!(bytes_of(decoded.public_key), Some(vec![9, 9]));
    assert_eq!(bytes_of(decoded.nonce), Some(vec![4, 5, 6, 7]));
}

#[test]
fn malformed_signing_key_is_a_credential_decode_error() {
    let mut b = bundle();
    b.signing_key = vec![1, 2, 3, 4];
    assert!(matches!(Driver::mock(b), Err(DriverError::CredentialDecode)));

    let mut empty = bundle();
    empty.signing_key = vec![];
    assert!(matches!(Driver::mock(empty), Err(DriverError::CredentialDecode)));

    let mut truncated = bundle();
    truncated.signing_key.truncate(20);
    assert!(matches!(
        Driver::from_config(DriverConfig::Mock(truncated)),
        Err(DriverError::CredentialDecode)
    ));
}

#[test]
fn malformed_signing_key_leaves_the_cell_empty() {
    let mut cell = DriverCell::new();
    let mut b = bundle();
    b.signing_key = vec![0xFF; 10];
    assert!(matches!(cell.get_or_init(DriverConfig::Mock(b)), Err(DriverError::CredentialDecode)));
    assert!(cell.get().is_none());
    assert_eq!(cell.constructions(), 0);
}

#[test]
fn cell_builds_the_driver_once() {
    let mut cell = DriverCell::new();
    assert!(cell.get().is_none());
    let first = cell.get_or_init(DriverConfig::Mock(bundle())).unwrap();
    for _ in 0..5 {
        let again = cell.get_or_init(DriverConfig::Mock(bundle())).unwrap();
        assert!(std::sync::Arc::ptr_eq(&first, &again));
    }
    let held = cell.get().unwrap();
    assert!(std::sync::Arc::ptr_eq(&first, &held));
    assert_eq!(cell.constructions(), 1);
    assert!(!attest(&held, b"shared").is_empty());
}

#[test]
fn cell_keeps_its_driver_whatever_config_follows() {
    let mut cell = DriverCell::new();
    let first = cell.get_or_init(DriverConfig::Mock(bundle())).unwrap();
    let mut bad = bundle();
    bad.signing_key = vec![];
    let again = cell.get_or_init(DriverConfig::Mock(bad)).unwrap();
    assert!(std::sync::Arc::ptr_eq(&first, &again));
    assert_eq!(cell.constructions(), 1);
}

#[test]
fn hardware_driver_without_a_module_fails_to_initialise() {
    assert!(matches!(Driver::hardware(), Err(DriverError::DriverInit)));
    assert!(matches!(
        Driver::from_config(DriverConfig::Hardware),
        Err(DriverError::DriverInit)
    ));
}

#[test]
fn hardware_failure_leaves_the_cell_empty() {
    let mut cell = DriverCell::new();
    assert!(matches!(cell.get_or_init(DriverConfig::Hardware), Err(DriverError::DriverInit)));
    assert!(cell.get().is_none());
    assert_eq!(cell.constructions(), 0);
}

#[test]
fn probe_error_means_no_module() {
    let failed = Driver::hardware_from_probe(Nitro::init(), Reply::Error);
    assert!(matches!(failed, Err(DriverError::DriverInit)));
    let answered = Driver::hardware_from_probe(Nitro::init(), Reply::Other);
    assert!(matches!(answered, Ok(Driver::Hardware(_))));
}

#[test]
fn empty_intermediate_chain_is_kept_empty() {
    let mut b = bundle();
    b.int_certs = vec![];
    let driver = Driver::mock(b).unwrap();
    let decoded = decode(&attest(&driver, b"no chain"));
    assert!(decoded.cabundle.is_empty());
    assert_eq!(decoded.pcrs.len(), 6);
}
