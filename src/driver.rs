use vstd::prelude::*;
use nsm_nitro_enclave_utils::api::nsm::{Digest, ErrorCode, Request, Response};
use nsm_nitro_enclave_utils::api::{ByteBuf, DecodePrivateKey, SecretKey};
use nsm_nitro_enclave_utils::driver::dev::{DevNitro, DevNitroBuilder};
use nsm_nitro_enclave_utils::driver::nitro::Nitro;
use nsm_nitro_enclave_utils::driver::Driver as _;
use nsm_nitro_enclave_utils::pcr::Pcrs;
use crate::protocol::{AttestationRequest, Reply};

verus! {

#[verifier::external_type_specification]
#[verifier::external_body]
pub struct ExNitro(Nitro);

#[verifier::external_type_specification]
#[verifier::external_body]
pub struct ExDevNitro(DevNitro);

#[verifier::external_type_specification]
#[verifier::external_body]
pub struct ExDevNitroBuilder(DevNitroBuilder);

#[verifier::external_type_specification]
#[verifier::external_body]
pub struct ExPcrs(Pcrs);

#[verifier::external_type_specification]
#[verifier::external_body]
pub struct ExPkcs8Error(p384::pkcs8::Error);

#[verifier::external_type_specification]
pub struct ExResponse(Response);

#[verifier::external_type_specification]
pub struct ExErrorCode(ErrorCode);

#[verifier::external_type_specification]
pub struct ExDigest(Digest);

/// Whether a byte string is a PKCS#8 (DER) encoding of a P-384 private key.
pub uninterp spec fn decodes_as_p384_key(der: Seq<u8>) -> bool;

/// The measurement slots of a measurement set, by register index.
pub uninterp spec fn pcr_slots(pcrs: Pcrs) -> Map<int, Seq<u8>>;

/// What a mock-driver builder holds: the end-entity certificate, the
/// intermediate certificates that the built driver will list, and the
/// measurement slots that it will report.
pub uninterp spec fn builder_settings(builder: DevNitroBuilder) -> (Seq<u8>, Seq<Seq<u8>>, Map<int, Seq<u8>>);

/// What a mock driver puts in every document it signs: the end-entity
/// certificate, the intermediate certificates, and the measurement slots.
pub uninterp spec fn signer_settings(signer: DevNitro) -> (Seq<u8>, Seq<Seq<u8>>, Map<int, Seq<u8>>);

/// The register indexes of a measurement set: 0 to 4, and 8.
pub open spec fn is_pcr_index(k: int) -> bool {
    0 <= k <= 4 || k == 8
}

/// The all-zero measurement set: each of its registers holds 48 zero bytes.
pub open spec fn zero_pcr_slots() -> Map<int, Seq<u8>> {
    Map::new(|k: int| is_pcr_index(k), |k: int| Seq::new(48, |j: int| 0u8))
}

/// The views of a list of certificates, in order.
pub open spec fn cert_views(certs: Seq<Vec<u8>>) -> Seq<Seq<u8>> {
    certs.map_values(|c: Vec<u8>| c@)
}

/// Relies on `SecretKey::from_pkcs8_der` (p384, through `DecodePrivateKey`) to
/// decode the signing key, and hands the key and the end-entity certificate to
/// `DevNitro::builder`, which sets no intermediate certificates. Whether
/// decoding succeeds depends on the bytes alone.
#[verifier::external_body]
fn dev_builder(signing_key: &[u8], end_cert: Vec<u8>) -> (r: Result<DevNitroBuilder, p384::pkcs8::Error>)
    ensures
        r is Ok <==> decodes_as_p384_key(signing_key@),
        r is Ok ==> builder_settings(r->Ok_0).0 == end_cert@,
        r is Ok ==> builder_settings(r->Ok_0).1 == Seq::<Seq<u8>>::empty(),
{
    match SecretKey::from_pkcs8_der(signing_key) {
        Ok(key) => Ok(DevNitro::builder(key, ByteBuf::from(end_cert))),
        Err(e) => Err(e),
    }
}

/// Relies on `Pcrs::zeros`: registers 0 to 4 and 8, each 48 zero bytes.
#[verifier::external_body]
fn zeroed_pcrs() -> (r: Pcrs)
    ensures
        pcr_slots(r) == zero_pcr_slots(),
{
    Pcrs::zeros()
}

/// Relies on `DevNitroBuilder::pcrs`: replaces the measurements, keeps the rest.
#[verifier::external_body]
fn builder_with_pcrs(builder: DevNitroBuilder, pcrs: Pcrs) -> (r: DevNitroBuilder)
    ensures
        builder_settings(r) == (builder_settings(builder).0, builder_settings(builder).1, pcr_slots(pcrs)),
{
    builder.pcrs(pcrs)
}

/// Relies on `DevNitroBuilder::ca_bundle`: replaces the intermediate
/// certificates with those given, in the order given, and keeps the rest.
#[verifier::external_body]
fn builder_with_ca_bundle(builder: DevNitroBuilder, int_certs: Vec<Vec<u8>>) -> (r: DevNitroBuilder)
    ensures
        builder_settings(r) == (builder_settings(builder).0, cert_views(int_certs@), builder_settings(builder).2),
{
    builder.ca_bundle(int_certs.into_iter().map(ByteBuf::from).collect())
}

/// Relies on `DevNitroBuilder::build`, which moves the settings into a driver.
#[verifier::external_body]
fn builder_build(builder: DevNitroBuilder) -> (r: DevNitro)
    ensures
        signer_settings(r) == builder_settings(builder),
{
    builder.build()
}

/// Relies on `Nitro::init`, which opens the secure module's device. It does not
/// report a failure to open it: requests then come back as errors.
#[verifier::external_body]
fn open_nitro() -> (r: Nitro) {
    Nitro::init()
}

/// A request to the secure module.
pub enum ModuleRequest {
    /// Ask for an attestation document.
    Attestation(AttestationRequest),
    /// Ask the module to describe itself; used to check that it answers.
    Describe,
}

/// Relies on `<Nitro as Driver>::process_request`, which hands the request to
/// the secure module; what comes back is the module's to decide.
#[verifier::external_body]
fn nitro_process(driver: &Nitro, request: ModuleRequest) -> (r: Response) {
    driver.process_request(match request {
        ModuleRequest::Attestation(a) => Request::Attestation {
            user_data: Some(ByteBuf::from(a.user_data)),
            public_key: a.public_key.map(ByteBuf::from),
            nonce: a.nonce.map(ByteBuf::from),
        },
        ModuleRequest::Describe => Request::DescribeNSM,
    })
}

/// Relies on `<DevNitro as Driver>::process_request`: to an attestation request
/// it answers with the signed COSE_Sign1 encoding of the document. Signing
/// with a P-384 key cannot fail, and coset's encoding of a COSE_Sign1 whose
/// protected header holds only the algorithm into a `Vec` cannot fail either,
/// so the answer is always a document; a CBOR encoding is never empty.
#[verifier::external_body]
fn dev_process(driver: &DevNitro, request: AttestationRequest) -> (r: Response)
    ensures
        match r {
            Response::Attestation { document } => document@.len() > 0,
            _ => false,
        },
{
    driver.process_request(Request::Attestation {
        user_data: Some(ByteBuf::from(request.user_data)),
        public_key: request.public_key.map(ByteBuf::from),
        nonce: request.nonce.map(ByteBuf::from),
    })
}

/// The reply that a module's response stands for.
pub open spec fn reply_of(response: Response) -> Reply {
    match response {
        Response::Attestation { document } => Reply::Attestation { document },
        Response::Error(_) => Reply::Error,
        _ => Reply::Other,
    }
}

/// Turns a module's response into a reply, keeping the document of an
/// attestation response as it is.
pub fn reply_from(response: Response) -> (r: Reply)
    ensures
        r == reply_of(response),
{
    match response {
        Response::Attestation { document } => Reply::Attestation { document },
        Response::Error(_) => Reply::Error,
        _ => Reply::Other,
    }
}

/// Why a driver could not be built.
#[derive(Debug, PartialEq, Eq, Structural)]
pub enum DriverError {
    /// The signing key is not a PKCS#8 encoding of a P-384 key.
    CredentialDecode,
    /// The secure module is unreachable or does not answer.
    DriverInit,
}

/// The key material of the mock backend, as read at startup: a PKCS#8 (DER)
/// signing key, the DER end-entity certificate, and the DER intermediate
/// certificates in the order supplied.
pub struct CredentialBundle {
    pub signing_key: Vec<u8>,
    pub end_cert: Vec<u8>,
    pub int_certs: Vec<Vec<u8>>,
}

/// Which backend the process attests with.
pub enum DriverConfig {
    /// The platform's secure module.
    Hardware,
    /// A local signer built from the given credentials.
    Mock(CredentialBundle),
}

/// An attestation driver: one of two backends behind one operation.
pub enum Driver {
    Hardware(Nitro),
    Mock(DevNitro),
}

/// What a mock driver built from `c` embeds: the bundle's end-entity
/// certificate, its intermediate certificates in the order supplied, and the
/// all-zero measurement set.
pub open spec fn mock_settings_of(c: CredentialBundle) -> (Seq<u8>, Seq<Seq<u8>>, Map<int, Seq<u8>>) {
    (c.end_cert@, cert_views(c.int_certs@), zero_pcr_slots())
}

/// What building the mock driver from `c` may give: a driver exactly when the
/// signing key decodes, one that embeds the bundle's certificates and zero
/// measurements, and otherwise a decoding error.
pub open spec fn mock_outcome(c: CredentialBundle, r: Result<Driver, DriverError>) -> bool {
    &&& (r is Ok <==> decodes_as_p384_key(c.signing_key@))
    &&& (r is Ok ==> r->Ok_0.is_mock() && r->Ok_0.mock_settings() == mock_settings_of(c))
    &&& (r is Err ==> r->Err_0 == DriverError::CredentialDecode)
}

/// What building the hardware driver may give: a hardware driver, or the
/// error that the module does not answer.
pub open spec fn hardware_outcome(r: Result<Driver, DriverError>) -> bool {
    &&& (r is Ok ==> !r->Ok_0.is_mock())
    &&& (r is Err ==> r->Err_0 == DriverError::DriverInit)
}

/// What building the driver that `config` selects may give.
pub open spec fn config_outcome(config: DriverConfig, r: Result<Driver, DriverError>) -> bool {
    match config {
        DriverConfig::Hardware => hardware_outcome(r),
        DriverConfig::Mock(c) => mock_outcome(c, r),
    }
}

impl Driver {
    pub open spec fn is_mock(&self) -> bool {
        self is Mock
    }

    /// What a mock driver embeds in its documents.
    pub open spec fn mock_settings(&self) -> (Seq<u8>, Seq<Seq<u8>>, Map<int, Seq<u8>>) {
        match self {
            Driver::Mock(d) => signer_settings(*d),
            Driver::Hardware(_) => (Seq::empty(), Seq::empty(), Map::empty()),
        }
    }

    /// Keeps a freshly opened module handle only if the module answered the
    /// probe: an error reply means that it is unreachable or unsupported.
    pub fn hardware_from_probe(nitro: Nitro, probe: Reply) -> (r: Result<Driver, DriverError>)
        ensures
            r is Err <==> probe is Error,
            hardware_outcome(r),
    {
        match probe {
            Reply::Error => Err(DriverError::DriverInit),
            _ => Ok(Driver::Hardware(nitro)),
        }
    }

    /// A driver that talks to the platform's secure module. The module is
    /// asked to describe itself once; if it cannot, construction fails.
    pub fn hardware() -> (r: Result<Driver, DriverError>)
        ensures
            hardware_outcome(r),
    {
        let nitro = open_nitro();
        let probe = reply_from(nitro_process(&nitro, ModuleRequest::Describe));
        Driver::hardware_from_probe(nitro, probe)
    }

    /// A mock driver that signs documents with the bundle's key, embeds the
    /// bundle's end-entity certificate and intermediate certificates in the
    /// order supplied, and reports an all-zero measurement set. Fails exactly
    /// when the signing key does not decode.
    pub fn mock(credentials: CredentialBundle) -> (r: Result<Driver, DriverError>)
        ensures
            mock_outcome(credentials, r),
    {
        let ghost c = credentials;
        let CredentialBundle { signing_key, end_cert, int_certs } = credentials;
        match dev_builder(signing_key.as_slice(), end_cert) {
            Ok(builder) => {
                let builder = builder_with_pcrs(builder, zeroed_pcrs());
                let builder = builder_with_ca_bundle(builder, int_certs);
                let r = Ok(Driver::Mock(builder_build(builder)));
                assert(r->Ok_0.mock_settings() == mock_settings_of(c));
                r
            },
            Err(_) => Err(DriverError::CredentialDecode),
        }
    }

    /// Builds the driver that a configuration selects.
    pub fn from_config(config: DriverConfig) -> (r: Result<Driver, DriverError>)
        ensures
            config_outcome(config, r),
    {
        match config {
            DriverConfig::Hardware => Driver::hardware(),
            DriverConfig::Mock(credentials) => Driver::mock(credentials),
        }
    }

    /// Submits an attestation request to the backend. The mock backend always
    /// answers with a non-empty document.
    pub fn process_request(&self, request: AttestationRequest) -> (r: Reply)
        ensures
            self.is_mock() ==> (r is Attestation && r->Attestation_document@.len() > 0),
    {
        match self {
            Driver::Hardware(nitro) => reply_from(nitro_process(nitro, ModuleRequest::Attestation(request))),
            Driver::Mock(dev) => reply_from(dev_process(dev, request)),
        }
    }
}

} // verus!
