use vstd::prelude::*;
use crate::driver::Driver;
use crate::protocol::{attestation_request, document_of};

pub mod driver;
pub mod protocol;
pub mod singleton;

verus! {

/// Produces an attestation document that binds `user_data`.
///
/// The bytes go to the driver as the user data of an attestation request with
/// neither a public key nor a nonce. The document of an attestation reply comes
/// back as it is; any other reply comes back as an empty byte sequence, which
/// callers read as "no document". Under the mock backend the result is always
/// a non-empty document.
pub fn attest(driver: &Driver, user_data: &[u8]) -> (r: Vec<u8>)
    ensures
        driver.is_mock() ==> r@.len() > 0,
{
    let reply = driver.process_request(attestation_request(user_data));
    document_of(reply)
}

} // verus!
