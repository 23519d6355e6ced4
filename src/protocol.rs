use vstd::prelude::*;

verus! {

/// A request for an attestation document.
///
/// `user_data` is bound into the document as given. `public_key` and `nonce`,
/// when present, are embedded verbatim so that a verifier can tie a session key
/// or a freshness value to the document.
pub struct AttestationRequest {
    pub user_data: Vec<u8>,
    pub public_key: Option<Vec<u8>>,
    pub nonce: Option<Vec<u8>>,
}

/// What a driver answers to a request.
pub enum Reply {
    /// A signed attestation document, as the backend produced it.
    Attestation { document: Vec<u8> },
    /// The module reported an error.
    Error,
    /// Any other kind of answer, which carries no document.
    Other,
}

/// The bytes that a reply hands to the caller: the document of an attestation
/// reply, and nothing for every other reply.
pub open spec fn reply_document(reply: Reply) -> Seq<u8> {
    match reply {
        Reply::Attestation { document } => document@,
        _ => Seq::empty(),
    }
}

impl Reply {
    pub open spec fn is_attestation(&self) -> bool {
        self is Attestation
    }
}

/// Builds the request that the attestation facade sends: the caller's bytes as
/// user data, with neither a public key nor a nonce.
pub fn attestation_request(user_data: &[u8]) -> (r: AttestationRequest)
    ensures
        r.user_data@ == user_data@,
        r.public_key is None,
        r.nonce is None,
{
    AttestationRequest { user_data: copy_bytes(user_data), public_key: None, nonce: None }
}

/// An owned copy of a byte slice.
pub fn copy_bytes(bytes: &[u8]) -> (r: Vec<u8>)
    ensures
        r@ == bytes@,
{
    let mut out: Vec<u8> = Vec::with_capacity(bytes.len());
    let mut i: usize = 0;
    while i < bytes.len()
        invariant
            i <= bytes@.len(),
            out@ == bytes@.subrange(0, i as int),
        decreases bytes@.len() - i,
    {
        out.push(bytes[i]);
        i = i + 1;
    }
    assert(out@ == bytes@.subrange(0, bytes@.len() as int));
    out
}

/// Takes the document out of a reply. A reply of any other kind yields an
/// empty byte sequence, the signal that no document is available.
pub fn document_of(reply: Reply) -> (r: Vec<u8>)
    ensures
        r@ == reply_document(reply),
        !reply.is_attestation() ==> r@.len() == 0,
{
    match reply {
        Reply::Attestation { document } => document,
        _ => Vec::new(),
    }
}

} // verus!
