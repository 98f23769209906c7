//! Binding of the policy text to the measurement taken when the VM was launched.
use sha2::Digest;
use crate::text::copy_bytes;
use vstd::prelude::*;
use vstd::string::StringSliceAdditionalSpecFns;

verus! {

/// The SHA-256 digest of `data`.
pub uninterp spec fn sha256_of(data: Seq<u8>) -> Seq<u8>;

/// Relies on `sha2::Sha256::digest`: the SHA-256 digest of `data`, 32 bytes long.
#[verifier::external_body]
fn sha256(data: &[u8]) -> (r: Vec<u8>)
    ensures
        r@ == sha256_of(data@),
        r@.len() == 32,
{
    sha2::Sha256::digest(data).to_vec()
}

/// A policy whose text hashes to `host_data` may be installed.
pub open spec fn policy_accepted(policy: Seq<u8>, host_data: Seq<u8>) -> bool {
    sha256_of(policy) == host_data
}

/// The policy's digest differs from the launch measurement.
#[derive(Debug)]
pub struct BindingError {
    /// The digest of the policy text that was offered.
    pub digest: Vec<u8>,
    /// The host data that the firmware's report carries.
    pub expected: Vec<u8>,
}

/// The SHA-256 digest of the policy text, over its UTF-8 bytes.
pub fn policy_digest(policy: &str) -> (r: Vec<u8>)
    ensures
        r@ == sha256_of(policy.spec_bytes()),
        r@.len() == 32,
{
    sha256(policy.as_bytes())
}

/// Compares a digest with the firmware's host data, byte for byte.
pub fn digest_matches(digest: &[u8], host_data: &[u8]) -> (r: bool)
    ensures
        r == (digest@ == host_data@),
{
    if digest.len() != host_data.len() {
        return false;
    }
    let mut i: usize = 0;
    while i < digest.len()
        invariant
            digest@.len() == host_data@.len(),
            i <= digest@.len(),
            forall|j: int| 0 <= j < i ==> digest@[j] == host_data@[j],
        decreases digest@.len() - i,
    {
        if digest[i] != host_data[i] {
            return false;
        }
        i = i + 1;
    }
    assert(digest@ =~= host_data@);
    true
}

/// Checks that the policy text about to be installed is the one the VM was
/// launched with: its SHA-256 digest must equal the report's host data.
pub fn check_policy_hash(policy: &str, host_data: &[u8]) -> (r: Result<(), BindingError>)
    ensures
        r is Ok <==> policy_accepted(policy.spec_bytes(), host_data@),
        r is Err ==> r->Err_0.digest@ == sha256_of(policy.spec_bytes())
            && r->Err_0.expected@ == host_data@,
{
    let digest = policy_digest(policy);
    if digest_matches(digest.as_slice(), host_data) {
        Ok(())
    } else {
        let expected = copy_bytes(host_data);
        Err(BindingError { digest, expected })
    }
}

/// A measurement admits at most one policy digest: when a policy is accepted
/// under one measurement, any other measurement (one that differs from it in
/// even a single bit) rejects that policy.
pub proof fn lemma_measurement_admits_one_digest(
    policy: Seq<u8>,
    host_data: Seq<u8>,
    other: Seq<u8>,
)
    requires
        policy_accepted(policy, host_data),
        other != host_data,
    ensures
        !policy_accepted(policy, other),
{
}

} // verus!
