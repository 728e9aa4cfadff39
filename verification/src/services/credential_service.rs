use crate::ledger::{Credential, CredentialView};
use vstd::prelude::*;
use vstd::utf8::encode_utf8;

verus! {

/// The SHA-256 digest of a byte string.
pub uninterp spec fn sha256(data: Seq<u8>) -> Seq<u8>;

/// `sha2::Sha256::digest`, an associated function of the trait
/// `sha2::Digest`: the digest is the SHA-256 value of the bytes handed in.
#[verifier::external_body]
fn sha256_digest(data: &Vec<u8>) -> (digest: Vec<u8>)
    ensures
        digest@ == sha256(data@),
{
    <sha2::Sha256 as sha2::Digest>::digest(data).to_vec()
}

/// What is hashed for a password: the bytes of the salt, then the bytes of
/// the password.
pub open spec fn salted(salt: Seq<char>, password: Seq<char>) -> Seq<u8> {
    encode_utf8(salt) + encode_utf8(password)
}

/// The credential that is stored for `password` under `salt`.
pub open spec fn credential_of(salt: Seq<char>, password: Seq<char>) -> CredentialView {
    CredentialView { salt, digest: sha256(salted(salt, password)) }
}

/// Turns a password into what the ledger stores of it: the salt and the
/// digest of salt and password.
pub fn seal_password(salt: String, password: &String) -> (credential: Credential)
    ensures
        credential@ == credential_of(salt@, password@),
{
    let mut material: Vec<u8> = salt.as_str().as_bytes_vec();
    let mut rest: Vec<u8> = password.as_str().as_bytes_vec();
    material.append(&mut rest);
    let digest = sha256_digest(&material);
    Credential { salt, digest }
}

} // verus!
