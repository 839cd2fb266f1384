//! The hash a deployment of a module is recorded with.

use vstd::prelude::*;

use crate::types::WasmModule;

verus! {

/// The SHA-256 digest of a byte string.
pub uninterp spec fn sha256_of(data: Seq<u8>) -> Seq<u8>;

/// Relies on sha2's `Sha256::digest`: the 32-byte SHA-256 digest of the input.
#[verifier::external_body]
fn sha256_digest(data: &[u8]) -> (r: Vec<u8>)
    ensures
        r@ == sha256_of(data@),
        r@.len() == 32,
{
    <sha2::Sha256 as sha2::Digest>::digest(data).to_vec()
}

impl WasmModule {
    /// The hash that a deployment of this module is recorded with: the digest
    /// of the inline bytes, or the whole-module hash given with the chunks.
    pub open spec fn expected_hash_spec(self) -> Seq<u8> {
        match self {
            WasmModule::Bytes(bytes) => sha256_of(bytes@),
            WasmModule::ChunkedModule(chunked) => chunked.wasm_module_hash@,
        }
    }

    /// The hash that a deployment of this module is recorded with.
    pub fn expected_hash(&self) -> (r: Vec<u8>)
        ensures
            r@ == self.expected_hash_spec(),
    {
        match self {
            WasmModule::Bytes(bytes) => sha256_digest(bytes.as_slice()),
            WasmModule::ChunkedModule(chunked) => chunked.wasm_module_hash.clone(),
        }
    }
}

} // verus!
