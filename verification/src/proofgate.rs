//! The proof gate: a Groth16 zero-knowledge verifier over BLS12-381,
//! holding one verification key and the last submitted proof.  It
//! only answers pass or fail; it grants no write access to any store.

use vstd::prelude::*;
use vstd::slice::slice_to_vec;
use crate::errors::Error;
use ark_bls12_381::Bls12_381;
use ark_crypto_primitives::SNARK;
use ark_groth16::{Groth16, Proof, VerifyingKey};
use ark_serialize::CanonicalDeserialize;
use arkworks_native_gadgets::to_field_elements;

verus! {

/// Whether the Groth16 verifier accepts the proof against the public
/// inputs and the verification key, all in their byte encodings.  The
/// answer depends on the three byte strings alone.
pub uninterp spec fn groth16_accepts(public_inputs: Seq<u8>, proof: Seq<u8>, vk: Seq<u8>) -> bool;

/// Relies on `ark_groth16::Groth16::verify` (with the deserializers of
/// `ark_serialize` and `arkworks_native_gadgets::to_field_elements` to
/// read the byte encodings): a pure pairing check over the inputs.  A
/// byte string that decodes to no key, input vector or proof is
/// rejected.
#[verifier::external_body]
pub fn verify(public_inp_bytes: &[u8], proof_bytes: &[u8], vk_bytes: &[u8]) -> (r: bool)
    ensures
        r == groth16_accepts(public_inp_bytes@, proof_bytes@, vk_bytes@),
{
    let inputs = match to_field_elements::<ark_bls12_381::Fr>(public_inp_bytes) {
        Ok(v) => v,
        Err(_) => return false,
    };
    let vk = match VerifyingKey::<Bls12_381>::deserialize(vk_bytes) {
        Ok(v) => v,
        Err(_) => return false,
    };
    let proof = match Proof::<Bls12_381>::deserialize(proof_bytes) {
        Ok(p) => p,
        Err(_) => return false,
    };
    matches!(Groth16::<Bls12_381>::verify(&vk, &inputs, &proof), Ok(true))
}

/// The verifier's own storage: one verification key slot and the slot
/// for the proof last submitted.
pub struct VerifierStore {
    pub vkey: Option<Vec<u8>>,
    pub proof: Option<Vec<u8>>,
}

/// The mathematical value of the verifier storage.
pub struct VerifierStoreV {
    pub vkey: Option<Seq<u8>>,
    pub proof: Option<Seq<u8>>,
}

impl View for VerifierStore {
    type V = VerifierStoreV;

    open spec fn view(&self) -> VerifierStoreV {
        VerifierStoreV {
            vkey: if self.vkey is Some {
                Some(self.vkey->0@)
            } else {
                None
            },
            proof: if self.proof is Some {
                Some(self.proof->0@)
            } else {
                None
            },
        }
    }
}

impl VerifierStore {
    /// An empty store: no key, no proof.
    pub fn new() -> (r: Self)
        ensures
            r@.vkey is None,
            r@.proof is None,
    {
        VerifierStore { vkey: None, proof: None }
    }

    /// Stores the verification key, replacing any earlier one.
    pub fn add_vkey(&mut self, vkey: Vec<u8>)
        ensures
            final(self)@.vkey == Some(vkey@),
            final(self)@.proof == old(self)@.proof,
    {
        self.vkey = Some(vkey);
    }

    /// Submits a proof: the proof is stored, then checked against the
    /// stored verification key.  Succeeds exactly when a key is present
    /// and the verifier accepts the proof over the public inputs.
    pub fn run_verifier(&mut self, public_inp_bytes: &[u8], proof: &[u8]) -> (r: Result<(), Error>)
        ensures
            final(self)@.vkey == old(self)@.vkey,
            final(self)@.proof == Some(proof@),
            match r {
                Ok(()) => old(self)@.vkey is Some && groth16_accepts(
                    public_inp_bytes@,
                    proof@,
                    old(self)@.vkey->0,
                ),
                Err(Error::NoVerificationKey) => old(self)@.vkey is None,
                Err(Error::VerificationFailed) => old(self)@.vkey is Some && !groth16_accepts(
                    public_inp_bytes@,
                    proof@,
                    old(self)@.vkey->0,
                ),
                Err(_) => false,
            },
    {
        self.proof = Some(slice_to_vec(proof));
        match &self.vkey {
            None => Err(Error::NoVerificationKey),
            Some(vkeystr) => {
                if verify(public_inp_bytes, proof, vkeystr.as_slice()) {
                    Ok(())
                } else {
                    Err(Error::VerificationFailed)
                }
            },
        }
    }
}

} // verus!
