use ark_bls12_381::{Bls12_381, Fr};
use ark_crypto_primitives::SNARK;
use ark_groth16::Groth16;
use ark_relations::r1cs::{
    ConstraintSynthesizer, ConstraintSystemRef, LinearCombination, SynthesisError,
};
use ark_serialize::CanonicalSerialize;
use arkworks_native_gadgets::from_field_elements;
use vaccine_ledger::errors::Error;
use vaccine_ledger::ledger::VaccineLedger;
use vaccine_ledger::proofgate::{verify, VerifierStore};

pub const ALICE: u64 = 1;
pub const EVE: u64 = 5;

// One public input c with witnesses a, b and the single constraint
// a * b = c.
#[derive(Clone)]
struct MulCircuit {
    a: Option<Fr>,
    b: Option<Fr>,
}

impl ConstraintSynthesizer<Fr> for MulCircuit {
    fn generate_constraints(self, cs: ConstraintSystemRef<Fr>) -> Result<(), SynthesisError> {
        let a = cs.new_witness_variable(|| self.a.ok_or(SynthesisError::AssignmentMissing))?;
        let b = cs.new_witness_variable(|| self.b.ok_or(SynthesisError::AssignmentMissing))?;
        let c = cs.new_input_variable(|| {
            let a = self.a.ok_or(SynthesisError::AssignmentMissing)?;
            let b = self.b.ok_or(SynthesisError::AssignmentMissing)?;
            Ok(a * b)
        })?;
        cs.enforce_constraint(
            LinearCombination::from(a),
            LinearCombination::from(b),
            LinearCombination::from(c),
        )?;
        Ok(())
    }
}

fn proving_material() -> (Vec<u8>, Vec<u8>, Vec<u8>) {
    // Returns (public input bytes, proof bytes, verification key bytes)
    // for a valid instance of the circuit.
    let mut rng = ark_std::test_rng();
    let a = Fr::from(3u64);
    let b = Fr::from(7u64);
    let c = a * b;
    let (pk, vk) =
        Groth16::<Bls12_381>::circuit_specific_setup(MulCircuit { a: None, b: None }, &mut rng)
            .unwrap();
    let proof =
        Groth16::<Bls12_381>::prove(&pk, MulCircuit { a: Some(a), b: Some(b) }, &mut rng).unwrap();
    let mut vk_bytes: Vec<u8> = Vec::new();
    vk.serialize(&mut vk_bytes).unwrap();
    let mut proof_bytes: Vec<u8> = Vec::new();
    proof.serialize(&mut proof_bytes).unwrap();
    let input_bytes = from_field_elements(&[c]).unwrap();
    (input_bytes, proof_bytes, vk_bytes)
}

#[test]
fn groth16_verify_accepts_valid_proof() {
    let (input_bytes, proof_bytes, vk_bytes) = proving_material();
    assert!(verify(&input_bytes, &proof_bytes, &vk_bytes));
    // a different public input is rejected
    let wrong = from_field_elements(&[Fr::from(22u64)]).unwrap();
    assert!(!verify(&wrong, &proof_bytes, &vk_bytes));
    // bytes that decode to no proof are rejected
    assert!(!verify(&input_bytes, &vk_bytes, &vk_bytes));
}

#[test]
fn verifier_store_gates_on_key_and_proof() {
    let (input_bytes, proof_bytes, vk_bytes) = proving_material();
    let mut store = VerifierStore::new();
    assert_eq!(store.run_verifier(&input_bytes, &proof_bytes), Err(Error::NoVerificationKey));
    store.add_vkey(vk_bytes);
    assert_eq!(store.run_verifier(&input_bytes, &proof_bytes), Ok(()));
    let garbage: Vec<u8> = vec![1, 2, 3];
    assert_eq!(store.run_verifier(&input_bytes, &garbage), Err(Error::VerificationFailed));
}

#[test]
fn check_immune_reads_count_through_the_proof_gate() {
    let (input_bytes, proof_bytes, vk_bytes) = proving_material();
    let cid: Vec<u8> = vec![7u8; 32];
    let mut ledger = VaccineLedger::new(3);
    ledger.set_genesis_account(ALICE);
    assert!(ledger.register_vac_pass(EVE, 1).is_ok());
    assert!(ledger.register_vac_pass(EVE, 2).is_ok());

    // the content identifier must be registered first
    assert_eq!(
        ledger.check_immune(&input_bytes, &proof_bytes, EVE, &cid),
        Err(Error::NotExistCID)
    );
    ledger.register_cid(cid.clone());
    assert_eq!(ledger.cid_storage(&cid), true);
    // without a verification key the proof gate rejects
    assert_eq!(
        ledger.check_immune(&input_bytes, &proof_bytes, EVE, &cid),
        Err(Error::NoVerificationKey)
    );
    ledger.add_vkey(vk_bytes);
    // a wrong proof fails verification
    let garbage: Vec<u8> = vec![9u8; 16];
    assert_eq!(
        ledger.check_immune(&input_bytes, &garbage, EVE, &cid),
        Err(Error::VerificationFailed)
    );
    // a passing proof reads the administration count
    assert_eq!(ledger.check_immune(&input_bytes, &proof_bytes, EVE, &cid), Ok(2));
    // a recipient without a passport has no count to read
    assert_eq!(
        ledger.check_immune(&input_bytes, &proof_bytes, ALICE, &cid),
        Err(Error::NotRegisteredVaccinePass)
    );
}
