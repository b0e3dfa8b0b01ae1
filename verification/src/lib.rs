//! A verified record-management engine for a hospital ledger: monotonic
//! identifier allocation, patient / doctor / medical-test persistence, and the
//! per-owner indices that let a test record be found both through the patient
//! it belongs to and the practitioner who performed it.
//!
//! The engine is written against an explicit store value; the surrounding
//! host (which supplies atomic commits and the caller's identity proof) loads
//! that value, applies one operation, and persists the result.

use vstd::prelude::*;

mod error;
mod laws;
mod records;
mod state;
mod store;

pub use error::Error;
pub use laws::{
    lemma_gate_admits_only_admin, lemma_ids_dense, lemma_listing_ascending,
    lemma_record_then_get_test, lemma_register_then_get_patient,
    lemma_registration_assigns_next_id, lemma_set_active_round_trip,
};
pub use records::{Doctor, DoctorV, MedicalTest, MedicalTestV, Patient, PatientV};
pub use state::{tests_of_doctor, tests_of_patient, HospitalV};
pub use store::{DataKey, HospitalContract};

verus! {

/// The single identity that is allowed to perform mutating operations,
/// as the host's authorization primitive established it.
#[derive(Clone, Copy, Debug, PartialEq, Eq, Structural)]
pub struct Principal(pub u64);

} // verus!
