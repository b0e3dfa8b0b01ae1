use vstd::prelude::*;

use crate::error::Error;
use crate::records::{MedicalTestV, PatientV};
use crate::state::HospitalV;
use crate::Principal;

verus! {

/// Identifier allocation is 1-based, monotonic and gap-free: in a
/// well-formed store the record at position `i` of each class holds id
/// `i + 1`, so the n-th registered patient received id n, and a
/// registration appends a record whose id is the new count.
pub proof fn lemma_ids_dense(s: HospitalV)
    requires
        s.wf(),
    ensures
        forall|i: int| 0 <= i < s.patients.len() ==> (#[trigger] s.patients[i]).id == i + 1,
        forall|i: int| 0 <= i < s.doctors.len() ==> (#[trigger] s.doctors[i]).id == i + 1,
        forall|i: int| 0 <= i < s.tests.len() ==> (#[trigger] s.tests[i]).id == i + 1,
{
}

/// A successful patient registration grows the store by exactly one record,
/// placed last, whose id is the previous count plus one; every earlier
/// record is untouched.
pub proof fn lemma_registration_assigns_next_id(
    s: HospitalV,
    name: Seq<char>,
    date_of_birth: u64,
    blood_type: Seq<char>,
    allergies: Seq<Seq<char>>,
    insurance_id: Seq<char>,
)
    requires
        s.wf(),
        s.patients.len() < u64::MAX,
    ensures
        ({
            let s1 = s.with_patient_registered(
                name,
                date_of_birth,
                blood_type,
                allergies,
                insurance_id,
            );
            &&& s1.patients.len() == s.patients.len() + 1
            &&& s1.patients.last().id == s.patients.len() + 1
            &&& forall|i: int| 0 <= i < s.patients.len() ==> s1.patients[i] == s.patients[i]
        }),
{
}

/// Fetching the id a registration returned yields a record field-equal to
/// the registration data, with `active` true. Together with the contracts of
/// `register_patient` (which returns that id and leaves the store in
/// `with_patient_registered`) and of `get_patient` (which returns exactly
/// `patients[id - 1]`), this pins the round trip down.
pub proof fn lemma_register_then_get_patient(
    s: HospitalV,
    name: Seq<char>,
    date_of_birth: u64,
    blood_type: Seq<char>,
    allergies: Seq<Seq<char>>,
    insurance_id: Seq<char>,
)
    requires
        s.wf(),
        s.patients.len() < u64::MAX,
    ensures
        ({
            let s1 = s.with_patient_registered(
                name,
                date_of_birth,
                blood_type,
                allergies,
                insurance_id,
            );
            let id = (s.patients.len() + 1) as u64;
            &&& s1.has_patient(id)
            &&& s1.patients[id - 1] == (PatientV {
                id,
                name,
                date_of_birth,
                blood_type,
                allergies,
                insurance_id,
                active: true,
            })
        }),
{
}

/// Deactivating a patient shows `active` false; re-enabling restores the
/// record exactly as it stood when it was active. No other record moves.
pub proof fn lemma_set_active_round_trip(s: HospitalV, id: u64)
    requires
        s.wf(),
        s.has_patient(id),
    ensures
        ({
            let s1 = s.with_patient_active(id, false);
            let s2 = s1.with_patient_active(id, true);
            &&& !s1.patients[id - 1].active
            &&& s2.patients[id - 1].active
            &&& s2.patients[id - 1] == (PatientV { active: true, ..s.patients[id - 1] })
            &&& s.patients[id - 1].active ==> s2.patients[id - 1] == s.patients[id - 1]
            &&& forall|i: int|
                0 <= i < s.patients.len() && i != id - 1 ==> s2.patients[i] == s.patients[i]
        }),
{
    let s1 = s.with_patient_active(id, false);
    let s2 = s1.with_patient_active(id, true);
    assert(s2.patients[id - 1] =~= PatientV { active: true, ..s.patients[id - 1] });
    if s.patients[id - 1].active {
        assert(s2.patients[id - 1] =~= s.patients[id - 1]);
    }
}

/// The listing is in strictly ascending id order, and its length is the
/// patient count — one entry per successful registration, since each
/// successful registration grows the count by exactly one and nothing else
/// moves it. `list_patients` returns exactly these records.
pub proof fn lemma_listing_ascending(s: HospitalV)
    requires
        s.wf(),
    ensures
        forall|i: int, j: int|
            0 <= i < j < s.patients.len() ==> (#[trigger] s.patients[i]).id < (
            #[trigger] s.patients[j]).id,
        forall|i: int, j: int|
            0 <= i < j < s.doctors.len() ==> (#[trigger] s.doctors[i]).id < (
            #[trigger] s.doctors[j]).id,
{
}

/// The authorization gate turns exactly the callers other than the stored
/// administrator away, with `Unauthorized`; before initialization it turns
/// everyone away, with `Uninitialized`. Every mutating operation whose gate
/// answers `Some(e)` returns `Err(e)` and leaves the store untouched — its
/// contract says so — so a non-administrator changes no counter and no
/// record.
pub proof fn lemma_gate_admits_only_admin(s: HospitalV, caller: Principal)
    ensures
        s.gate(caller) is None <==> s.admin == Some(caller),
        s.admin is None ==> s.gate(caller) == Some(Error::Uninitialized),
        s.admin is Some && s.admin != Some(caller) ==> s.gate(caller) == Some(Error::Unauthorized),
{
}

/// Recording a test appends its fresh id to both the patient's and the
/// practitioner's relationship index, stores the record unchanged under that
/// id, and touches no other record or index. `get_medical_test` on that id
/// returns exactly this record.
pub proof fn lemma_record_then_get_test(
    s: HospitalV,
    patient_id: u64,
    doctor_id: u64,
    test_type: Seq<char>,
    test_date: u64,
    results: Seq<char>,
    notes: Seq<char>,
)
    requires
        s.wf(),
        s.has_patient(patient_id),
        s.has_doctor(doctor_id),
        s.tests.len() < u64::MAX,
    ensures
        ({
            let s1 = s.with_test_recorded(
                patient_id,
                doctor_id,
                test_type,
                test_date,
                results,
                notes,
            );
            let id = (s.tests.len() + 1) as u64;
            &&& s1.has_test(id)
            &&& s1.tests[id - 1] == (MedicalTestV {
                id,
                patient_id,
                doctor_id,
                test_type,
                test_date,
                results,
                notes,
            })
            &&& s1.patient_tests[patient_id - 1] == s.patient_tests[patient_id - 1].push(id)
            &&& s1.doctor_tests[doctor_id - 1] == s.doctor_tests[doctor_id - 1].push(id)
            &&& s1.patients == s.patients
            &&& s1.doctors == s.doctors
            &&& forall|p: int|
                0 <= p < s.patients.len() && p != patient_id - 1
                    ==> s1.patient_tests[p] == s.patient_tests[p]
            &&& forall|d: int|
                0 <= d < s.doctors.len() && d != doctor_id - 1
                    ==> s1.doctor_tests[d] == s.doctor_tests[d]
        }),
{
}

} // verus!
