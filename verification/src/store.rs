use vstd::prelude::*;

use crate::error::Error;
use crate::records::{clone_doctor, clone_patient, clone_test, Doctor, MedicalTest, Patient};
use crate::state::{
    lemma_wf_doctor_active, lemma_wf_patient_active, lemma_wf_record_test,
    lemma_wf_register_doctor, lemma_wf_register_patient, lemma_wf_update_doctor,
    lemma_wf_update_patient, lemma_wf_with_admin, HospitalV,
};
use crate::Principal;

verus! {

/// The key space of the persisted layout a host keeps the store under: the
/// administrator, one counter per record class, each record under its id,
/// and each owner's sequence of test ids.
#[derive(Clone, Debug, PartialEq, Eq)]
pub enum DataKey {
    Admin,
    Patient(u64),
    Doctor(u64),
    MedicalTest(u64),
    PatientTests(u64),
    DoctorTests(u64),
    PatientCount,
    DoctorCount,
    TestCount,
}

/// The record store: administrator, the three record classes in registration
/// order (the id of a record is its position plus one, so each class's
/// counter is the length of its vector), and the two relationship indices,
/// kept positionally alongside their owners.
pub struct HospitalContract {
    pub admin: Option<Principal>,
    pub patients: Vec<Patient>,
    pub doctors: Vec<Doctor>,
    pub tests: Vec<MedicalTest>,
    pub patient_tests: Vec<Vec<u64>>,
    pub doctor_tests: Vec<Vec<u64>>,
}

impl View for HospitalContract {
    type V = HospitalV;

    open spec fn view(&self) -> HospitalV {
        HospitalV {
            admin: self.admin,
            patients: self.patients.deep_view(),
            doctors: self.doctors.deep_view(),
            tests: self.tests.deep_view(),
            patient_tests: self.patient_tests.deep_view(),
            doctor_tests: self.doctor_tests.deep_view(),
        }
    }
}

impl HospitalContract {
    /// A store that no one has initialized yet.
    pub fn new() -> (s: HospitalContract)
        ensures
            s@ == HospitalV::empty(),
            s@.wf(),
    {
        let s = HospitalContract {
            admin: None,
            patients: Vec::new(),
            doctors: Vec::new(),
            tests: Vec::new(),
            patient_tests: Vec::new(),
            doctor_tests: Vec::new(),
        };
        proof {
            assert(s@ =~~= HospitalV::empty());
        }
        s
    }

    /// Sets the administrator; refused once one is set. Every later mutating
    /// operation demands this principal as its caller.
    pub fn initialize(&mut self, admin: Principal) -> (r: Result<Principal, Error>)
        requires
            old(self)@.wf(),
        ensures
            final(self)@.wf(),
            (if old(self)@.admin is Some {
                r == Err::<Principal, Error>(Error::AlreadyInitialized) && final(self)@ == old(
                    self)@
            } else {
                &&& r == Ok::<Principal, Error>(admin)
                &&& final(self)@ == old(self)@.with_admin(admin)
                &&& final(self)@.patients.len() == 0
                &&& final(self)@.doctors.len() == 0
                &&& final(self)@.tests.len() == 0
            }),
    {
        let ghost pre = self@;
        if self.admin.is_some() {
            return Err(Error::AlreadyInitialized);
        }
        self.admin = Some(admin);
        proof {
            lemma_wf_with_admin(pre, admin);
            assert(self@ =~~= pre.with_admin(admin));
        }
        Ok(admin)
    }

    /// The authorization gate: `Uninitialized` before any administrator is
    /// set, `Unauthorized` for any caller but the administrator. Reads only.
    pub fn check_admin(&self, caller: Principal) -> (r: Result<(), Error>)
        ensures
            (match self@.gate(caller) {
                Some(e) => r == Err::<(), Error>(e),
                None => r == Ok::<(), Error>(()),
            }),
    {
        match &self.admin {
            None => Err(Error::Uninitialized),
            Some(a) => {
                if *a == caller {
                    Ok(())
                } else {
                    Err(Error::Unauthorized)
                }
            },
        }
    }

    /// Registers a patient under the next id, with `active` true and an
    /// empty relationship index. Administrator only.
    pub fn register_patient(
        &mut self,
        caller: Principal,
        name: String,
        date_of_birth: u64,
        blood_type: String,
        allergies: Vec<String>,
        insurance_id: String,
    ) -> (r: Result<u64, Error>)
        requires
            old(self)@.wf(),
            old(self)@.patients.len() < u64::MAX,
        ensures
            final(self)@.wf(),
            (match old(self)@.gate(caller) {
                Some(e) => r == Err::<u64, Error>(e) && final(self)@ == old(self)@,
                None => r == Ok::<u64, Error>((old(self)@.patients.len() + 1) as u64) && final(
                    self)@ == old(self)@.with_patient_registered(
                    name@,
                    date_of_birth,
                    blood_type@,
                    allergies.deep_view(),
                    insurance_id@,
                ),
            }),
    {
        let ghost pre = self@;
        let ghost nv = name@;
        let ghost bv = blood_type@;
        let ghost av = allergies.deep_view();
        let ghost iv = insurance_id@;
        if let Err(e) = self.check_admin(caller) {
            return Err(e);
        }
        let new_id: u64 = (self.patients.len() as u64) + 1;
        let patient = Patient {
            id: new_id,
            name,
            date_of_birth,
            blood_type,
            allergies,
            insurance_id,
            active: true,
        };
        self.patients.push(patient);
        self.patient_tests.push(Vec::new());
        proof {
            lemma_wf_register_patient(pre, nv, date_of_birth, bv, av, iv);
            assert(self@ =~~= pre.with_patient_registered(nv, date_of_birth, bv, av, iv));
        }
        Ok(new_id)
    }

    /// Returns a copy of the patient record under `id`.
    pub fn get_patient(&self, id: u64) -> (r: Result<Patient, Error>)
        ensures
            (match r {
                Ok(p) => self@.has_patient(id) && p@ == self@.patients[id - 1],
                Err(e) => e == Error::NotFound && !self@.has_patient(id),
            }),
    {
        if 1 <= id && id <= self.patients.len() as u64 {
            Ok(clone_patient(&self.patients[(id - 1) as usize]))
        } else {
            Err(Error::NotFound)
        }
    }

    /// Returns copies of every patient record, in ascending id order.
    pub fn list_patients(&self) -> (r: Vec<Patient>)
        ensures
            r.deep_view() == self@.patients,
    {
        let mut r: Vec<Patient> = Vec::new();
        let mut i: usize = 0;
        while i < self.patients.len()
            invariant
                i <= self.patients.len(),
                r@.len() == i as int,
                forall|j: int| 0 <= j < i ==> #[trigger] r@[j]@ == self.patients@[j]@,
            decreases self.patients.len() - i,
        {
            r.push(clone_patient(&self.patients[i]));
            i = i + 1;
        }
        proof {
            assert(r.deep_view() =~= self@.patients);
        }
        r
    }

    /// Overwrites every caller-supplied field of the patient under `id`,
    /// keeping its id and active flag, and returns a copy of the new record.
    /// Administrator only.
    pub fn update_patient(
        &mut self,
        caller: Principal,
        id: u64,
        name: String,
        date_of_birth: u64,
        blood_type: String,
        allergies: Vec<String>,
        insurance_id: String,
    ) -> (r: Result<Patient, Error>)
        requires
            old(self)@.wf(),
        ensures
            final(self)@.wf(),
            (match old(self)@.gate(caller) {
                Some(e) => r == Err::<Patient, Error>(e) && final(self)@ == old(self)@,
                None => if old(self)@.has_patient(id) {
                    &&& final(self)@ == old(self)@.with_patient_updated(
                        id,
                        name@,
                        date_of_birth,
                        blood_type@,
                        allergies.deep_view(),
                        insurance_id@,
                    )
                    &&& r matches Ok(p) && p@ == final(self)@.patients[id - 1]
                } else {
                    r == Err::<Patient, Error>(Error::NotFound) && final(self)@ == old(self)@
                },
            }),
    {
        let ghost pre = self@;
        let ghost nv = name@;
        let ghost bv = blood_type@;
        let ghost av = allergies.deep_view();
        let ghost iv = insurance_id@;
        if let Err(e) = self.check_admin(caller) {
            return Err(e);
        }
        if !(1 <= id && id <= self.patients.len() as u64) {
            return Err(Error::NotFound);
        }
        let i = (id - 1) as usize;
        let active = self.patients[i].active;
        let updated = Patient {
            id,
            name,
            date_of_birth,
            blood_type,
            allergies,
            insurance_id,
            active,
        };
        self.patients.set(i, updated);
        proof {
            lemma_wf_update_patient(pre, id, nv, date_of_birth, bv, av, iv);
            assert(self@ =~~= pre.with_patient_updated(id, nv, date_of_birth, bv, av, iv));
        }
        Ok(clone_patient(&self.patients[i]))
    }

    /// Sets the active flag of the patient under `id`, touching nothing
    /// else, and returns a copy of the new record. Administrator only.
    pub fn set_patient_active(&mut self, caller: Principal, id: u64, active: bool) -> (r: Result<
        Patient,
        Error,
    >)
        requires
            old(self)@.wf(),
        ensures
            final(self)@.wf(),
            (match old(self)@.gate(caller) {
                Some(e) => r == Err::<Patient, Error>(e) && final(self)@ == old(self)@,
                None => if old(self)@.has_patient(id) {
                    &&& final(self)@ == old(self)@.with_patient_active(id, active)
                    &&& r matches Ok(p) && p@ == final(self)@.patients[id - 1]
                } else {
                    r == Err::<Patient, Error>(Error::NotFound) && final(self)@ == old(self)@
                },
            }),
    {
        let ghost pre = self@;
        if let Err(e) = self.check_admin(caller) {
            return Err(e);
        }
        if !(1 <= id && id <= self.patients.len() as u64) {
            return Err(Error::NotFound);
        }
        let i = (id - 1) as usize;
        let mut updated = clone_patient(&self.patients[i]);
        updated.active = active;
        self.patients.set(i, updated);
        proof {
            lemma_wf_patient_active(pre, id, active);
            assert(self@ =~~= pre.with_patient_active(id, active));
        }
        Ok(clone_patient(&self.patients[i]))
    }

    /// Registers a practitioner under the next id, with `active` true and an
    /// empty relationship index. Administrator only.
    pub fn register_doctor(
        &mut self,
        caller: Principal,
        name: String,
        specialization: String,
        license_number: String,
    ) -> (r: Result<u64, Error>)
        requires
            old(self)@.wf(),
            old(self)@.doctors.len() < u64::MAX,
        ensures
            final(self)@.wf(),
            (match old(self)@.gate(caller) {
                Some(e) => r == Err::<u64, Error>(e) && final(self)@ == old(self)@,
                None => r == Ok::<u64, Error>((old(self)@.doctors.len() + 1) as u64) && final(
                    self)@ == old(self)@.with_doctor_registered(
                    name@,
                    specialization@,
                    license_number@,
                ),
            }),
    {
        let ghost pre = self@;
        let ghost nv = name@;
        let ghost sv = specialization@;
        let ghost lv = license_number@;
        if let Err(e) = self.check_admin(caller) {
            return Err(e);
        }
        let new_id: u64 = (self.doctors.len() as u64) + 1;
        let doctor = Doctor { id: new_id, name, specialization, license_number, active: true };
        self.doctors.push(doctor);
        self.doctor_tests.push(Vec::new());
        proof {
            lemma_wf_register_doctor(pre, nv, sv, lv);
            assert(self@ =~~= pre.with_doctor_registered(nv, sv, lv));
        }
        Ok(new_id)
    }

    /// Returns a copy of the practitioner record under `id`.
    pub fn get_doctor(&self, id: u64) -> (r: Result<Doctor, Error>)
        ensures
            (match r {
                Ok(d) => self@.has_doctor(id) && d@ == self@.doctors[id - 1],
                Err(e) => e == Error::NotFound && !self@.has_doctor(id),
            }),
    {
        if 1 <= id && id <= self.doctors.len() as u64 {
            Ok(clone_doctor(&self.doctors[(id - 1) as usize]))
        } else {
            Err(Error::NotFound)
        }
    }

    /// Overwrites every caller-supplied field of the practitioner under
    /// `id`, keeping its id and active flag, and returns a copy of the new
    /// record. Administrator only.
    pub fn update_doctor(
        &mut self,
        caller: Principal,
        id: u64,
        name: String,
        specialization: String,
        license_number: String,
    ) -> (r: Result<Doctor, Error>)
        requires
            old(self)@.wf(),
        ensures
            final(self)@.wf(),
            (match old(self)@.gate(caller) {
                Some(e) => r == Err::<Doctor, Error>(e) && final(self)@ == old(self)@,
                None => if old(self)@.has_doctor(id) {
                    &&& final(self)@ == old(self)@.with_doctor_updated(id, name@, specialization@,
                    license_number@)
                    &&& r matches Ok(d) && d@ == final(self)@.doctors[id - 1]
                } else {
                    r == Err::<Doctor, Error>(Error::NotFound) && final(self)@ == old(self)@
                },
            }),
    {
        let ghost pre = self@;
        let ghost nv = name@;
        let ghost sv = specialization@;
        let ghost lv = license_number@;
        if let Err(e) = self.check_admin(caller) {
            return Err(e);
        }
        if !(1 <= id && id <= self.doctors.len() as u64) {
            return Err(Error::NotFound);
        }
        let i = (id - 1) as usize;
        let active = self.doctors[i].active;
        let updated = Doctor { id, name, specialization, license_number, active };
        self.doctors.set(i, updated);
        proof {
            lemma_wf_update_doctor(pre, id, nv, sv, lv);
            assert(self@ =~~= pre.with_doctor_updated(id, nv, sv, lv));
        }
        Ok(clone_doctor(&self.doctors[i]))
    }

    /// Sets the active flag of the practitioner under `id`, touching nothing
    /// else, and returns a copy of the new record. Administrator only.
    pub fn set_doctor_active(&mut self, caller: Principal, id: u64, active: bool) -> (r: Result<
        Doctor,
        Error,
    >)
        requires
            old(self)@.wf(),
        ensures
            final(self)@.wf(),
            (match old(self)@.gate(caller) {
                Some(e) => r == Err::<Doctor, Error>(e) && final(self)@ == old(self)@,
                None => if old(self)@.has_doctor(id) {
                    &&& final(self)@ == old(self)@.with_doctor_active(id, active)
                    &&& r matches Ok(d) && d@ == final(self)@.doctors[id - 1]
                } else {
                    r == Err::<Doctor, Error>(Error::NotFound) && final(self)@ == old(self)@
                },
            }),
    {
        let ghost pre = self@;
        if let Err(e) = self.check_admin(caller) {
            return Err(e);
        }
        if !(1 <= id && id <= self.doctors.len() as u64) {
            return Err(Error::NotFound);
        }
        let i = (id - 1) as usize;
        let mut updated = clone_doctor(&self.doctors[i]);
        updated.active = active;
        self.doctors.set(i, updated);
        proof {
            lemma_wf_doctor_active(pre, id, active);
            assert(self@ =~~= pre.with_doctor_active(id, active));
        }
        Ok(clone_doctor(&self.doctors[i]))
    }

    /// Returns copies of every practitioner record, in ascending id order.
    pub fn list_doctors(&self) -> (r: Vec<Doctor>)
        ensures
            r.deep_view() == self@.doctors,
    {
        let mut r: Vec<Doctor> = Vec::new();
        let mut i: usize = 0;
        while i < self.doctors.len()
            invariant
                i <= self.doctors.len(),
                r@.len() == i as int,
                forall|j: int| 0 <= j < i ==> #[trigger] r@[j]@ == self.doctors@[j]@,
            decreases self.doctors.len() - i,
        {
            r.push(clone_doctor(&self.doctors[i]));
            i = i + 1;
        }
        proof {
            assert(r.deep_view() =~= self@.doctors);
        }
        r
    }

    /// Creates a test record under the next test id and appends that id to
    /// the referenced patient's and practitioner's relationship indices.
    /// Needs an initialized store and registered owners; no authorization
    /// gate stands before it.
    pub fn record_medical_test(
        &mut self,
        patient_id: u64,
        doctor_id: u64,
        test_type: String,
        test_date: u64,
        results: String,
        notes: String,
    ) -> (r: Result<u64, Error>)
        requires
            old(self)@.wf(),
            old(self)@.tests.len() < u64::MAX,
        ensures
            final(self)@.wf(),
            (if old(self)@.admin is None {
                r == Err::<u64, Error>(Error::Uninitialized) && final(self)@ == old(self)@
            } else if !old(self)@.has_patient(patient_id) || !old(self)@.has_doctor(doctor_id) {
                r == Err::<u64, Error>(Error::NotFound) && final(self)@ == old(self)@
            } else {
                &&& r == Ok::<u64, Error>((old(self)@.tests.len() + 1) as u64)
                &&& final(self)@ == old(self)@.with_test_recorded(
                    patient_id,
                    doctor_id,
                    test_type@,
                    test_date,
                    results@,
                    notes@,
                )
            }),
    {
        let ghost pre = self@;
        let ghost tv = test_type@;
        let ghost rv = results@;
        let ghost nv = notes@;
        if self.admin.is_none() {
            return Err(Error::Uninitialized);
        }
        if !(1 <= patient_id && patient_id <= self.patients.len() as u64) {
            return Err(Error::NotFound);
        }
        if !(1 <= doctor_id && doctor_id <= self.doctors.len() as u64) {
            return Err(Error::NotFound);
        }
        let new_id: u64 = (self.tests.len() as u64) + 1;
        let test = MedicalTest {
            id: new_id,
            patient_id,
            doctor_id,
            test_type,
            test_date,
            results,
            notes,
        };
        self.tests.push(test);
        let pi = (patient_id - 1) as usize;
        let mut patient_list = copy_ids(&self.patient_tests[pi]);
        patient_list.push(new_id);
        self.patient_tests.set(pi, patient_list);
        let di = (doctor_id - 1) as usize;
        let mut doctor_list = copy_ids(&self.doctor_tests[di]);
        doctor_list.push(new_id);
        self.doctor_tests.set(di, doctor_list);
        proof {
            lemma_wf_record_test(pre, patient_id, doctor_id, tv, test_date, rv, nv);
            assert(self@ =~~= pre.with_test_recorded(
                patient_id,
                doctor_id,
                tv,
                test_date,
                rv,
                nv,
            ));
        }
        Ok(new_id)
    }

    /// Returns a copy of the test record under `id`.
    pub fn get_medical_test(&self, id: u64) -> (r: Result<MedicalTest, Error>)
        ensures
            (match r {
                Ok(t) => self@.has_test(id) && t@ == self@.tests[id - 1],
                Err(e) => e == Error::NotFound && !self@.has_test(id),
            }),
    {
        if 1 <= id && id <= self.tests.len() as u64 {
            Ok(clone_test(&self.tests[(id - 1) as usize]))
        } else {
            Err(Error::NotFound)
        }
    }
}

/// Copies a vector of ids.
fn copy_ids(v: &Vec<u64>) -> (r: Vec<u64>)
    ensures
        r@ == v@,
{
    let mut r: Vec<u64> = Vec::new();
    let mut i: usize = 0;
    while i < v.len()
        invariant
            i <= v.len(),
            r@.len() == i as int,
            forall|j: int| 0 <= j < i ==> r@[j] == v@[j],
        decreases v.len() - i,
    {
        r.push(v[i]);
        i = i + 1;
    }
    proof {
        assert(r@ =~= v@);
    }
    r
}

} // verus!
