use vstd::prelude::*;

use crate::error::Error;
use crate::records::{DoctorV, MedicalTestV, PatientV};
use crate::Principal;

verus! {

/// The ids of the test records among `tests` that belong to the patient
/// `patient_id`, in the order the tests were recorded.
pub open spec fn tests_of_patient(tests: Seq<MedicalTestV>, patient_id: u64) -> Seq<u64>
    decreases tests.len(),
{
    if tests.len() == 0 {
        Seq::empty()
    } else {
        let rest = tests_of_patient(tests.drop_last(), patient_id);
        if tests.last().patient_id == patient_id {
            rest.push(tests.last().id)
        } else {
            rest
        }
    }
}

/// The ids of the test records among `tests` that the practitioner
/// `doctor_id` performed, in the order the tests were recorded.
pub open spec fn tests_of_doctor(tests: Seq<MedicalTestV>, doctor_id: u64) -> Seq<u64>
    decreases tests.len(),
{
    if tests.len() == 0 {
        Seq::empty()
    } else {
        let rest = tests_of_doctor(tests.drop_last(), doctor_id);
        if tests.last().doctor_id == doctor_id {
            rest.push(tests.last().id)
        } else {
            rest
        }
    }
}

/// Appending a test touches exactly the sequence of its own patient.
pub proof fn lemma_tests_of_patient_push(tests: Seq<MedicalTestV>, t: MedicalTestV, patient_id: u64)
    ensures
        tests_of_patient(tests.push(t), patient_id) == (if t.patient_id == patient_id {
            tests_of_patient(tests, patient_id).push(t.id)
        } else {
            tests_of_patient(tests, patient_id)
        }),
{
    assert(tests.push(t).drop_last() =~= tests);
    assert(tests.push(t).last() == t);
}

/// Appending a test touches exactly the sequence of its own practitioner.
pub proof fn lemma_tests_of_doctor_push(tests: Seq<MedicalTestV>, t: MedicalTestV, doctor_id: u64)
    ensures
        tests_of_doctor(tests.push(t), doctor_id) == (if t.doctor_id == doctor_id {
            tests_of_doctor(tests, doctor_id).push(t.id)
        } else {
            tests_of_doctor(tests, doctor_id)
        }),
{
    assert(tests.push(t).drop_last() =~= tests);
    assert(tests.push(t).last() == t);
}

/// A patient no test refers to has an empty sequence of test ids.
pub proof fn lemma_tests_of_patient_absent(tests: Seq<MedicalTestV>, patient_id: u64)
    requires
        forall|i: int| 0 <= i < tests.len() ==> (#[trigger] tests[i]).patient_id != patient_id,
    ensures
        tests_of_patient(tests, patient_id) == Seq::<u64>::empty(),
    decreases tests.len(),
{
    if tests.len() > 0 {
        assert(forall|i: int|
            0 <= i < tests.drop_last().len() ==> (#[trigger] tests.drop_last()[i]).patient_id
                != patient_id);
        lemma_tests_of_patient_absent(tests.drop_last(), patient_id);
    }
}

/// A practitioner no test refers to has an empty sequence of test ids.
pub proof fn lemma_tests_of_doctor_absent(tests: Seq<MedicalTestV>, doctor_id: u64)
    requires
        forall|i: int| 0 <= i < tests.len() ==> (#[trigger] tests[i]).doctor_id != doctor_id,
    ensures
        tests_of_doctor(tests, doctor_id) == Seq::<u64>::empty(),
    decreases tests.len(),
{
    if tests.len() > 0 {
        assert(forall|i: int|
            0 <= i < tests.drop_last().len() ==> (#[trigger] tests.drop_last()[i]).doctor_id
                != doctor_id);
        lemma_tests_of_doctor_absent(tests.drop_last(), doctor_id);
    }
}

/// Mathematical image of the whole store: the administrator, the three
/// record classes in registration order, and the two relationship indices.
#[verifier::ext_equal]
pub struct HospitalV {
    pub admin: Option<Principal>,
    pub patients: Seq<PatientV>,
    pub doctors: Seq<DoctorV>,
    pub tests: Seq<MedicalTestV>,
    pub patient_tests: Seq<Seq<u64>>,
    pub doctor_tests: Seq<Seq<u64>>,
}

impl HospitalV {
    /// The store before `initialize`: no administrator and no records.
    pub open spec fn empty() -> HospitalV {
        HospitalV {
            admin: None,
            patients: Seq::empty(),
            doctors: Seq::empty(),
            tests: Seq::empty(),
            patient_tests: Seq::empty(),
            doctor_tests: Seq::empty(),
        }
    }

    /// Well-formedness: ids are dense from 1, each test refers to registered
    /// owners, each relationship index holds exactly the ids of its owner's
    /// tests in recording order, and nothing precedes initialization.
    pub open spec fn wf(self) -> bool {
        &&& self.patient_tests.len() == self.patients.len()
        &&& self.doctor_tests.len() == self.doctors.len()
        &&& forall|i: int| 0 <= i < self.patients.len() ==> (#[trigger] self.patients[i]).id == i + 1
        &&& forall|i: int| 0 <= i < self.doctors.len() ==> (#[trigger] self.doctors[i]).id == i + 1
        &&& forall|i: int| 0 <= i < self.tests.len() ==> (#[trigger] self.tests[i]).id == i + 1
        &&& forall|i: int|
            0 <= i < self.tests.len() ==> 1 <= (#[trigger] self.tests[i]).patient_id
                <= self.patients.len() && 1 <= self.tests[i].doctor_id <= self.doctors.len()
        &&& forall|p: int|
            0 <= p < self.patients.len() ==> #[trigger] self.patient_tests[p] == tests_of_patient(
                self.tests,
                (p + 1) as u64,
            )
        &&& forall|d: int|
            0 <= d < self.doctors.len() ==> #[trigger] self.doctor_tests[d] == tests_of_doctor(
                self.tests,
                (d + 1) as u64,
            )
        &&& self.admin is None ==> self.patients.len() == 0 && self.doctors.len() == 0
            && self.tests.len() == 0
    }

    /// Whether `caller` is the stored administrator.
    pub open spec fn is_admin(self, caller: Principal) -> bool {
        self.admin == Some(caller)
    }

    /// The authorization gate: the error a mutating operation reports before
    /// touching anything, or `None` when the caller may proceed.
    pub open spec fn gate(self, caller: Principal) -> Option<Error> {
        if self.admin is None {
            Some(Error::Uninitialized)
        } else if self.admin == Some(caller) {
            None
        } else {
            Some(Error::Unauthorized)
        }
    }

    /// Whether a patient with this id is registered.
    pub open spec fn has_patient(self, id: u64) -> bool {
        1 <= id <= self.patients.len()
    }

    /// Whether a practitioner with this id is registered.
    pub open spec fn has_doctor(self, id: u64) -> bool {
        1 <= id <= self.doctors.len()
    }

    /// Whether a test record with this id exists.
    pub open spec fn has_test(self, id: u64) -> bool {
        1 <= id <= self.tests.len()
    }

    /// The store with the administrator set.
    pub open spec fn with_admin(self, admin: Principal) -> HospitalV {
        HospitalV { admin: Some(admin), ..self }
    }

    /// The store after a successful patient registration: the record is
    /// appended under the next id with `active` true, and its relationship
    /// index starts out empty.
    pub open spec fn with_patient_registered(
        self,
        name: Seq<char>,
        date_of_birth: u64,
        blood_type: Seq<char>,
        allergies: Seq<Seq<char>>,
        insurance_id: Seq<char>,
    ) -> HospitalV {
        HospitalV {
            patients: self.patients.push(
                PatientV {
                    id: (self.patients.len() + 1) as u64,
                    name,
                    date_of_birth,
                    blood_type,
                    allergies,
                    insurance_id,
                    active: true,
                },
            ),
            patient_tests: self.patient_tests.push(Seq::empty()),
            ..self
        }
    }

    /// The store after a successful patient update: every caller-supplied
    /// field is overwritten; id and active flag are kept.
    pub open spec fn with_patient_updated(
        self,
        id: u64,
        name: Seq<char>,
        date_of_birth: u64,
        blood_type: Seq<char>,
        allergies: Seq<Seq<char>>,
        insurance_id: Seq<char>,
    ) -> HospitalV {
        HospitalV {
            patients: self.patients.update(
                id - 1,
                PatientV {
                    id,
                    name,
                    date_of_birth,
                    blood_type,
                    allergies,
                    insurance_id,
                    active: self.patients[id - 1].active,
                },
            ),
            ..self
        }
    }

    /// The store after a patient's active flag is set; no other field moves.
    pub open spec fn with_patient_active(self, id: u64, active: bool) -> HospitalV {
        HospitalV {
            patients: self.patients.update(
                id - 1,
                PatientV { active, ..self.patients[id - 1] },
            ),
            ..self
        }
    }

    /// The store after a successful practitioner registration.
    pub open spec fn with_doctor_registered(
        self,
        name: Seq<char>,
        specialization: Seq<char>,
        license_number: Seq<char>,
    ) -> HospitalV {
        HospitalV {
            doctors: self.doctors.push(
                DoctorV {
                    id: (self.doctors.len() + 1) as u64,
                    name,
                    specialization,
                    license_number,
                    active: true,
                },
            ),
            doctor_tests: self.doctor_tests.push(Seq::empty()),
            ..self
        }
    }

    /// The store after a successful practitioner update.
    pub open spec fn with_doctor_updated(
        self,
        id: u64,
        name: Seq<char>,
        specialization: Seq<char>,
        license_number: Seq<char>,
    ) -> HospitalV {
        HospitalV {
            doctors: self.doctors.update(
                id - 1,
                DoctorV {
                    id,
                    name,
                    specialization,
                    license_number,
                    active: self.doctors[id - 1].active,
                },
            ),
            ..self
        }
    }

    /// The store after a practitioner's active flag is set.
    pub open spec fn with_doctor_active(self, id: u64, active: bool) -> HospitalV {
        HospitalV {
            doctors: self.doctors.update(
                id - 1,
                DoctorV { active, ..self.doctors[id - 1] },
            ),
            ..self
        }
    }

    /// The store after a test record is created: the record is appended under
    /// the next id, and that id is appended to the patient's and the
    /// practitioner's relationship indices.
    pub open spec fn with_test_recorded(
        self,
        patient_id: u64,
        doctor_id: u64,
        test_type: Seq<char>,
        test_date: u64,
        results: Seq<char>,
        notes: Seq<char>,
    ) -> HospitalV {
        let id = (self.tests.len() + 1) as u64;
        HospitalV {
            tests: self.tests.push(
                MedicalTestV { id, patient_id, doctor_id, test_type, test_date, results, notes },
            ),
            patient_tests: self.patient_tests.update(
                patient_id - 1,
                self.patient_tests[patient_id - 1].push(id),
            ),
            doctor_tests: self.doctor_tests.update(
                doctor_id - 1,
                self.doctor_tests[doctor_id - 1].push(id),
            ),
            ..self
        }
    }
}

/// Setting the administrator of a store that has none preserves
/// well-formedness.
pub proof fn lemma_wf_with_admin(s: HospitalV, admin: Principal)
    requires
        s.wf(),
    ensures
        s.with_admin(admin).wf(),
{
}

/// Registering a patient preserves well-formedness: the new record gets the
/// next id and an empty relationship index.
pub proof fn lemma_wf_register_patient(
    s: HospitalV,
    name: Seq<char>,
    date_of_birth: u64,
    blood_type: Seq<char>,
    allergies: Seq<Seq<char>>,
    insurance_id: Seq<char>,
)
    requires
        s.wf(),
        s.admin is Some,
        s.patients.len() < u64::MAX,
    ensures
        s.with_patient_registered(name, date_of_birth, blood_type, allergies, insurance_id).wf(),
{
    let s1 = s.with_patient_registered(name, date_of_birth, blood_type, allergies, insurance_id);
    let fresh = (s.patients.len() + 1) as u64;
    assert(forall|i: int|
        0 <= i < s.tests.len() ==> (#[trigger] s.tests[i]).patient_id != fresh);
    lemma_tests_of_patient_absent(s.tests, fresh);
    assert forall|p: int|
        0 <= p < s1.patients.len() implies #[trigger] s1.patient_tests[p] == tests_of_patient(
        s1.tests,
        (p + 1) as u64,
    ) by {
        if p < s.patients.len() {
            assert(s1.patient_tests[p] == s.patient_tests[p]);
        } else {
            assert(s1.patient_tests[p] =~= Seq::<u64>::empty());
        }
    }
}

/// Registering a practitioner preserves well-formedness.
pub proof fn lemma_wf_register_doctor(
    s: HospitalV,
    name: Seq<char>,
    specialization: Seq<char>,
    license_number: Seq<char>,
)
    requires
        s.wf(),
        s.admin is Some,
        s.doctors.len() < u64::MAX,
    ensures
        s.with_doctor_registered(name, specialization, license_number).wf(),
{
    let s1 = s.with_doctor_registered(name, specialization, license_number);
    let fresh = (s.doctors.len() + 1) as u64;
    assert(forall|i: int|
        0 <= i < s.tests.len() ==> (#[trigger] s.tests[i]).doctor_id != fresh);
    lemma_tests_of_doctor_absent(s.tests, fresh);
    assert forall|d: int|
        0 <= d < s1.doctors.len() implies #[trigger] s1.doctor_tests[d] == tests_of_doctor(
        s1.tests,
        (d + 1) as u64,
    ) by {
        if d < s.doctors.len() {
            assert(s1.doctor_tests[d] == s.doctor_tests[d]);
        } else {
            assert(s1.doctor_tests[d] =~= Seq::<u64>::empty());
        }
    }
}

/// Overwriting a patient's caller-supplied fields preserves well-formedness.
pub proof fn lemma_wf_update_patient(
    s: HospitalV,
    id: u64,
    name: Seq<char>,
    date_of_birth: u64,
    blood_type: Seq<char>,
    allergies: Seq<Seq<char>>,
    insurance_id: Seq<char>,
)
    requires
        s.wf(),
        s.has_patient(id),
    ensures
        s.with_patient_updated(id, name, date_of_birth, blood_type, allergies, insurance_id).wf(),
{
}

/// Setting a patient's active flag preserves well-formedness.
pub proof fn lemma_wf_patient_active(s: HospitalV, id: u64, active: bool)
    requires
        s.wf(),
        s.has_patient(id),
    ensures
        s.with_patient_active(id, active).wf(),
{
}

/// Overwriting a practitioner's caller-supplied fields preserves
/// well-formedness.
pub proof fn lemma_wf_update_doctor(
    s: HospitalV,
    id: u64,
    name: Seq<char>,
    specialization: Seq<char>,
    license_number: Seq<char>,
)
    requires
        s.wf(),
        s.has_doctor(id),
    ensures
        s.with_doctor_updated(id, name, specialization, license_number).wf(),
{
}

/// Setting a practitioner's active flag preserves well-formedness.
pub proof fn lemma_wf_doctor_active(s: HospitalV, id: u64, active: bool)
    requires
        s.wf(),
        s.has_doctor(id),
    ensures
        s.with_doctor_active(id, active).wf(),
{
}

/// Recording a test preserves well-formedness: the record refers to
/// registered owners and its id lands in exactly their two indices.
pub proof fn lemma_wf_record_test(
    s: HospitalV,
    patient_id: u64,
    doctor_id: u64,
    test_type: Seq<char>,
    test_date: u64,
    results: Seq<char>,
    notes: Seq<char>,
)
    requires
        s.wf(),
        s.admin is Some,
        s.has_patient(patient_id),
        s.has_doctor(doctor_id),
        s.tests.len() < u64::MAX,
    ensures
        s.with_test_recorded(patient_id, doctor_id, test_type, test_date, results, notes).wf(),
{
    let s1 = s.with_test_recorded(patient_id, doctor_id, test_type, test_date, results, notes);
    let id = (s.tests.len() + 1) as u64;
    let t = MedicalTestV { id, patient_id, doctor_id, test_type, test_date, results, notes };
    assert forall|p: int|
        0 <= p < s1.patients.len() implies #[trigger] s1.patient_tests[p] == tests_of_patient(
        s1.tests,
        (p + 1) as u64,
    ) by {
        assert(s.patients[p].id == p + 1);
        let pu = (p + 1) as u64;
        assert(pu == p + 1);
        lemma_tests_of_patient_push(s.tests, t, pu);
        assert(s.patient_tests[p] == tests_of_patient(s.tests, pu));
        if p == patient_id - 1 {
            assert(pu == patient_id);
            assert(s1.patient_tests[p] == s.patient_tests[p].push(id));
        } else {
            assert(t.patient_id != pu);
            assert(s1.patient_tests[p] == s.patient_tests[p]);
        }
    }
    assert forall|d: int|
        0 <= d < s1.doctors.len() implies #[trigger] s1.doctor_tests[d] == tests_of_doctor(
        s1.tests,
        (d + 1) as u64,
    ) by {
        assert(s.doctors[d].id == d + 1);
        let du = (d + 1) as u64;
        assert(du == d + 1);
        lemma_tests_of_doctor_push(s.tests, t, du);
        assert(s.doctor_tests[d] == tests_of_doctor(s.tests, du));
        if d == doctor_id - 1 {
            assert(du == doctor_id);
            assert(s1.doctor_tests[d] == s.doctor_tests[d].push(id));
        } else {
            assert(t.doctor_id != du);
            assert(s1.doctor_tests[d] == s.doctor_tests[d]);
        }
    }
}

} // verus!
