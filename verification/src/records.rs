use vstd::prelude::*;

verus! {

/// Mathematical image of a `Patient`: the same fields with strings as
/// character sequences.
#[verifier::ext_equal]
pub struct PatientV {
    pub id: u64,
    pub name: Seq<char>,
    pub date_of_birth: u64,
    pub blood_type: Seq<char>,
    pub allergies: Seq<Seq<char>>,
    pub insurance_id: Seq<char>,
    pub active: bool,
}

/// Mathematical image of a `Doctor`.
#[verifier::ext_equal]
pub struct DoctorV {
    pub id: u64,
    pub name: Seq<char>,
    pub specialization: Seq<char>,
    pub license_number: Seq<char>,
    pub active: bool,
}

/// Mathematical image of a `MedicalTest`.
#[verifier::ext_equal]
pub struct MedicalTestV {
    pub id: u64,
    pub patient_id: u64,
    pub doctor_id: u64,
    pub test_type: Seq<char>,
    pub test_date: u64,
    pub results: Seq<char>,
    pub notes: Seq<char>,
}

/// A patient record. The id is assigned by the store at registration and the
/// active flag starts out true; every other field is supplied by the caller.
#[derive(Clone, Debug, PartialEq, Eq)]
pub struct Patient {
    pub id: u64,
    pub name: String,
    pub date_of_birth: u64,
    pub blood_type: String,
    pub allergies: Vec<String>,
    pub insurance_id: String,
    pub active: bool,
}

/// A practitioner record.
#[derive(Clone, Debug, PartialEq, Eq)]
pub struct Doctor {
    pub id: u64,
    pub name: String,
    pub specialization: String,
    pub license_number: String,
    pub active: bool,
}

/// A test record, tied to the patient it belongs to and the practitioner who
/// performed it by their assigned ids.
#[derive(Clone, Debug, PartialEq, Eq)]
pub struct MedicalTest {
    pub id: u64,
    pub patient_id: u64,
    pub doctor_id: u64,
    pub test_type: String,
    pub test_date: u64,
    pub results: String,
    pub notes: String,
}

impl View for Patient {
    type V = PatientV;

    open spec fn view(&self) -> PatientV {
        PatientV {
            id: self.id,
            name: self.name@,
            date_of_birth: self.date_of_birth,
            blood_type: self.blood_type@,
            allergies: self.allergies.deep_view(),
            insurance_id: self.insurance_id@,
            active: self.active,
        }
    }
}

impl DeepView for Patient {
    type V = PatientV;

    open spec fn deep_view(&self) -> PatientV {
        self.view()
    }
}

impl View for Doctor {
    type V = DoctorV;

    open spec fn view(&self) -> DoctorV {
        DoctorV {
            id: self.id,
            name: self.name@,
            specialization: self.specialization@,
            license_number: self.license_number@,
            active: self.active,
        }
    }
}

impl DeepView for Doctor {
    type V = DoctorV;

    open spec fn deep_view(&self) -> DoctorV {
        self.view()
    }
}

impl View for MedicalTest {
    type V = MedicalTestV;

    open spec fn view(&self) -> MedicalTestV {
        MedicalTestV {
            id: self.id,
            patient_id: self.patient_id,
            doctor_id: self.doctor_id,
            test_type: self.test_type@,
            test_date: self.test_date,
            results: self.results@,
            notes: self.notes@,
        }
    }
}

impl DeepView for MedicalTest {
    type V = MedicalTestV;

    open spec fn deep_view(&self) -> MedicalTestV {
        self.view()
    }
}

/// Copies a vector of strings element by element.
fn clone_strings(v: &Vec<String>) -> (r: Vec<String>)
    ensures
        r@ == v@,
        r.deep_view() == v.deep_view(),
{
    let mut r: Vec<String> = Vec::new();
    let mut i: usize = 0;
    while i < v.len()
        invariant
            i <= v.len(),
            r@.len() == i as int,
            forall|j: int| 0 <= j < i ==> r@[j] == v@[j],
        decreases v.len() - i,
    {
        r.push(v[i].clone());
        i = i + 1;
    }
    proof {
        assert(r@ =~= v@);
        assert(r.deep_view() =~= v.deep_view());
    }
    r
}

/// Copies a patient record; the copy has the same mathematical image.
pub(crate) fn clone_patient(p: &Patient) -> (r: Patient)
    ensures
        r@ == p@,
{
    Patient {
        id: p.id,
        name: p.name.clone(),
        date_of_birth: p.date_of_birth,
        blood_type: p.blood_type.clone(),
        allergies: clone_strings(&p.allergies),
        insurance_id: p.insurance_id.clone(),
        active: p.active,
    }
}

/// Copies a practitioner record; the copy has the same mathematical image.
pub(crate) fn clone_doctor(d: &Doctor) -> (r: Doctor)
    ensures
        r@ == d@,
{
    Doctor {
        id: d.id,
        name: d.name.clone(),
        specialization: d.specialization.clone(),
        license_number: d.license_number.clone(),
        active: d.active,
    }
}

/// Copies a test record; the copy has the same mathematical image.
pub(crate) fn clone_test(t: &MedicalTest) -> (r: MedicalTest)
    ensures
        r@ == t@,
{
    MedicalTest {
        id: t.id,
        patient_id: t.patient_id,
        doctor_id: t.doctor_id,
        test_type: t.test_type.clone(),
        test_date: t.test_date,
        results: t.results.clone(),
        notes: t.notes.clone(),
    }
}

} // verus!
